//! The restart manager's decision logic: what to answer for a restart
//! operation found pending at startup, how a fresh request is acknowledged,
//! and which command lines perform the reboot.
//!
//! Loading and storing the operation state, creating the witness file and
//! running the commands are all I/O and stay with the runtime: their
//! outcomes arrive here as plain values.

use vstd::prelude::*;
use vstd::string::StringExecFns;

use crate::messages::CommandStatus;
use crate::messages::CommandStatusView;
use crate::messages::RestartCommand;
use crate::messages::RestartCommandPayload;
use crate::mqtt::EntityTopicId;

verus! {

/// Progress of a recorded restart operation.
#[derive(Clone, Copy, Debug, PartialEq, Eq, Structural)]
pub enum RestartOperationStatus {
    Pending,
    Restarting,
}

/// The kind of operation the state repository holds.
#[derive(Clone, Copy, Debug, PartialEq, Eq, Structural)]
pub enum StateStatus {
    Restart(RestartOperationStatus),
    Software,
    UnknownOperation,
}

/// One record of the state repository: the command the agent was working on
/// when it last stopped, if any.
#[derive(Clone, Debug, PartialEq, Eq)]
pub struct State {
    pub operation_id: Option<String>,
    pub operation: Option<StateStatus>,
}

/// The response owed for a restart operation found in the state repository
/// at startup. A restart recorded as under way is answered according to
/// whether the device did reboot (`None` meaning the check itself failed);
/// one still recorded as pending means the agent restarted but the device
/// did not. Anything else — no readable state, an incomplete record, or a
/// foreign operation — is answered with nothing.
pub fn pending_restart_response(state: Option<State>, rebooted: Option<bool>) -> (r: Option<
    RestartCommand,
>)
    ensures
        (match state {
            Option::None => r is None,
            Option::Some(s) => (match (s.operation_id, s.operation) {
                (
                    Option::Some(cmd_id),
                    Option::Some(StateStatus::Restart(RestartOperationStatus::Restarting)),
                ) => r matches Some(command) && command.cmd_id == cmd_id && command.target.name@
                    == "device/main//"@ && command.payload@ == (match rebooted {
                    Option::Some(true) => CommandStatusView::Successful,
                    Option::Some(false) => CommandStatusView::Failed {
                        reason: "device failed to restart"@,
                    },
                    Option::None => CommandStatusView::Failed {
                        reason: "failed to detect a restart"@,
                    },
                }),
                (
                    Option::Some(cmd_id),
                    Option::Some(StateStatus::Restart(RestartOperationStatus::Pending)),
                ) => r matches Some(command) && command.cmd_id == cmd_id && command.target.name@
                    == "device/main//"@ && command.payload@ == (CommandStatusView::Failed {
                    reason: "the agent restarted but the device did not"@,
                }),
                _ => r is None,
            }),
        }),
{
    match state {
        Option::None => Option::None,
        Option::Some(s) => {
            match (s.operation_id, s.operation) {
                (Option::Some(cmd_id), Option::Some(operation)) => {
                    let target = EntityTopicId::default_main_device();
                    match operation {
                        StateStatus::Restart(RestartOperationStatus::Restarting) => {
                            let status = match rebooted {
                                Option::Some(true) => CommandStatus::Successful,
                                Option::Some(false) => CommandStatus::Failed {
                                    reason: String::from_str("device failed to restart"),
                                },
                                Option::None => CommandStatus::Failed {
                                    reason: String::from_str("failed to detect a restart"),
                                },
                            };
                            Option::Some(
                                RestartCommand {
                                    target,
                                    cmd_id,
                                    payload: RestartCommandPayload { status },
                                },
                            )
                        },
                        StateStatus::Restart(RestartOperationStatus::Pending) => {
                            let status = CommandStatus::Failed {
                                reason: String::from_str(
                                    "the agent restarted but the device did not",
                                ),
                            };
                            Option::Some(
                                RestartCommand {
                                    target,
                                    cmd_id,
                                    payload: RestartCommandPayload { status },
                                },
                            )
                        },
                        StateStatus::Software => Option::None,
                        StateStatus::UnknownOperation => Option::None,
                    }
                },
                _ => Option::None,
            }
        },
    }
}

/// The record stored while a restart is under way.
pub fn restarting_state(cmd_id: &str) -> (r: State)
    ensures
        (match r.operation_id {
            Option::Some(id) => id@ == cmd_id@,
            Option::None => false,
        }),
        r.operation == Option::Some(
            StateStatus::Restart(RestartOperationStatus::Restarting),
        ),
{
    State {
        operation_id: Option::Some(String::from_str(cmd_id)),
        operation: Option::Some(StateStatus::Restart(RestartOperationStatus::Restarting)),
    }
}

/// How a fresh restart request is acknowledged: executing once its state is
/// stored and the reboot witness file created, failed as soon as either
/// step went wrong.
pub fn executing_response(command: RestartCommand, state_stored: bool, witness_created: bool) -> (r:
    RestartCommand)
    ensures
        r.target == command.target,
        r.cmd_id == command.cmd_id,
        r.payload@ == (if !state_stored {
            CommandStatusView::Failed { reason: "failed to update the restart state"@ }
        } else if !witness_created {
            CommandStatusView::Failed { reason: "failed to create the restart witness file"@ }
        } else {
            CommandStatusView::Executing
        }),
{
    if !state_stored {
        command.with_error(String::from_str("failed to update the restart state"))
    } else if !witness_created {
        command.with_error(String::from_str("failed to create the restart witness file"))
    } else {
        command.with_status(CommandStatus::Executing)
    }
}

/// One command line of the reboot procedure.
#[derive(Clone, Debug, PartialEq, Eq)]
pub struct CommandLine {
    pub program: String,
    pub args: Vec<String>,
}

/// The command lines that perform a reboot: first a filesystem sync, then
/// the configured reboot command — both through sudo when a sudo binary was
/// found, plain otherwise (then the reboot command's first word is the
/// program, defaulting to nothing).
pub fn restart_operation_commands(sudo: Option<String>, reboot: Vec<String>) -> (r: Vec<
    CommandLine,
>)
    ensures
        r@.len() == 2,
        (match sudo {
            Option::Some(sudo_path) => r@[0].program == sudo_path && r@[0].args@.len() == 1
                && r@[0].args@[0]@ == "sync"@ && r@[1].program == sudo_path && r@[1].args@
                == reboot@,
            Option::None => r@[0].program@ == "sync"@ && r@[0].args@.len() == 0 && (
            if reboot@.len() > 0 {
                r@[1].program == reboot@[0] && r@[1].args@ == reboot@.skip(1)
            } else {
                r@[1].program@ == Seq::<char>::empty() && r@[1].args@.len() == 0
            }),
        }),
{
    let mut commands: Vec<CommandLine> = Vec::new();
    match sudo {
        Option::Some(sudo_path) => {
            let mut sync_args: Vec<String> = Vec::new();
            sync_args.push(String::from_str("sync"));
            commands.push(CommandLine { program: sudo_path.clone(), args: sync_args });
            commands.push(CommandLine { program: sudo_path, args: reboot });
        },
        Option::None => {
            commands.push(CommandLine { program: String::from_str("sync"), args: Vec::new() });
            let mut rest = reboot;
            let program = if rest.len() > 0 {
                rest.remove(0)
            } else {
                String::new()
            };
            commands.push(CommandLine { program, args: rest });
        },
    }
    commands
}

/// A failure of the reboot procedure.
#[derive(Clone, Copy, Debug, PartialEq, Eq, Structural)]
pub enum RestartManagerError {
    /// A reboot command ran and reported failure.
    CommandFailed,
    /// A reboot command could not be run at all.
    Io,
}

/// How one reboot command ended.
#[derive(Clone, Copy, Debug, PartialEq, Eq, Structural)]
pub enum CommandOutcome {
    Exited { success: bool },
    SpawnFailed,
}

/// The verdict over the reboot commands' outcomes, in order: the first
/// command that could not run or reported failure decides.
pub open spec fn commands_verdict(outcomes: Seq<CommandOutcome>) -> Result<
    (),
    RestartManagerError,
>
    decreases outcomes.len(),
{
    if outcomes.len() == 0 {
        Ok(())
    } else {
        match outcomes[0] {
            CommandOutcome::SpawnFailed => Err(RestartManagerError::Io),
            CommandOutcome::Exited { success } => if !success {
                Err(RestartManagerError::CommandFailed)
            } else {
                commands_verdict(outcomes.drop_first())
            },
        }
    }
}

/// Judge the reboot procedure from its commands' outcomes.
pub fn commands_outcome(outcomes: &Vec<CommandOutcome>) -> (r: Result<(), RestartManagerError>)
    ensures
        r == commands_verdict(outcomes@),
{
    let mut i: usize = 0;
    proof {
        assert(outcomes@.skip(0) =~= outcomes@);
    }
    while i < outcomes.len()
        invariant
            i <= outcomes@.len(),
            commands_verdict(outcomes@) == commands_verdict(outcomes@.skip(i as int)),
        decreases outcomes@.len() - i,
    {
        match outcomes[i] {
            CommandOutcome::SpawnFailed => {
                return Err(RestartManagerError::Io);
            },
            CommandOutcome::Exited { success } => {
                if !success {
                    return Err(RestartManagerError::CommandFailed);
                }
            },
        }
        proof {
            assert(outcomes@.skip(i as int)[0] == outcomes@[i as int]);
            assert(outcomes@.skip(i as int).drop_first() =~= outcomes@.skip(i + 1));
        }
        i = i + 1;
    }
    proof {
        assert(outcomes@.skip(outcomes@.len() as int).len() == 0);
    }
    Ok(())
}

} // verus!
