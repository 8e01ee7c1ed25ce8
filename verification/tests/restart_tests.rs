use tedge_actors::messages::CommandStatus;
use tedge_actors::messages::RestartCommand;
use tedge_actors::mqtt::EntityTopicId;
use tedge_actors::restart::commands_outcome;
use tedge_actors::restart::pending_restart_response;
use tedge_actors::restart::restart_operation_commands;
use tedge_actors::restart::restarting_state;
use tedge_actors::restart::executing_response;
use tedge_actors::restart::CommandOutcome;
use tedge_actors::restart::RestartManagerError;
use tedge_actors::restart::RestartOperationStatus;
use tedge_actors::restart::State;
use tedge_actors::restart::StateStatus;

fn recorded(operation: StateStatus) -> Option<State> {
    Some(State {
        operation_id: Some("op-1".to_string()),
        operation: Some(operation),
    })
}

#[test]
fn successful_reboot_is_reported_successful() {
    let response = pending_restart_response(
        recorded(StateStatus::Restart(RestartOperationStatus::Restarting)),
        Some(true),
    )
    .unwrap();
    assert_eq!(response.cmd_id, "op-1");
    assert_eq!(response.target.name, "device/main//");
    assert_eq!(response.payload.status, CommandStatus::Successful);
}

#[test]
fn missed_reboot_is_reported_failed() {
    let response = pending_restart_response(
        recorded(StateStatus::Restart(RestartOperationStatus::Restarting)),
        Some(false),
    )
    .unwrap();
    assert!(matches!(response.payload.status, CommandStatus::Failed { .. }));

    let response = pending_restart_response(
        recorded(StateStatus::Restart(RestartOperationStatus::Restarting)),
        None,
    )
    .unwrap();
    assert!(matches!(response.payload.status, CommandStatus::Failed { .. }));

    let response = pending_restart_response(
        recorded(StateStatus::Restart(RestartOperationStatus::Pending)),
        Some(true),
    )
    .unwrap();
    assert_eq!(
        response.payload.status,
        CommandStatus::Failed { reason: "the agent restarted but the device did not".to_string() }
    );
}

#[test]
fn foreign_or_missing_state_needs_no_response() {
    assert_eq!(pending_restart_response(None, Some(true)), None);
    assert_eq!(pending_restart_response(recorded(StateStatus::Software), Some(true)), None);
    assert_eq!(
        pending_restart_response(recorded(StateStatus::UnknownOperation), Some(true)),
        None
    );
    let incomplete = Some(State { operation_id: None, operation: None });
    assert_eq!(pending_restart_response(incomplete, Some(true)), None);
}

#[test]
fn request_is_acknowledged_as_executing_once_recorded() {
    let command = RestartCommand::new(EntityTopicId {
        name: "device/main//".to_string(),
    });
    let response = executing_response(command.clone(), true, true);
    assert_eq!(response.payload.status, CommandStatus::Executing);
    let response = executing_response(command.clone(), false, true);
    assert!(matches!(response.payload.status, CommandStatus::Failed { .. }));
    let response = executing_response(command, true, false);
    assert!(matches!(response.payload.status, CommandStatus::Failed { .. }));
}

#[test]
fn restarting_state_records_the_command() {
    let state = restarting_state("op-9");
    assert_eq!(state.operation_id.as_deref(), Some("op-9"));
    assert_eq!(
        state.operation,
        Some(StateStatus::Restart(RestartOperationStatus::Restarting))
    );
}

#[test]
fn reboot_commands_go_through_sudo_when_available() {
    let commands = restart_operation_commands(
        Some("/usr/bin/sudo".to_string()),
        vec!["init".to_string(), "6".to_string()],
    );
    assert_eq!(commands.len(), 2);
    assert_eq!(commands[0].program, "/usr/bin/sudo");
    assert_eq!(commands[0].args, vec!["sync".to_string()]);
    assert_eq!(commands[1].program, "/usr/bin/sudo");
    assert_eq!(commands[1].args, vec!["init".to_string(), "6".to_string()]);
}

#[test]
fn reboot_commands_run_plain_without_sudo() {
    let commands =
        restart_operation_commands(None, vec!["systemctl".to_string(), "reboot".to_string()]);
    assert_eq!(commands[0].program, "sync");
    assert!(commands[0].args.is_empty());
    assert_eq!(commands[1].program, "systemctl");
    assert_eq!(commands[1].args, vec!["reboot".to_string()]);

    let commands = restart_operation_commands(None, vec![]);
    assert_eq!(commands[1].program, "");
    assert!(commands[1].args.is_empty());
}

#[test]
fn first_problem_among_command_outcomes_decides() {
    let all_good = vec![
        CommandOutcome::Exited { success: true },
        CommandOutcome::Exited { success: true },
    ];
    assert_eq!(commands_outcome(&all_good), Ok(()));

    let spawn_failure = vec![CommandOutcome::SpawnFailed, CommandOutcome::Exited { success: false }];
    assert_eq!(commands_outcome(&spawn_failure), Err(RestartManagerError::Io));

    let command_failure = vec![
        CommandOutcome::Exited { success: true },
        CommandOutcome::Exited { success: false },
        CommandOutcome::SpawnFailed,
    ];
    assert_eq!(commands_outcome(&command_failure), Err(RestartManagerError::CommandFailed));

    assert_eq!(commands_outcome(&vec![]), Ok(()));
}
