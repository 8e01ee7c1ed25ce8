use tedge_actors::messages::CommandStatus;
use tedge_actors::messages::ConfigSnapshotCmdPayload;
use tedge_actors::messages::ConfigUpdateCmdPayload;
use tedge_actors::messages::LogUploadCmdPayload;
use tedge_actors::settings::SetConfigCommand;

#[test]
fn log_upload_payload_walks_its_status_lifecycle() {
    let mut payload = LogUploadCmdPayload {
        status: CommandStatus::Init,
        tedge_url: "http://127.0.0.1/upload".to_string(),
        log_type: "mosquitto".to_string(),
        date_from: "2023-01-01T00:00:00Z".to_string(),
        date_to: "2023-01-02T00:00:00Z".to_string(),
        search_text: None,
        lines: 1000,
    };
    payload.executing();
    assert_eq!(payload.status, CommandStatus::Executing);
    payload.successful();
    assert_eq!(payload.status, CommandStatus::Successful);
    payload.failed("no such log".to_string());
    assert_eq!(
        payload.status,
        CommandStatus::Failed { reason: "no such log".to_string() }
    );
    assert_eq!(payload.log_type, "mosquitto");
    assert_eq!(payload.lines, 1000);
}

#[test]
fn config_snapshot_payload_records_the_snapshot_path() {
    let mut payload = ConfigSnapshotCmdPayload {
        status: CommandStatus::Init,
        tedge_url: "http://127.0.0.1/snapshot".to_string(),
        config_type: "tedge.toml".to_string(),
        path: None,
    };
    payload.executing();
    assert_eq!(payload.status, CommandStatus::Executing);
    payload.successful("/etc/tedge/tedge.toml".to_string());
    assert_eq!(payload.status, CommandStatus::Successful);
    assert_eq!(payload.path.as_deref(), Some("/etc/tedge/tedge.toml"));
    payload.failed("unreadable".to_string());
    assert_eq!(payload.status, CommandStatus::Failed { reason: "unreadable".to_string() });
}

#[test]
fn config_update_payload_records_the_updated_path() {
    let mut payload = ConfigUpdateCmdPayload {
        status: CommandStatus::Init,
        tedge_url: "http://127.0.0.1/update".to_string(),
        remote_url: "http://configs.example/new".to_string(),
        config_type: "tedge.toml".to_string(),
        path: None,
    };
    payload.executing();
    assert_eq!(payload.status, CommandStatus::Executing);
    payload.successful("/etc/tedge/tedge.toml".to_string());
    assert_eq!(payload.path.as_deref(), Some("/etc/tedge/tedge.toml"));
    payload.failed("download failed".to_string());
    assert_eq!(
        payload.status,
        CommandStatus::Failed { reason: "download failed".to_string() }
    );
    assert_eq!(payload.remote_url, "http://configs.example/new");
}

#[test]
fn set_config_command_describes_itself() {
    let command = SetConfigCommand {
        key: "c8y.url".to_string(),
        value: "mytenant.example".to_string(),
    };
    assert_eq!(
        command.description(),
        "set the configuration key: 'c8y.url' with value: mytenant.example."
    );
}
