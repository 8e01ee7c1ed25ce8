use tedge_actors::messages::CommandStatus;
use tedge_actors::messages::OperationStatus;
use tedge_actors::messages::PayloadError;
use tedge_actors::messages::RestartCommand;
use tedge_actors::messages::RestartCommandPayload;
use tedge_actors::messages::SoftwareListRequest;
use tedge_actors::messages::SoftwareListResponse;
use tedge_actors::messages::SoftwareModuleAction;
use tedge_actors::messages::SoftwareModuleItem;
use tedge_actors::messages::SoftwareUpdateRequest;
use tedge_actors::messages::SoftwareUpdateResponse;
use tedge_actors::messages::SOFTWARE_LIST_REQUEST_TOPIC;
use tedge_actors::mqtt::EntityTopicId;
use tedge_actors::mqtt::MqttSchema;
use tedge_actors::mqtt::QoS;
use tedge_actors::software::DownloadInfo;
use tedge_actors::software::SoftwareError;
use tedge_actors::software::SoftwareModule;
use tedge_actors::software::SoftwareModuleUpdate;

fn module(module_type: Option<&str>, name: &str, version: Option<&str>) -> SoftwareModule {
    SoftwareModule {
        module_type: module_type.map(|t| t.to_string()),
        name: name.to_string(),
        version: version.map(|v| v.to_string()),
        url: None,
        file_path: None,
    }
}

#[test]
fn fresh_request_identifiers_have_nanoid_length() {
    let list_request = SoftwareListRequest::default();
    assert_eq!(list_request.id.chars().count(), 21);
    let update_request = SoftwareUpdateRequest::default();
    assert_eq!(update_request.id.chars().count(), 21);
    assert!(update_request.update_list.is_empty());
    let command = RestartCommand::new(EntityTopicId {
        name: "device/main//".to_string(),
    });
    assert_eq!(command.cmd_id.chars().count(), 21);
    assert_eq!(command.payload.status, CommandStatus::Init);
}

#[test]
fn serde_software_request_list() {
    let request = SoftwareListRequest {
        id: "1234".to_string(),
    };
    let expected_json = r#"{"id":"1234"}"#;

    let actual_json = String::from_utf8(request.to_bytes()).unwrap();

    assert_eq!(actual_json, expected_json);

    let de_request =
        SoftwareListRequest::from_slice(actual_json.as_bytes()).expect("failed to deserialize");
    assert_eq!(request, de_request);
}

#[test]
fn requests_carry_the_given_identifier() {
    let request = SoftwareListRequest::new_with_id("1234");
    assert_eq!(request.id, "1234");
    assert_eq!(SoftwareListRequest::topic().name, SOFTWARE_LIST_REQUEST_TOPIC);
    let update = SoftwareUpdateRequest::new_with_id("abcd");
    assert_eq!(update.id, "abcd");
}

#[test]
fn updates_are_filed_under_their_plugin_type() {
    let mut request = SoftwareUpdateRequest::new_with_id("1234");
    request.add_update(SoftwareModuleUpdate::install(module(
        Some("debian"),
        "debian1",
        Some("0.0.1"),
    )));
    request.add_update(SoftwareModuleUpdate::install(module(
        Some("debian"),
        "debian2",
        Some("0.0.2"),
    )));
    request.add_update(SoftwareModuleUpdate::remove(module(
        Some("docker"),
        "docker1",
        None,
    )));
    assert_eq!(request.update_list.len(), 2);
    assert_eq!(request.update_list[0].plugin_type, "debian");
    assert_eq!(request.update_list[0].modules.len(), 2);
    assert_eq!(request.update_list[0].modules[0].name, "debian1");
    assert_eq!(
        request.update_list[0].modules[0].action,
        Some(SoftwareModuleAction::Install)
    );
    assert_eq!(request.update_list[1].plugin_type, "docker");
    assert_eq!(
        request.update_list[1].modules[0].action,
        Some(SoftwareModuleAction::Remove)
    );
    assert_eq!(request.modules_types(), vec!["debian".to_string(), "docker".to_string()]);
}

#[test]
fn empty_module_type_normalizes_to_the_default_type() {
    let mut request = SoftwareUpdateRequest::new_with_id("1234");
    request.add_update(SoftwareModuleUpdate::install(module(Some(""), "plain", Some(""))));
    assert_eq!(request.update_list[0].plugin_type, "default");
    assert_eq!(request.update_list[0].modules[0].version, None);
}

#[test]
fn updates_for_rebuilds_the_requested_changes() {
    let mut request = SoftwareUpdateRequest::new_with_id("1234");
    request.add_updates(
        "debian",
        vec![
            SoftwareModuleUpdate::install(module(None, "one", Some("1"))),
            SoftwareModuleUpdate::remove(module(None, "two", None)),
        ],
    );
    let updates = request.updates_for("debian");
    assert_eq!(updates.len(), 2);
    match &updates[0] {
        SoftwareModuleUpdate::Install { module } => {
            assert_eq!(module.module_type.as_deref(), Some("debian"));
            assert_eq!(module.name, "one");
            assert_eq!(module.version.as_deref(), Some("1"));
        }
        other => panic!("expected an install, got {:?}", other),
    }
    assert!(matches!(&updates[1], SoftwareModuleUpdate::Remove { .. }));
    assert!(request.updates_for("rpm").is_empty());
}

#[test]
fn list_response_collects_modules_and_turns_successful() {
    let request = SoftwareListRequest::new_with_id("1234");
    let mut response = SoftwareListResponse::new(&request);
    assert_eq!(response.id(), "1234");
    assert_eq!(response.status(), OperationStatus::Executing);
    response.add_modules("debian", vec![module(None, "debian1", Some("0.0.1"))]);
    assert_eq!(response.status(), OperationStatus::Successful);
    assert_eq!(response.error(), None);
    let modules = response.modules();
    assert_eq!(modules.len(), 1);
    assert_eq!(modules[0].module_type.as_deref(), Some("debian"));
    assert_eq!(modules[0].name, "debian1");
}

#[test]
fn list_response_set_error_marks_the_operation_failed() {
    let request = SoftwareListRequest::new_with_id("1234");
    let mut response = SoftwareListResponse::new(&request);
    response.set_error("plugin exploded");
    assert_eq!(response.status(), OperationStatus::Failed);
    assert_eq!(response.error(), Some("plugin exploded".to_string()));
}

#[test]
fn update_response_records_errors_per_plugin_type() {
    let request = SoftwareUpdateRequest::new_with_id("1234");
    let mut response = SoftwareUpdateResponse::new(&request);
    response.add_errors(
        "debian",
        vec![
            SoftwareError::Install {
                module: module(None, "broken", None),
                reason: "download failed".to_string(),
            },
            SoftwareError::Other { reason: "unrelated".to_string() },
        ],
    );
    assert_eq!(response.status(), OperationStatus::Failed);
    assert_eq!(response.response.failures.len(), 1);
    let entries = &response.response.failures[0].modules;
    assert_eq!(entries.len(), 1);
    assert_eq!(entries[0].name, "broken");
    assert_eq!(entries[0].reason.as_deref(), Some("download failed"));
}

#[test]
fn module_items_carry_over_their_source_fields() {
    let item = SoftwareModuleItem::from_update(SoftwareModuleUpdate::install(SoftwareModule {
        module_type: Some("docker".to_string()),
        name: "docker1".to_string(),
        version: Some("0.0.1".to_string()),
        url: Some(DownloadInfo::new("test.com")),
        file_path: None,
    }));
    assert_eq!(item.name, "docker1");
    assert_eq!(item.action, Some(SoftwareModuleAction::Install));
    assert_eq!(item.url.as_ref().map(|u| u.url.as_str()), Some("test.com"));
    assert_eq!(SoftwareModuleItem::from_error(SoftwareError::Other {
        reason: "x".to_string(),
    }), None);
}

#[test]
fn restart_payload_serializes_each_status() {
    let payload = RestartCommandPayload { status: CommandStatus::Init };
    assert_eq!(payload.to_bytes(), b"{\"status\":\"init\"}");
    let payload = RestartCommandPayload { status: CommandStatus::Executing };
    assert_eq!(payload.to_bytes(), b"{\"status\":\"executing\"}");
    let payload = RestartCommandPayload {
        status: CommandStatus::Failed { reason: "oops \"x\"\n".to_string() },
    };
    assert_eq!(
        String::from_utf8(payload.to_bytes()).unwrap(),
        "{\"status\":\"failed\",\"reason\":\"oops \\\"x\\\"\\n\"}"
    );
}

fn main_device() -> EntityTopicId {
    EntityTopicId { name: "device/main//".to_string() }
}

#[test]
fn try_from_empty_payload_clears_the_command() {
    let parsed = RestartCommand::try_from(main_device(), "c1".to_string(), b"");
    assert_eq!(parsed, Ok(None));
}

#[test]
fn try_from_decodes_a_status_object() {
    let parsed =
        RestartCommand::try_from(main_device(), "c1".to_string(), b"{\"status\":\"executing\"}");
    let command = parsed.unwrap().unwrap();
    assert_eq!(command.cmd_id, "c1");
    assert_eq!(command.target.name, "device/main//");
    assert_eq!(command.payload.status, CommandStatus::Executing);

    let parsed = RestartCommand::try_from(
        main_device(),
        "c2".to_string(),
        b"{\"status\":\"failed\",\"reason\":\"no power\"}",
    );
    let command = parsed.unwrap().unwrap();
    assert_eq!(
        command.payload.status,
        CommandStatus::Failed { reason: "no power".to_string() }
    );
}

#[test]
fn try_from_rejects_malformed_payloads() {
    let target = main_device();
    assert_eq!(
        RestartCommand::try_from(target.clone(), "c1".to_string(), b"not json"),
        Err(PayloadError::Invalid)
    );
    assert_eq!(
        RestartCommand::try_from(target.clone(), "c1".to_string(), b"{\"status\":\"unknown\"}"),
        Err(PayloadError::Invalid)
    );
    assert_eq!(
        RestartCommand::try_from(target.clone(), "c1".to_string(), b"{\"status\":\"failed\"}"),
        Err(PayloadError::Invalid)
    );
    assert_eq!(
        RestartCommand::try_from(target, "c1".to_string(), b"{\"reason\":\"x\"}"),
        Err(PayloadError::Invalid)
    );
}

#[test]
fn payload_round_trip_keeps_the_status() {
    let payload = RestartCommandPayload {
        status: CommandStatus::Failed { reason: "boom".to_string() },
    };
    let bytes = payload.to_bytes();
    let command = RestartCommand::try_from(main_device(), "c9".to_string(), &bytes)
        .unwrap()
        .unwrap();
    assert_eq!(command.payload, payload);
}

#[test]
fn restart_command_builders_update_the_status() {
    let command = RestartCommand::new(main_device()).with_id("cmd-7".to_string());
    assert_eq!(command.cmd_id, "cmd-7");
    assert_eq!(command.status(), CommandStatus::Init);
    let command = command.with_status(CommandStatus::Executing);
    assert_eq!(command.status(), CommandStatus::Executing);
    let command = command.with_error("watchdog barked".to_string());
    assert_eq!(
        command.status(),
        CommandStatus::Failed { reason: "watchdog barked".to_string() }
    );
}

#[test]
fn restart_command_messages_use_the_command_topic() {
    let schema = MqttSchema::new();
    let command = RestartCommand::new(main_device()).with_id("c1".to_string());
    let message = command.command_message(&schema);
    assert_eq!(message.topic.name, "te/device/main///cmd/restart/c1");
    assert_eq!(message.payload, b"{\"status\":\"init\"}");
    assert_eq!(message.qos, QoS::AtLeastOnce);
    assert!(message.retain);

    let clearing = command.clearing_message(&schema);
    assert_eq!(clearing.topic.name, "te/device/main///cmd/restart/c1");
    assert!(clearing.payload.is_empty());
    assert!(clearing.retain);

    let capability = RestartCommand::capability_message(&schema, &main_device());
    assert_eq!(capability.topic.name, "te/device/main///cmd/restart");
    assert_eq!(capability.payload, b"{}");
    assert!(capability.retain);
}
