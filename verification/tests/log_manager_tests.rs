use tedge_actors::log_manager::default_plugin_config;
use tedge_actors::log_manager::init_action;
use tedge_actors::log_manager::legacy_plugin_config_path;
use tedge_actors::log_manager::subscriptions;
use tedge_actors::log_manager::watched_directory;
use tedge_actors::log_manager::InitAction;
use tedge_actors::log_manager::LogManagerConfig;

fn config() -> LogManagerConfig {
    LogManagerConfig {
        config_dir: "/etc/tedge".to_string(),
        plugin_config_dir: "/etc/tedge/plugins".to_string(),
        plugin_config_path: "/etc/tedge/plugins/tedge-log-plugin.toml".to_string(),
        logfile_request_topic: "te/device/main///cmd/log_upload/+".to_string(),
    }
}

#[test]
fn existing_configuration_is_kept() {
    assert_eq!(init_action(true, false), InitAction::Keep);
    assert_eq!(init_action(true, true), InitAction::Keep);
}

#[test]
fn legacy_configuration_is_moved_over() {
    assert_eq!(init_action(false, true), InitAction::MoveLegacyConfig);
}

#[test]
fn example_configuration_is_created_otherwise() {
    assert_eq!(init_action(false, false), InitAction::CreateExampleConfig);
    let example = default_plugin_config();
    assert!(example.starts_with("# Add the list of log files"));
    assert!(example.contains("files = ["));
}

#[test]
fn legacy_path_lives_under_the_config_dir() {
    assert_eq!(
        legacy_plugin_config_path(&config()),
        "/etc/tedge/c8y/c8y-log-plugin.toml"
    );
}

#[test]
fn actor_wiring_reads_the_configuration() {
    let config = config();
    assert_eq!(subscriptions(&config), "te/device/main///cmd/log_upload/+");
    assert_eq!(watched_directory(&config), "/etc/tedge/plugins");
}
