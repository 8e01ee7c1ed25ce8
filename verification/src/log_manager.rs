//! Decisions of the log-manager builder: how the plugin configuration is
//! initialized on disk, and what the actor watches and subscribes to. The
//! file operations themselves stay with the runtime.

use vstd::prelude::*;
use vstd::string::StringExecFns;

verus! {

/// What the log manager needs to know about its installation.
#[derive(Clone, Debug, PartialEq, Eq)]
pub struct LogManagerConfig {
    pub config_dir: String,
    pub plugin_config_dir: String,
    pub plugin_config_path: String,
    pub logfile_request_topic: String,
}

/// How the plugin configuration is set up at start.
#[derive(Clone, Copy, Debug, PartialEq, Eq, Structural)]
pub enum InitAction {
    /// The configuration file is already in place: nothing to do.
    Keep,
    /// Create the configuration directory, then move the legacy file over.
    MoveLegacyConfig,
    /// Create the configuration directory, then write the example
    /// configuration.
    CreateExampleConfig,
}

/// What initializing the plugin configuration amounts to, given which of
/// the two candidate files exist.
pub fn init_action(plugin_config_exists: bool, legacy_config_exists: bool) -> (r: InitAction)
    ensures
        plugin_config_exists ==> r == InitAction::Keep,
        !plugin_config_exists && legacy_config_exists ==> r == InitAction::MoveLegacyConfig,
        !plugin_config_exists && !legacy_config_exists ==> r == InitAction::CreateExampleConfig,
{
    if plugin_config_exists {
        InitAction::Keep
    } else if legacy_config_exists {
        InitAction::MoveLegacyConfig
    } else {
        InitAction::CreateExampleConfig
    }
}

/// The example configuration written when none is found.
pub fn default_plugin_config() -> (r: &'static str)
    ensures
        r@ ==
            "# Add the list of log files that should be managed\nfiles = [\n#    { type = \"mosquitto\", path = '/var/log/mosquitto/mosquitto.log' },\n#    { type = \"software-management\", path = '/var/log/tedge/agent/software-*' },\n#    { type = \"c8y_CustomOperation\", path = '/var/log/tedge/agent/c8y_CustomOperation/*' }\n]"@,
{
    "# Add the list of log files that should be managed\nfiles = [\n#    { type = \"mosquitto\", path = '/var/log/mosquitto/mosquitto.log' },\n#    { type = \"software-management\", path = '/var/log/tedge/agent/software-*' },\n#    { type = \"c8y_CustomOperation\", path = '/var/log/tedge/agent/c8y_CustomOperation/*' }\n]"
}

/// Where the legacy plugin configuration would live.
pub fn legacy_plugin_config_path(config: &LogManagerConfig) -> (r: String)
    ensures
        r@ == config.config_dir@ + "/c8y/c8y-log-plugin.toml"@,
{
    let mut path = config.config_dir.clone();
    path.append("/c8y/c8y-log-plugin.toml");
    path
}

/// The MQTT topic filter the log actor subscribes to.
pub fn subscriptions(config: &LogManagerConfig) -> (r: String)
    ensures
        r == config.logfile_request_topic,
{
    config.logfile_request_topic.clone()
}

/// The directory the log actor watches for configuration changes.
pub fn watched_directory(config: &LogManagerConfig) -> (r: String)
    ensures
        r == config.plugin_config_dir,
{
    config.plugin_config_dir.clone()
}

} // verus!
