//! A plain model of the MQTT surface the message types talk to: topics,
//! messages, entity identifiers and the topic scheme. The broker connection
//! itself lives outside the crate; these types carry exactly what the
//! payload logic reads and builds.

use vstd::prelude::*;
use vstd::string::StringExecFns;

verus! {

/// MQTT quality of service.
#[derive(Clone, Copy, Debug, PartialEq, Eq, Structural)]
pub enum QoS {
    AtMostOnce,
    AtLeastOnce,
    ExactlyOnce,
}

/// An MQTT topic name.
#[derive(Clone, Debug, PartialEq, Eq)]
pub struct Topic {
    pub name: String,
}

impl Topic {
    /// Wrap a topic name without validating it against the broker's rules.
    pub fn new_unchecked(name: &str) -> (r: Topic)
        ensures
            r.name@ == name@,
    {
        Topic { name: String::from_str(name) }
    }
}

/// An MQTT message: a topic, a raw payload, and delivery flags.
#[derive(Clone, Debug, PartialEq, Eq)]
pub struct MqttMessage {
    pub topic: Topic,
    pub payload: Vec<u8>,
    pub qos: QoS,
    pub retain: bool,
}

impl MqttMessage {
    /// A message with the default delivery flags.
    pub fn new(topic: &Topic, payload: Vec<u8>) -> (r: MqttMessage)
        ensures
            r.topic.name@ == topic.name@,
            r.payload@ == payload@,
            r.qos == QoS::AtLeastOnce,
            r.retain == false,
    {
        MqttMessage {
            topic: Topic { name: topic.name.clone() },
            payload,
            qos: QoS::AtLeastOnce,
            retain: false,
        }
    }

    pub fn with_qos(self, qos: QoS) -> (r: MqttMessage)
        ensures
            r == (MqttMessage { qos, ..self }),
    {
        MqttMessage { qos, ..self }
    }

    pub fn with_retain(self) -> (r: MqttMessage)
        ensures
            r == (MqttMessage { retain: true, ..self }),
    {
        MqttMessage { retain: true, ..self }
    }
}

/// Identifies an entity (a device or a service) in the topic scheme, e.g.
/// `device/main//`.
#[derive(Clone, Debug, PartialEq, Eq)]
pub struct EntityTopicId {
    pub name: String,
}

impl EntityTopicId {
    /// The main device of this installation.
    pub fn default_main_device() -> (r: EntityTopicId)
        ensures
            r.name@ == "device/main//"@,
    {
        EntityTopicId { name: String::from_str("device/main//") }
    }
}

/// Identifies a service in the topic scheme, by the entity it runs as.
#[derive(Clone, Debug, PartialEq, Eq)]
pub struct ServiceTopicId {
    pub entity: EntityTopicId,
}

impl ServiceTopicId {
    pub fn new(entity: EntityTopicId) -> (r: ServiceTopicId)
        ensures
            r.entity == entity,
    {
        ServiceTopicId { entity }
    }

    pub fn entity(&self) -> (r: &EntityTopicId)
        ensures
            *r == self.entity,
    {
        &self.entity
    }
}

/// The operations a command topic can carry.
#[derive(Clone, Copy, Debug, PartialEq, Eq, Structural)]
pub enum OperationType {
    Restart,
    SoftwareList,
    SoftwareUpdate,
    LogUpload,
    ConfigSnapshot,
    ConfigUpdate,
}

impl OperationType {
    /// The operation's name as it appears in topic names.
    pub open spec fn text(self) -> Seq<char> {
        match self {
            OperationType::Restart => "restart"@,
            OperationType::SoftwareList => "software_list"@,
            OperationType::SoftwareUpdate => "software_update"@,
            OperationType::LogUpload => "log_upload"@,
            OperationType::ConfigSnapshot => "config_snapshot"@,
            OperationType::ConfigUpdate => "config_update"@,
        }
    }

    pub fn as_str(&self) -> (r: &'static str)
        ensures
            r@ == self.text(),
    {
        match self {
            OperationType::Restart => "restart",
            OperationType::SoftwareList => "software_list",
            OperationType::SoftwareUpdate => "software_update",
            OperationType::LogUpload => "log_upload",
            OperationType::ConfigSnapshot => "config_snapshot",
            OperationType::ConfigUpdate => "config_update",
        }
    }
}

/// The kind of channel under an entity's topic prefix.
#[derive(Clone, Debug, PartialEq, Eq)]
pub enum Channel {
    /// The health-status channel of a service.
    Health,
    /// One running command, keyed by its identifier.
    Command { operation: OperationType, cmd_id: String },
    /// The capability registration of a command type.
    CommandMetadata { operation: OperationType },
}

/// The suffix a channel contributes to its entity's topic name.
pub open spec fn channel_suffix(channel: Channel) -> Seq<char> {
    match channel {
        Channel::Health => "/status/health"@,
        Channel::Command { operation, cmd_id } => "/cmd/"@ + operation.text() + "/"@ + cmd_id@,
        Channel::CommandMetadata { operation } => "/cmd/"@ + operation.text(),
    }
}

/// The topic scheme: a fixed root under which every entity has its topics.
#[derive(Clone, Debug, PartialEq, Eq)]
pub struct MqttSchema {
    pub root: String,
}

impl MqttSchema {
    /// The default scheme root.
    pub fn new() -> (r: MqttSchema)
        ensures
            r.root@ == "te"@,
    {
        MqttSchema { root: String::from_str("te") }
    }

    /// The topic an entity's channel lives on:
    /// `<root>/<entity>` followed by the channel's suffix.
    pub fn topic_for(&self, entity: &EntityTopicId, channel: &Channel) -> (r: Topic)
        ensures
            r.name@ == self.root@ + "/"@ + entity.name@ + channel_suffix(*channel),
    {
        let mut name = self.root.clone();
        name.append("/");
        name.append(entity.name.as_str());
        match channel {
            Channel::Health => {
                name.append("/status/health");
            },
            Channel::Command { operation, cmd_id } => {
                name.append("/cmd/");
                name.append(operation.as_str());
                name.append("/");
                name.append(cmd_id.as_str());
            },
            Channel::CommandMetadata { operation } => {
                name.append("/cmd/");
                name.append(operation.as_str());
            },
        }
        proof {
            assert(name@ =~= self.root@ + "/"@ + entity.name@ + channel_suffix(*channel));
        }
        Topic { name }
    }
}

} // verus!
