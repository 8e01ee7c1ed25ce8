//! Health-status messages: every service publishes its liveness on a
//! health topic derived from its identity in the topic scheme.
//!
//! Reading the process id and the wall clock is the runtime's business:
//! both arrive here as plain values, and the timestamp comes already
//! rendered as a JSON value in the topic's time format.

use vstd::prelude::*;
use vstd::string::StringSliceAdditionalSpecFns;

use crate::mqtt::Channel;
use crate::mqtt::MqttMessage;
use crate::mqtt::MqttSchema;
use crate::mqtt::QoS;
use crate::mqtt::ServiceTopicId;
use crate::mqtt::Topic;
use crate::text::dec_digits;
use crate::text::push_bytes;
use crate::text::push_dec;
use crate::text::push_text;

verus! {

/// How the timestamp of a health message is rendered: an RFC 3339 text or
/// a Unix timestamp number.
#[derive(Clone, Copy, Debug, PartialEq, Eq, Structural)]
pub enum TimeFormat {
    Rfc3339,
    Unix,
}

/// A topic on which the health status of one service is published.
#[derive(Clone, Debug, PartialEq, Eq)]
pub struct ServiceHealthTopic {
    pub topic: String,
    pub time_format: TimeFormat,
}

/// A topic that does not name a service's health channel.
#[derive(Debug)]
pub struct HealthTopicError;

/// The payload declaring a service down, with the serializer's alphabetical
/// key order.
pub open spec fn down_payload_bytes(pid: nat) -> Seq<u8> {
    "{\"pid\":".spec_bytes() + dec_digits(pid) + ",\"status\":\"down\"}".spec_bytes()
}

/// The payload declaring a service up: its process id, its status, and the
/// current time as an already-rendered JSON value.
pub open spec fn up_payload_bytes(pid: nat, time_json: Seq<u8>) -> Seq<u8> {
    "{\"pid\":".spec_bytes() + dec_digits(pid) + ",\"status\":\"up\",\"time\":".spec_bytes()
        + time_json + "}".spec_bytes()
}

impl ServiceHealthTopic {
    /// The health topic of a service under the topic scheme.
    pub fn from_new_topic(
        service_topic_id: &ServiceTopicId,
        mqtt_schema: &MqttSchema,
        time_format: TimeFormat,
    ) -> (r: ServiceHealthTopic)
        ensures
            r.topic@ == mqtt_schema.root@ + "/"@ + service_topic_id.entity.name@
                + "/status/health"@,
            r.time_format == time_format,
    {
        let health_topic = mqtt_schema.topic_for(service_topic_id.entity(), &Channel::Health);
        ServiceHealthTopic { topic: health_topic.name, time_format }
    }

    pub fn as_str(&self) -> (r: &str)
        ensures
            r@ == self.topic@,
    {
        self.topic.as_str()
    }

    /// The retained message declaring the service down.
    pub fn down_message(&self, pid: u32) -> (r: MqttMessage)
        ensures
            r.topic.name@ == self.topic@,
            r.payload@ == down_payload_bytes(pid as nat),
            r.qos == QoS::AtLeastOnce,
            r.retain,
    {
        let mut payload: Vec<u8> = Vec::new();
        push_text(&mut payload, "{\"pid\":");
        push_dec(&mut payload, pid as u64);
        push_text(&mut payload, ",\"status\":\"down\"}");
        proof {
            assert(payload@ =~= down_payload_bytes(pid as nat));
        }
        let topic = Topic::new_unchecked(self.as_str());
        MqttMessage { topic, payload, qos: QoS::AtLeastOnce, retain: true }
    }

    /// The retained message declaring the service up. The timestamp arrives
    /// already rendered in this topic's time format — a quoted string for
    /// RFC 3339, a bare number for Unix time — and is embedded as-is.
    pub fn up_message(&self, pid: u32, time_json: &Vec<u8>) -> (r: MqttMessage)
        ensures
            r.topic.name@ == self.topic@,
            r.payload@ == up_payload_bytes(pid as nat, time_json@),
            r.qos == QoS::AtLeastOnce,
            r.retain,
    {
        let mut payload: Vec<u8> = Vec::new();
        push_text(&mut payload, "{\"pid\":");
        push_dec(&mut payload, pid as u64);
        push_text(&mut payload, ",\"status\":\"up\",\"time\":");
        push_bytes(&mut payload, time_json);
        push_text(&mut payload, "}");
        proof {
            assert(payload@ =~= up_payload_bytes(pid as nat, time_json@));
        }
        let topic = Topic::new_unchecked(self.as_str());
        MqttMessage::new(&topic, payload).with_qos(QoS::AtLeastOnce).with_retain()
    }
}

} // verus!
