use serde_json::Value;
use tedge_actors::mqtt::EntityTopicId;
use tedge_actors::mqtt::MqttSchema;
use tedge_actors::mqtt::ServiceTopicId;
use tedge_actors::health::ServiceHealthTopic;
use tedge_actors::health::TimeFormat;
use time::format_description::well_known::Rfc3339;
use time::OffsetDateTime;

fn test_topic(time_format: TimeFormat) -> ServiceHealthTopic {
    ServiceHealthTopic {
        topic: "te/device/main/service/test_daemon/status/health".to_string(),
        time_format,
    }
}

#[test]
fn is_rfc3339_timestamp() {
    let health_topic = test_topic(TimeFormat::Rfc3339);
    // The runtime reads the wall clock and renders it in the topic's time
    // format; a sub-second fraction is always kept.
    let now = OffsetDateTime::now_utc().replace_nanosecond(123_456_789).unwrap();
    let time_json = format!("\"{}\"", now.format(&Rfc3339).unwrap()).into_bytes();
    let msg = health_topic.up_message(12345, &time_json);

    let health_msg_str = String::from_utf8(msg.payload.clone()).unwrap();
    let deserialized_value: Value =
        serde_json::from_str(&health_msg_str).expect("Failed to parse JSON");
    let timestamp = deserialized_value.get("time").unwrap().as_str().unwrap();
    // The RFC3339 format pattern
    let pattern = r"^\d{4}-\d{2}-\d{2}T\d{2}:\d{2}:\d{2}\.\d{0,}Z$";

    // Use regex to check if the timestamp matches the pattern
    let regex = regex::Regex::new(pattern).unwrap();
    assert!(regex.is_match(timestamp));
}

#[test]
fn is_unix_timestamp() {
    let health_topic = test_topic(TimeFormat::Unix);
    let now = OffsetDateTime::now_utc();
    let time_json = now.unix_timestamp().to_string().into_bytes();
    let msg = health_topic.up_message(12345, &time_json);

    let health_msg_str = String::from_utf8(msg.payload.clone()).unwrap();
    let deserialized_value: Value =
        serde_json::from_str(&health_msg_str).expect("Failed to parse JSON");
    let timestamp = deserialized_value.get("time").unwrap();

    assert!(matches!(timestamp, Value::Number(..)));
}

#[test]
fn down_message_has_the_exact_payload() {
    let health_topic = test_topic(TimeFormat::Rfc3339);
    let msg = health_topic.down_message(4711);
    assert_eq!(msg.topic.name, "te/device/main/service/test_daemon/status/health");
    assert_eq!(
        String::from_utf8(msg.payload.clone()).unwrap(),
        "{\"pid\":4711,\"status\":\"down\"}"
    );
    assert!(msg.retain);
}

#[test]
fn up_message_reports_status_and_pid() {
    let health_topic = test_topic(TimeFormat::Unix);
    let msg = health_topic.up_message(1, b"1700000000".to_vec().as_ref());
    let value: Value = serde_json::from_slice(&msg.payload).unwrap();
    assert_eq!(value.get("status").unwrap(), "up");
    assert_eq!(value.get("pid").unwrap(), 1);
}

#[test]
fn health_topic_follows_the_topic_scheme() {
    let schema = MqttSchema::new();
    let service = ServiceTopicId::new(EntityTopicId {
        name: "device/main/service/tedge-agent".to_string(),
    });
    let topic = ServiceHealthTopic::from_new_topic(&service, &schema, TimeFormat::Rfc3339);
    assert_eq!(topic.as_str(), "te/device/main/service/tedge-agent/status/health");
}
