use tedge_tb::topic::{extract_device_name, map_to_prefixed_tb_topic, map_to_tb_topic};
use tedge_tb::transformer::{Message, SetTbTopic};

#[test]
fn test_main_device_measurement_topic() {
    let topic = map_to_tb_topic("te/device/main///m/temperature");
    assert_eq!(topic, Some("v1/devices/me/telemetry".to_string()));
}

#[test]
fn test_child_device_measurement_topic() {
    let topic = map_to_tb_topic("te/device/child01///m/temperature");
    assert_eq!(topic, Some("v1/gateway/telemetry".to_string()));
}

#[test]
fn test_main_device_event_topic() {
    let topic = map_to_tb_topic("te/device/main///e/login");
    assert_eq!(topic, Some("v1/devices/me/telemetry".to_string()));
}

#[test]
fn test_main_device_alarm_topic() {
    let topic = map_to_tb_topic("te/device/main///a/high_temp");
    assert_eq!(topic, Some("v1/devices/me/telemetry".to_string()));
}

#[test]
fn test_main_device_twin_topic() {
    let topic = map_to_tb_topic("te/device/main///twin/my_attribute");
    assert_eq!(topic, Some("v1/devices/me/attributes".to_string()));
}

#[test]
fn test_child_device_twin_topic() {
    let topic = map_to_tb_topic("te/device/child01///twin/my_attribute");
    assert_eq!(topic, Some("v1/gateway/attributes".to_string()));
}

#[test]
fn test_main_device_health_topic() {
    let topic = map_to_tb_topic("te/device/main///status/health");
    assert_eq!(topic, Some("v1/devices/me/telemetry".to_string()));
}

#[test]
fn test_unknown_topic_returns_none() {
    let topic = map_to_tb_topic("te/device/main///cmd/restart");
    assert_eq!(topic, None);
}

#[test]
fn test_extract_device_name() {
    assert_eq!(extract_device_name("te/device/child01///m/temp"), "child01");
    assert_eq!(extract_device_name("te/device/main///m/temp"), "main");
}

#[test]
fn child_device_events_alarms_and_health_go_to_gateway_telemetry() {
    for topic in [
        "te/device/child01///e/login",
        "te/device/child01///a/high_temp",
        "te/device/child01///status/health",
    ] {
        assert_eq!(map_to_tb_topic(topic), Some("v1/gateway/telemetry".to_string()));
    }
}

#[test]
fn topics_of_other_shapes_are_not_forwarded() {
    assert_eq!(map_to_tb_topic(""), None);
    assert_eq!(map_to_tb_topic("te/device/main///m"), None);
    assert_eq!(map_to_tb_topic("te/device/main///m/temp/extra"), None);
    assert_eq!(map_to_tb_topic("te/thing/main///m/temp"), None);
    assert_eq!(map_to_tb_topic("te/device/main///status/other"), None);
}

#[test]
fn any_root_is_accepted() {
    assert_eq!(
        map_to_tb_topic("custom/device/main///m/temp"),
        Some("v1/devices/me/telemetry".to_string())
    );
}

#[test]
fn device_name_of_short_topics_is_main() {
    assert_eq!(extract_device_name("te/device"), "main");
    assert_eq!(extract_device_name(""), "main");
    assert_eq!(extract_device_name("a/b/"), "");
    assert_eq!(extract_device_name("a/b/c"), "c");
}

#[test]
fn gateway_routing_follows_device_name() {
    for topic in [
        "te/device/main///m/t",
        "te/device/child01///m/t",
        "te/device/main///twin/x",
        "te/device/other///twin/x",
    ] {
        let target = map_to_tb_topic(topic).unwrap();
        let is_main = extract_device_name(topic) == "main";
        assert_eq!(target.starts_with("v1/devices/me/"), is_main);
        assert_eq!(target.starts_with("v1/gateway/"), !is_main);
    }
}

#[test]
fn set_tb_topic_forwards_under_prefix_with_same_payload() {
    let mut step = SetTbTopic::default();
    assert_eq!(step.name(), "set-tb-topic");
    step.set_config(None);
    let message = Message::new("te/device/child01///m/temp".to_string(), b"{\"t\":1}".to_vec());
    let out = step.on_message(&message);
    assert_eq!(out.len(), 1);
    assert_eq!(out[0].topic, "tb/v1/gateway/telemetry");
    assert_eq!(out[0].payload, b"{\"t\":1}".to_vec());

    let main = Message::new("te/device/main///m/temp".to_string(), b"1".to_vec());
    assert_eq!(step.on_message(&main)[0].topic, "tb/telemetry");
    let twin = Message::new("te/device/main///twin/x".to_string(), b"1".to_vec());
    assert_eq!(step.on_message(&twin)[0].topic, "tb/attributes");
    let health = Message::new("te/device/main///status/health".to_string(), b"1".to_vec());
    assert!(step.on_message(&health).is_empty());
    let child_health = Message::new("te/device/child01///status/health".to_string(), b"1".to_vec());
    assert!(step.on_message(&child_health).is_empty());

    step.set_config(Some("custom"));
    let child_twin = Message::new("te/device/child01///twin/x".to_string(), b"1".to_vec());
    assert_eq!(step.on_message(&child_twin)[0].topic, "custom/v1/gateway/attributes");
}

#[test]
fn prefixed_topics() {
    assert_eq!(
        map_to_prefixed_tb_topic("tb", "te/device/main///e/login"),
        Some("tb/telemetry".to_string())
    );
    assert_eq!(
        map_to_prefixed_tb_topic("tb", "te/device/child01///a/high"),
        Some("tb/v1/gateway/telemetry".to_string())
    );
    assert_eq!(map_to_prefixed_tb_topic("tb", "te/device/main///cmd/restart"), None);
    assert_eq!(map_to_prefixed_tb_topic("tb", "te/device/main///status/health"), None);
}

#[test]
fn set_tb_topic_drops_unknown_topics() {
    let mut step = SetTbTopic::default();
    let message = Message::new("te/device/main///cmd/restart".to_string(), b"x".to_vec());
    assert!(step.on_message(&message).is_empty());
}

#[test]
fn set_tb_topic_prefix_defaults_to_tb() {
    let mut step = SetTbTopic::default();
    assert_eq!(step.prefix(), "");
    step.set_config(None);
    assert_eq!(step.prefix(), "tb");
    step.set_config(Some("custom"));
    assert_eq!(step.prefix(), "custom");
}
