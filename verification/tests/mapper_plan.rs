use std::time::Duration;
use tedge_tb::converter::TimeFormat;
use tedge_tb::mapper::{built_in_bridge_rules, input_topics, Direction, MapperError, MapperSettings, TbMapper};
use tedge_tb::schema::{EntityTopicId, TopicPrefix};

const DEFAULT_TOPICS: &str = r#"["te/+/+/+/+/m/+", "te/+/+/+/+/e/+", "te/+/+/+/+/a/+", "te/+/+/+/+/twin/+", "te/+/+/+/+/status/health"]"#;

#[test]
fn bridge_rules_are_valid() {
    built_in_bridge_rules(&TopicPrefix::try_new("tb").unwrap());
}

#[test]
fn built_in_bridge_rules_content() {
    let rules = built_in_bridge_rules(&TopicPrefix::try_new("tb").unwrap()).rules;
    let expected = [
        (Direction::FromLocal, "v1/devices/me/telemetry"),
        (Direction::FromLocal, "v1/devices/me/attributes"),
        (Direction::FromRemote, "v1/devices/me/attributes"),
        (Direction::FromRemote, "v1/devices/me/rpc/request/+"),
        (Direction::FromLocal, "v1/devices/me/rpc/response/+"),
        (Direction::FromLocal, "v1/gateway/telemetry"),
        (Direction::FromLocal, "v1/gateway/attributes"),
        (Direction::FromLocal, "v1/gateway/connect"),
        (Direction::FromLocal, "v1/gateway/disconnect"),
    ];
    assert_eq!(rules.len(), expected.len());
    for (rule, (direction, topic)) in rules.iter().zip(expected.iter()) {
        assert_eq!(rule.direction, *direction);
        assert_eq!(rule.topic, *topic);
        assert_eq!(rule.local_prefix, "tb/");
        assert_eq!(rule.remote_prefix, "");
    }
}

#[test]
fn input_topics_default_when_unset() {
    assert_eq!(input_topics(String::new()), DEFAULT_TOPICS);
    assert_eq!(input_topics("[]".to_string()), DEFAULT_TOPICS);
    assert_eq!(input_topics("[\"te/#\"]".to_string()), "[\"te/#\"]");
}

fn settings(built_in: bool, device_id: Option<&str>, url: Option<&str>) -> MapperSettings {
    MapperSettings {
        topic_prefix: TopicPrefix::try_new("tb").unwrap(),
        topic_root: "te".into(),
        device_topic_id: EntityTopicId::default_main_device(),
        built_in_bridge: built_in,
        device_id: device_id.map(|s| s.to_string()),
        url: url.map(|s| s.to_string()),
        keepalive_interval: Duration::from_secs(60),
        configured_topics: String::new(),
        add_timestamp: true,
        time_format: TimeFormat::Rfc3339,
        max_payload_size: 1024,
    }
}

#[test]
fn mapper_plan_with_built_in_bridge() {
    let mapper = TbMapper { profile: None };
    let plan = mapper
        .plan(settings(true, Some("dev1"), Some("tb.example.com")))
        .ok()
        .unwrap();
    assert_eq!(plan.mapper_name, "tedge-mapper-tb");
    let bridge = plan.bridge.unwrap();
    assert_eq!(bridge.bridge_name, "tb-bridge-tb");
    assert_eq!(
        bridge.health_topic.as_deref(),
        Some("te/device/main/service/tb-bridge-tb/status/health")
    );
    assert_eq!(bridge.client_id, "dev1");
    assert_eq!(bridge.host, "tb.example.com");
    assert_eq!(bridge.port, 8883);
    assert!(!bridge.clean_session);
    assert_eq!(bridge.keepalive_interval, Duration::from_secs(60));
    assert_eq!(bridge.rules.rules.len(), 9);
    let flow = plan.converter.builtin_flow();
    assert!(flow.contains(DEFAULT_TOPICS));
    assert!(flow.contains("format = \"rfc3339\""));
    assert!(flow.contains("max_size = 1024"));
}

#[test]
fn mapper_plan_without_built_in_bridge() {
    let mapper = TbMapper { profile: Some("p".into()) };
    let plan = mapper.plan(settings(false, None, None)).ok().unwrap();
    assert!(plan.bridge.is_none());
    assert_eq!(plan.mapper_name, "tedge-mapper-tb");
}

#[test]
fn mapper_plan_errors() {
    let mapper = TbMapper { profile: None };
    assert_eq!(
        mapper.plan(settings(true, None, Some("h"))).err(),
        Some(MapperError::DeviceIdNotSet)
    );
    assert_eq!(
        mapper.plan(settings(true, Some("d"), None)).err(),
        Some(MapperError::UrlNotSet)
    );
}

#[test]
fn built_in_bridge_health_topic_of_child_and_custom_devices() {
    let mapper = TbMapper { profile: None };
    let mut s = settings(true, Some("d"), Some("h"));
    s.device_topic_id = EntityTopicId::default_child_device("child01").ok().unwrap();
    let plan = mapper.plan(s).ok().unwrap();
    assert_eq!(
        plan.bridge.unwrap().health_topic.as_deref(),
        Some("te/device/child01/service/tb-bridge-tb/status/health")
    );
    let mut s = settings(true, Some("d"), Some("h"));
    s.device_topic_id = EntityTopicId::default_main_service("x").ok().unwrap();
    let plan = mapper.plan(s).ok().unwrap();
    assert!(plan.bridge.unwrap().health_topic.is_none());
}
