use tedge_tb::converter::{TbConverter, TimeFormat};
use tedge_tb::schema::{Channel, EntityTopicId, InvalidTopicPrefix, MqttSchema, TopicIdError, TopicPrefix};
use tedge_tb::text::usize_to_decimal;

#[test]
fn topic_prefix_validation() {
    assert_eq!(TopicPrefix::try_new("tb").unwrap().as_str(), "tb");
    assert_eq!(TopicPrefix::try_new("tb-custom").unwrap().as_str(), "tb-custom");
    assert_eq!(TopicPrefix::try_new("").err(), Some(InvalidTopicPrefix::Empty));
    assert_eq!(TopicPrefix::try_new("a/b").err(), Some(InvalidTopicPrefix::InvalidCharacter));
    assert_eq!(TopicPrefix::try_new("a+").err(), Some(InvalidTopicPrefix::InvalidCharacter));
    assert_eq!(TopicPrefix::try_new("#").err(), Some(InvalidTopicPrefix::InvalidCharacter));
}

#[test]
fn schema_topics() {
    let schema = MqttSchema::with_root("te".into());
    assert_eq!(schema.error_topic().name, "te/errors");
    let service = EntityTopicId::default_main_service("mosquitto-tb-bridge").unwrap();
    assert_eq!(service.as_str(), "device/main/service/mosquitto-tb-bridge");
    assert_eq!(
        schema.topic_for(&service, &Channel::Health).name,
        "te/device/main/service/mosquitto-tb-bridge/status/health"
    );
    assert_eq!(
        EntityTopicId::default_main_service("a/b").err(),
        Some(TopicIdError::TooLong)
    );
}

#[test]
fn decimal_rendering() {
    assert_eq!(usize_to_decimal(0), "0");
    assert_eq!(usize_to_decimal(7), "7");
    assert_eq!(usize_to_decimal(10), "10");
    assert_eq!(usize_to_decimal(65536), "65536");
    assert_eq!(usize_to_decimal(usize::MAX), usize::MAX.to_string());
}

fn converter(add_timestamp: bool) -> TbConverter {
    TbConverter::new(
        add_timestamp,
        &MqttSchema::with_root("te".into()),
        TimeFormat::Unix,
        TopicPrefix::try_new("tb").unwrap(),
        65536,
        "[\"te/+/+/+/+/m/+\"]".to_string(),
    )
}

#[test]
fn builtin_flow_without_timestamp() {
    let flow = converter(false).builtin_flow();
    let expected = r#"
input.mqtt.topics = ["te/+/+/+/+/m/+"]

steps = [
    { builtin = "skip-mosquitto-health-status" },
    
    { builtin = "limit-payload-size", config = { max_size = 65536 } },
    { builtin = "set-tb-topic", config = { prefix = "tb" } },
]

errors.mqtt.topic = "te/errors"
"#;
    assert_eq!(flow, expected);
}

#[test]
fn builtin_flow_with_timestamp() {
    let flow = converter(true).builtin_flow();
    let expected = r#"
input.mqtt.topics = ["te/+/+/+/+/m/+"]

steps = [
    { builtin = "skip-mosquitto-health-status" },
    { builtin = "add-timestamp", config = { format = "unix" } },
    { builtin = "limit-payload-size", config = { max_size = 65536 } },
    { builtin = "set-tb-topic", config = { prefix = "tb" } },
]

errors.mqtt.topic = "te/errors"
"#;
    assert_eq!(flow, expected);
    assert_eq!(converter(true).builtin_flow_name(), "tb_builtin");
}

#[test]
fn rfc3339_time_format_name() {
    assert_eq!(TimeFormat::Rfc3339.name(), "rfc3339");
    assert_eq!(TimeFormat::Unix.name(), "unix");
}
