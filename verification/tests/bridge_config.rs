use camino::Utf8PathBuf;
use std::time::Duration;
use tedge_tb::bridge::{
    mosquitto_bridge_health_topic, AuthType, BridgeConfig, BridgeConfigTbParams, BridgeLocation,
    HostPort,
};
use tedge_tb::schema::{MqttSchema, TopicPrefix};

fn params(prefix: &str, profile: Option<&str>) -> BridgeConfigTbParams {
    BridgeConfigTbParams {
        mqtt_host: HostPort {
            host: "tb.example.com".into(),
            port: 8883,
        },
        config_file: "tb-bridge.conf".into(),
        remote_clientid: "alpha".into(),
        bridge_root_cert_path: "./test_root.pem".into(),
        bridge_certfile: "./test-certificate.pem".into(),
        bridge_keyfile: "./test-private-key.pem".into(),
        bridge_location: BridgeLocation::Mosquitto,
        topic_prefix: TopicPrefix::try_new(prefix).unwrap(),
        profile_name: profile.map(|p| p.to_string()),
        mqtt_schema: MqttSchema::with_root("te".into()),
        keepalive_interval: Duration::from_secs(60),
        proxy: None,
    }
}

fn assert_tb_bridge(bridge: &BridgeConfig, connection: &str, health: &str, topics: &[&str]) {
    assert_eq!(bridge.cloud_name, "tb");
    assert_eq!(bridge.config_file, "tb-bridge.conf");
    assert_eq!(bridge.connection, connection);
    assert_eq!(
        bridge.address,
        HostPort {
            host: "tb.example.com".into(),
            port: 8883
        }
    );
    assert_eq!(bridge.remote_username, Some("alpha".to_string()));
    assert_eq!(bridge.remote_password, None);
    assert_eq!(bridge.bridge_root_cert_path, Utf8PathBuf::from("./test_root.pem"));
    assert_eq!(bridge.remote_clientid, "alpha");
    assert_eq!(bridge.local_clientid, connection);
    assert_eq!(bridge.bridge_certfile, Utf8PathBuf::from("./test-certificate.pem"));
    assert_eq!(bridge.bridge_keyfile, Utf8PathBuf::from("./test-private-key.pem"));
    assert!(bridge.use_mapper);
    assert!(!bridge.use_agent);
    assert!(!bridge.try_private);
    assert_eq!(bridge.start_type, "automatic");
    assert!(!bridge.clean_session);
    assert!(!bridge.include_local_clean_session);
    assert!(!bridge.local_clean_session);
    assert!(bridge.notifications);
    assert!(bridge.notifications_local_only);
    assert_eq!(bridge.notification_topic, health);
    assert!(!bridge.bridge_attempt_unsubscribe);
    assert_eq!(bridge.topics, topics.iter().map(|t| t.to_string()).collect::<Vec<_>>());
    assert_eq!(bridge.bridge_location, BridgeLocation::Mosquitto);
    assert_eq!(bridge.connection_check_attempts, 2);
    assert_eq!(bridge.auth_type, AuthType::Certificate);
    assert_eq!(bridge.mosquitto_version, None);
    assert_eq!(bridge.keepalive_interval, Duration::from_secs(60));
    assert!(bridge.proxy.is_none());
}

#[test]
fn test_bridge_config_from_tb_params() {
    let bridge = BridgeConfig::from(params("tb", Some("profile")));
    assert_tb_bridge(
        &bridge,
        "edge_to_tb@profile",
        "te/device/main/service/mosquitto-tb-bridge/status/health",
        &[
            "telemetry out 1 tb/ v1/devices/me/",
            "attributes out 1 tb/ v1/devices/me/",
            "attributes in 1 tb/ v1/devices/me/",
            "rpc/request/+ in 1 tb/ v1/devices/me/",
            "rpc/response/+ out 1 tb/ v1/devices/me/",
        ],
    );
}

#[test]
fn test_bridge_config_tb_custom_topic_prefix() {
    let bridge = BridgeConfig::from(params("tb-custom", Some("profile")));
    assert_tb_bridge(
        &bridge,
        "edge_to_tb@profile",
        "te/device/main/service/mosquitto-tb-custom-bridge/status/health",
        &[
            "telemetry out 1 tb-custom/ v1/devices/me/",
            "attributes out 1 tb-custom/ v1/devices/me/",
            "attributes in 1 tb-custom/ v1/devices/me/",
            "rpc/request/+ in 1 tb-custom/ v1/devices/me/",
            "rpc/response/+ out 1 tb-custom/ v1/devices/me/",
        ],
    );
}

#[test]
fn bridge_without_profile_uses_plain_connection_name() {
    let bridge = BridgeConfig::from(params("tb", None));
    assert_eq!(bridge.connection, "edge_to_tb");
    assert_eq!(bridge.local_clientid, "edge_to_tb");
}

#[test]
fn bridge_health_topic_follows_schema_root() {
    let mut p = params("tb", None);
    p.mqtt_schema = MqttSchema::with_root("custom".into());
    let bridge = BridgeConfig::from(p);
    assert_eq!(
        bridge.notification_topic,
        "custom/device/main/service/mosquitto-tb-bridge/status/health"
    );
}

#[test]
fn bridge_keeps_the_proxy() {
    let mut p = params("tb", None);
    p.proxy = Some(rumqttc::Proxy {
        ty: rumqttc::ProxyType::Http,
        auth: rumqttc::ProxyAuth::None,
        addr: "proxy.local".into(),
        port: 3128,
    });
    let bridge = BridgeConfig::from(p);
    let proxy = bridge.proxy.expect("the proxy is kept");
    assert_eq!(proxy.0.addr, "proxy.local");
    assert_eq!(proxy.0.port, 3128);
}

#[test]
fn mosquitto_health_topic() {
    let schema = MqttSchema::with_root("te".into());
    let prefix = TopicPrefix::try_new("tb").unwrap();
    assert_eq!(
        mosquitto_bridge_health_topic(&schema, &prefix),
        "te/device/main/service/mosquitto-tb-bridge/status/health"
    );
}
