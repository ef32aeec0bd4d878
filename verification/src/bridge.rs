//! The mosquitto bridge configuration for a ThingsBoard connection.
use vstd::prelude::*;

use crate::schema::{
    entity_channel_topic, has_char, main_service_id, valid_topic_prefix, Channel, EntityTopicId,
    MqttSchema, TopicPrefix,
};

verus! {

/// A UTF-8 file system path (`camino::Utf8PathBuf`), carried unchanged
/// from the bridge parameters into the bridge configuration.
#[verifier::external_type_specification]
#[verifier::external_body]
pub struct ExUtf8PathBuf(camino::Utf8PathBuf);

/// The HTTP proxy through which a bridge connects (`rumqttc::Proxy`),
/// carried unchanged from the bridge parameters into the bridge
/// configuration.
#[verifier::external_type_specification]
#[verifier::external_body]
pub struct ExProxy(rumqttc::Proxy);

/// A host and the port to reach it on.
#[derive(Debug, Clone, PartialEq, Eq)]
pub struct HostPort {
    pub host: String,
    pub port: u16,
}

/// Where a bridge runs: in mosquitto, or built into the mapper.
#[derive(Debug, Clone, Copy, PartialEq, Eq)]
pub enum BridgeLocation {
    Mosquitto,
    BuiltIn,
}

/// How a bridge authenticates to the cloud.
#[derive(Debug, Clone, Copy, PartialEq, Eq)]
pub enum AuthType {
    Certificate,
    Password,
}

/// The proxy of a bridge configuration.
pub struct ProxyWrapper(pub rumqttc::Proxy);

/// What the ThingsBoard bridge is built from.
pub struct BridgeConfigTbParams {
    pub mqtt_host: HostPort,
    pub config_file: String,
    pub remote_clientid: String,
    pub bridge_root_cert_path: camino::Utf8PathBuf,
    pub bridge_certfile: camino::Utf8PathBuf,
    pub bridge_keyfile: camino::Utf8PathBuf,
    pub bridge_location: BridgeLocation,
    pub topic_prefix: TopicPrefix,
    pub profile_name: Option<String>,
    pub mqtt_schema: MqttSchema,
    pub keepalive_interval: std::time::Duration,
    pub proxy: Option<rumqttc::Proxy>,
}

/// The configuration of a mosquitto bridge to a cloud.
pub struct BridgeConfig {
    pub cloud_name: String,
    pub config_file: String,
    pub connection: String,
    pub address: HostPort,
    pub remote_username: Option<String>,
    pub remote_password: Option<String>,
    pub bridge_root_cert_path: camino::Utf8PathBuf,
    pub remote_clientid: String,
    pub local_clientid: String,
    pub bridge_certfile: camino::Utf8PathBuf,
    pub bridge_keyfile: camino::Utf8PathBuf,
    pub use_mapper: bool,
    pub use_agent: bool,
    pub try_private: bool,
    pub start_type: String,
    pub clean_session: bool,
    pub include_local_clean_session: bool,
    pub local_clean_session: bool,
    pub notifications: bool,
    pub notifications_local_only: bool,
    pub notification_topic: String,
    pub bridge_attempt_unsubscribe: bool,
    pub topics: Vec<String>,
    pub bridge_location: BridgeLocation,
    pub connection_check_attempts: i32,
    pub auth_type: AuthType,
    pub mosquitto_version: Option<String>,
    pub keepalive_interval: std::time::Duration,
    pub proxy: Option<ProxyWrapper>,
}

/// The name of the ThingsBoard bridge connection, which is also its local
/// client id: `edge_to_tb`, qualified by the profile when there is one.
pub open spec fn tb_connection_name(profile: Option<Seq<char>>) -> Seq<char> {
    match profile {
        Some(p) => "edge_to_tb@"@ + p,
        None => "edge_to_tb"@,
    }
}

/// The mosquitto topic directive bridging `pattern` in the direction
/// `dir` between `<prefix>/` locally and `v1/devices/me/` remotely.
pub open spec fn tb_topic_directive(pattern: Seq<char>, dir: Seq<char>, prefix: Seq<char>) -> Seq<
    char,
> {
    pattern + " "@ + dir + " 1 "@ + prefix + "/ v1/devices/me/"@
}

/// The topics bridged to ThingsBoard: telemetry and attributes out,
/// attributes and RPC requests in, RPC responses out.
pub open spec fn tb_bridge_topics(prefix: Seq<char>) -> Seq<Seq<char>> {
    seq![
        tb_topic_directive("telemetry"@, "out"@, prefix),
        tb_topic_directive("attributes"@, "out"@, prefix),
        tb_topic_directive("attributes"@, "in"@, prefix),
        tb_topic_directive("rpc/request/+"@, "in"@, prefix),
        tb_topic_directive("rpc/response/+"@, "out"@, prefix),
    ]
}

/// The name of the mosquitto bridge service for a prefix.
pub open spec fn tb_bridge_service_name(prefix: Seq<char>) -> Seq<char> {
    "mosquitto-"@ + prefix + "-bridge"@
}

/// The topic on which the bridge reports its health.
pub open spec fn tb_bridge_health_topic(root: Seq<char>, prefix: Seq<char>) -> Seq<char> {
    entity_channel_topic(root, main_service_id(tb_bridge_service_name(prefix)), Channel::Health)
}

/// The views of a list of strings.
pub open spec fn strings_view(v: Seq<String>) -> Seq<Seq<char>> {
    v.map_values(|s: String| s@)
}

/// The proxy of the bridge configuration built from `proxy`.
pub open spec fn wrap_proxy(proxy: Option<rumqttc::Proxy>) -> Option<ProxyWrapper> {
    match proxy {
        Some(p) => Some(ProxyWrapper(p)),
        None => None,
    }
}

/// `"<pattern> <dir> 1 <prefix>/ v1/devices/me/"`.
fn topic_directive(pattern: &str, dir: &str, prefix: &str) -> (res: String)
    ensures
        res@ == tb_topic_directive(pattern@, dir@, prefix@),
{
    pattern.to_owned().concat(" ").concat(dir).concat(" 1 ").concat(prefix).concat(
        "/ v1/devices/me/",
    )
}

/// `has_char` distributes over concatenation.
pub proof fn lemma_has_char_concat(a: Seq<char>, b: Seq<char>, c: char)
    ensures
        has_char(a + b, c) <==> has_char(a, c) || has_char(b, c),
{
    if has_char(a + b, c) {
        let i = choose|i: int| 0 <= i < (a + b).len() && (a + b)[i] == c;
        if i >= a.len() {
            assert(b[i - a.len()] == c);
        }
    }
    if has_char(a, c) {
        let i = choose|i: int| 0 <= i < a.len() && a[i] == c;
        assert((a + b)[i] == c);
    }
    if has_char(b, c) {
        let i = choose|i: int| 0 <= i < b.len() && b[i] == c;
        assert((a + b)[a.len() + i] == c);
    }
}

/// The topic on which the mosquitto bridge to ThingsBoard with the topic
/// prefix `topic_prefix` reports its health: the health channel of the
/// main device's `mosquitto-<prefix>-bridge` service.
pub fn mosquitto_bridge_health_topic(mqtt_schema: &MqttSchema, topic_prefix: &TopicPrefix) -> (res:
    String)
    ensures
        res@ == tb_bridge_health_topic(mqtt_schema.root@, topic_prefix@),
{
    let prefix = topic_prefix.as_str();
    let service_name = "mosquitto-".to_owned().concat(prefix).concat("-bridge");
    proof {
        reveal_strlit("mosquitto-");
        reveal_strlit("-bridge");
        lemma_has_char_concat("mosquitto-"@, prefix@, '/');
        lemma_has_char_concat("mosquitto-"@ + prefix@, "-bridge"@, '/');
        assert(valid_topic_prefix(prefix@));
    }
    let service = EntityTopicId::default_main_service(service_name.as_str()).unwrap();
    mqtt_schema.topic_for(&service, &Channel::Health).name
}

impl BridgeConfig {
    /// The bridge configuration of a ThingsBoard connection.
    ///
    /// The bridge authenticates with the device certificate, uses the
    /// remote client id as user name, keeps its sessions (no clean
    /// session), reports its health on the health topic of the
    /// `mosquitto-<prefix>-bridge` service, and bridges telemetry,
    /// attributes and RPC between `<prefix>/` and `v1/devices/me/`.
    pub fn from(params: BridgeConfigTbParams) -> (res: BridgeConfig)
        ensures
            res.cloud_name@ == "tb"@,
            res.config_file@ == params.config_file@,
            res.connection@ == tb_connection_name(params.profile_name.deep_view()),
            res.address == params.mqtt_host,
            res.remote_username.deep_view() == Some(params.remote_clientid@),
            res.remote_password is None,
            res.bridge_root_cert_path == params.bridge_root_cert_path,
            res.remote_clientid@ == params.remote_clientid@,
            res.local_clientid@ == tb_connection_name(params.profile_name.deep_view()),
            res.bridge_certfile == params.bridge_certfile,
            res.bridge_keyfile == params.bridge_keyfile,
            res.use_mapper,
            !res.use_agent,
            !res.try_private,
            res.start_type@ == "automatic"@,
            !res.clean_session,
            !res.include_local_clean_session,
            !res.local_clean_session,
            res.notifications,
            res.notifications_local_only,
            res.notification_topic@ == tb_bridge_health_topic(
                params.mqtt_schema.root@,
                params.topic_prefix@,
            ),
            !res.bridge_attempt_unsubscribe,
            strings_view(res.topics@) == tb_bridge_topics(params.topic_prefix@),
            res.bridge_location == params.bridge_location,
            res.connection_check_attempts == 2,
            res.auth_type == AuthType::Certificate,
            res.mosquitto_version is None,
            res.keepalive_interval == params.keepalive_interval,
            res.proxy == wrap_proxy(params.proxy),
    {
        let BridgeConfigTbParams {
            mqtt_host,
            config_file,
            bridge_root_cert_path,
            remote_clientid,
            bridge_certfile,
            bridge_keyfile,
            bridge_location,
            topic_prefix,
            profile_name,
            mqtt_schema,
            keepalive_interval,
            proxy,
        } = params;

        let user_name = remote_clientid.clone();
        let prefix = topic_prefix.as_str();

        let mut topics: Vec<String> = Vec::new();
        topics.push(topic_directive("telemetry", "out", prefix));
        topics.push(topic_directive("attributes", "out", prefix));
        topics.push(topic_directive("attributes", "in", prefix));
        topics.push(topic_directive("rpc/request/+", "in", prefix));
        topics.push(topic_directive("rpc/response/+", "out", prefix));
        assert(strings_view(topics@) =~= tb_bridge_topics(prefix@));

        let notification_topic = mosquitto_bridge_health_topic(&mqtt_schema, &topic_prefix);

        let connection = match &profile_name {
            Some(profile) => "edge_to_tb@".to_owned().concat(profile.as_str()),
            None => "edge_to_tb".to_owned(),
        };
        let local_clientid = connection.clone();
        let proxy = match proxy {
            Some(p) => Some(ProxyWrapper(p)),
            None => None,
        };

        BridgeConfig {
            cloud_name: "tb".to_owned(),
            config_file,
            connection,
            address: mqtt_host,
            remote_username: Some(user_name),
            remote_password: None,
            bridge_root_cert_path,
            remote_clientid,
            local_clientid,
            bridge_certfile,
            bridge_keyfile,
            use_mapper: true,
            use_agent: false,
            try_private: false,
            start_type: "automatic".to_owned(),
            clean_session: false,
            include_local_clean_session: false,
            local_clean_session: false,
            notifications: true,
            notifications_local_only: true,
            notification_topic,
            bridge_attempt_unsubscribe: false,
            topics,
            bridge_location,
            connection_check_attempts: 2,
            auth_type: AuthType::Certificate,
            mosquitto_version: None,
            keepalive_interval,
            proxy,
        }
    }
}

} // verus!
