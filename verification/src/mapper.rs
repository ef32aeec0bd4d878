//! What the ThingsBoard mapper sets up when it starts: its service name,
//! the rules of its built-in bridge, the cloud connection of that bridge,
//! the topics it subscribes to and its converter.
use vstd::prelude::*;

use crate::converter::{TbConverter, TimeFormat};
use crate::schema::{
    device_service_id, entity_channel_topic, errors_topic, Channel, EntityTopicId, MqttSchema,
    TopicPrefix,
};
use crate::text::{chars_of, text_eq};

verus! {

/// The direction in which a bridge rule forwards messages.
#[derive(Debug, Clone, Copy, PartialEq, Eq)]
pub enum Direction {
    /// From the local broker to the cloud.
    FromLocal,
    /// From the cloud to the local broker.
    FromRemote,
}

/// A rule of the built-in bridge: `topic` is forwarded in `direction`,
/// carrying `local_prefix` on the local broker and `remote_prefix` in the
/// cloud.
pub struct BridgeRule {
    pub direction: Direction,
    pub topic: String,
    pub local_prefix: String,
    pub remote_prefix: String,
}

/// The rules of the built-in bridge.
pub struct BridgeRules {
    pub rules: Vec<BridgeRule>,
}

/// The abstract content of a bridge rule.
pub open spec fn rule_view(r: BridgeRule) -> (Direction, Seq<char>, Seq<char>, Seq<char>) {
    (r.direction, r.topic@, r.local_prefix@, r.remote_prefix@)
}

/// The abstract content of a list of bridge rules.
pub open spec fn rules_view(rules: Seq<BridgeRule>) -> Seq<(Direction, Seq<char>, Seq<char>, Seq<char>)> {
    rules.map_values(|r: BridgeRule| rule_view(r))
}

impl BridgeRules {
    /// No rules.
    pub fn new() -> (res: BridgeRules)
        ensures
            res.rules@.len() == 0,
    {
        BridgeRules { rules: Vec::new() }
    }

    /// Adds a rule forwarding `topic` from the local broker to the cloud.
    pub fn forward_from_local(&mut self, topic: &str, local_prefix: String, remote_prefix: String)
        ensures
            rules_view(final(self).rules@) == rules_view(old(self).rules@).push(
                (Direction::FromLocal, topic@, local_prefix@, remote_prefix@),
            ),
    {
        self.rules.push(
            BridgeRule {
                direction: Direction::FromLocal,
                topic: topic.to_owned(),
                local_prefix,
                remote_prefix,
            },
        );
        assert(rules_view(self.rules@) =~= rules_view(old(self).rules@).push(
            (Direction::FromLocal, topic@, local_prefix@, remote_prefix@),
        ));
    }

    /// Adds a rule forwarding `topic` from the cloud to the local broker.
    pub fn forward_from_remote(&mut self, topic: &str, local_prefix: String, remote_prefix: String)
        ensures
            rules_view(final(self).rules@) == rules_view(old(self).rules@).push(
                (Direction::FromRemote, topic@, local_prefix@, remote_prefix@),
            ),
    {
        self.rules.push(
            BridgeRule {
                direction: Direction::FromRemote,
                topic: topic.to_owned(),
                local_prefix,
                remote_prefix,
            },
        );
        assert(rules_view(self.rules@) =~= rules_view(old(self).rules@).push(
            (Direction::FromRemote, topic@, local_prefix@, remote_prefix@),
        ));
    }
}

/// A rule of the built-in ThingsBoard bridge: `topic` in `direction`,
/// under `<prefix>/` locally and unprefixed in the cloud.
pub open spec fn tb_rule(direction: Direction, topic: Seq<char>, prefix: Seq<char>) -> (
    Direction,
    Seq<char>,
    Seq<char>,
    Seq<char>,
) {
    (direction, topic, prefix + "/"@, Seq::empty())
}

/// The rules of the built-in ThingsBoard bridge: device telemetry,
/// attributes and RPC responses go out, attributes and RPC requests come
/// in, and the gateway telemetry, attributes, connect and disconnect
/// topics go out.
pub open spec fn tb_bridge_rules(prefix: Seq<char>) -> Seq<(Direction, Seq<char>, Seq<char>, Seq<char>)> {
    seq![
        tb_rule(Direction::FromLocal, "v1/devices/me/telemetry"@, prefix),
        tb_rule(Direction::FromLocal, "v1/devices/me/attributes"@, prefix),
        tb_rule(Direction::FromRemote, "v1/devices/me/attributes"@, prefix),
        tb_rule(Direction::FromRemote, "v1/devices/me/rpc/request/+"@, prefix),
        tb_rule(Direction::FromLocal, "v1/devices/me/rpc/response/+"@, prefix),
        tb_rule(Direction::FromLocal, "v1/gateway/telemetry"@, prefix),
        tb_rule(Direction::FromLocal, "v1/gateway/attributes"@, prefix),
        tb_rule(Direction::FromLocal, "v1/gateway/connect"@, prefix),
        tb_rule(Direction::FromLocal, "v1/gateway/disconnect"@, prefix),
    ]
}

/// The rules of the built-in ThingsBoard bridge for a topic prefix.
pub fn built_in_bridge_rules(topic_prefix: &TopicPrefix) -> (res: BridgeRules)
    ensures
        rules_view(res.rules@) == tb_bridge_rules(topic_prefix@),
        res.rules@.len() == 9,
        forall|i: int|
            0 <= i < res.rules@.len() ==> #[trigger] res.rules@[i].local_prefix@ == topic_prefix@
                + "/"@ && res.rules@[i].remote_prefix@ == Seq::<char>::empty(),
{
    proof {
        lemma_rules_live_under_prefix(topic_prefix@);
    }
    let local_prefix = topic_prefix.as_str().to_owned().concat("/");
    let mut bridge = BridgeRules::new();
    assert(rules_view(bridge.rules@) =~= Seq::empty());

    // Telemetry
    bridge.forward_from_local("v1/devices/me/telemetry", local_prefix.clone(), String::new());
    // Attributes publish
    bridge.forward_from_local("v1/devices/me/attributes", local_prefix.clone(), String::new());
    // Attributes subscribe
    bridge.forward_from_remote("v1/devices/me/attributes", local_prefix.clone(), String::new());
    // RPC request (from cloud)
    bridge.forward_from_remote("v1/devices/me/rpc/request/+", local_prefix.clone(), String::new());
    // RPC response (to cloud)
    bridge.forward_from_local("v1/devices/me/rpc/response/+", local_prefix.clone(), String::new());
    // Gateway telemetry
    bridge.forward_from_local("v1/gateway/telemetry", local_prefix.clone(), String::new());
    // Gateway attributes
    bridge.forward_from_local("v1/gateway/attributes", local_prefix.clone(), String::new());
    // Gateway connect/disconnect
    bridge.forward_from_local("v1/gateway/connect", local_prefix.clone(), String::new());
    bridge.forward_from_local("v1/gateway/disconnect", local_prefix.clone(), String::new());

    assert(rules_view(bridge.rules@) =~= tb_bridge_rules(topic_prefix@));
    assert forall|i: int| 0 <= i < bridge.rules@.len() implies #[trigger] bridge.rules@[i].local_prefix@
        == topic_prefix@ + "/"@ && bridge.rules@[i].remote_prefix@ == Seq::<char>::empty() by {
        assert(rules_view(bridge.rules@)[i] == rule_view(bridge.rules@[i]));
    }
    bridge
}

/// The topics the mapper subscribes to when none are configured: the
/// measurement, event, alarm, twin and health topics of every entity.
pub open spec fn default_input_topics() -> Seq<char> {
    "[\"te/+/+/+/+/m/+\", \"te/+/+/+/+/e/+\", \"te/+/+/+/+/a/+\", \"te/+/+/+/+/twin/+\", \"te/+/+/+/+/status/health\"]"@
}

/// The topics the mapper subscribes to: the configured list, or the
/// default list when the configuration is empty or the empty list `[]`.
pub open spec fn effective_input_topics(configured: Seq<char>) -> Seq<char> {
    if configured.len() == 0 || configured == "[]"@ {
        default_input_topics()
    } else {
        configured
    }
}

/// The topics the mapper subscribes to, given the configured topic list.
pub fn input_topics(configured: String) -> (res: String)
    ensures
        res@ == effective_input_topics(configured@),
{
    let configured_chars = chars_of(configured.as_str());
    if configured_chars.len() == 0 || text_eq(configured_chars.as_slice(), "[]") {
        "[\"te/+/+/+/+/m/+\", \"te/+/+/+/+/e/+\", \"te/+/+/+/+/a/+\", \"te/+/+/+/+/twin/+\", \"te/+/+/+/+/status/health\"]".to_owned()
    } else {
        configured
    }
}

/// The name of the mapper service for a topic prefix.
pub open spec fn mapper_service_name(prefix: Seq<char>) -> Seq<char> {
    "tedge-mapper-"@ + prefix
}

/// The name of the built-in bridge service for a topic prefix.
pub open spec fn builtin_bridge_name(prefix: Seq<char>) -> Seq<char> {
    "tb-bridge-"@ + prefix
}

/// The topic on which the built-in bridge of the device `device` reports
/// its health, under `root`.
pub open spec fn builtin_bridge_health_topic(root: Seq<char>, device: Seq<char>, prefix: Seq<char>) -> Option<
    Seq<char>,
> {
    match device_service_id(device, builtin_bridge_name(prefix)) {
        Some(id) => Some(entity_channel_topic(root, id, Channel::Health)),
        None => None,
    }
}

/// The port on which ThingsBoard accepts MQTT over TLS.
pub open spec fn tb_mqtt_port() -> u16 {
    8883
}

/// What the mapper reads from the thin-edge.io configuration.
pub struct MapperSettings {
    pub topic_prefix: TopicPrefix,
    pub topic_root: String,
    pub device_topic_id: EntityTopicId,
    pub built_in_bridge: bool,
    pub device_id: Option<String>,
    pub url: Option<String>,
    pub keepalive_interval: std::time::Duration,
    pub configured_topics: String,
    pub add_timestamp: bool,
    pub time_format: TimeFormat,
    pub max_payload_size: u32,
}

/// The cloud connection and rules of the built-in bridge.
pub struct CloudBridgePlan {
    pub bridge_name: String,
    /// The topic on which the bridge reports its health; `None` when the
    /// device's topic identifier is not in the default form
    /// `device/<name>//`, so that no service identifier derives from it.
    pub health_topic: Option<String>,
    pub client_id: String,
    pub host: String,
    pub port: u16,
    pub clean_session: bool,
    pub keepalive_interval: std::time::Duration,
    pub rules: BridgeRules,
}

/// What the mapper starts.
pub struct MapperPlan {
    pub mapper_name: String,
    pub bridge: Option<CloudBridgePlan>,
    pub converter: TbConverter,
}

/// Why the mapper cannot start.
#[derive(Debug, Clone, Copy, PartialEq, Eq)]
pub enum MapperError {
    /// The built-in bridge needs the device id, which is not set.
    DeviceIdNotSet,
    /// The built-in bridge needs the ThingsBoard URL, which is not set.
    UrlNotSet,
}

/// The ThingsBoard mapper, for the default profile or a named one.
pub struct TbMapper {
    pub profile: Option<String>,
}

impl TbMapper {
    /// What the mapper starts with the given settings: a built-in bridge
    /// to ThingsBoard when the built-in bridge is enabled (which needs the
    /// device id and the URL), and a converter reading the effective input
    /// topics.
    pub fn plan(&self, settings: MapperSettings) -> (res: Result<MapperPlan, MapperError>)
        ensures
            res == Err::<MapperPlan, _>(MapperError::DeviceIdNotSet) <==> (
            settings.built_in_bridge && settings.device_id is None),
            res == Err::<MapperPlan, _>(MapperError::UrlNotSet) <==> (settings.built_in_bridge
                && settings.device_id is Some && settings.url is None),
            res matches Ok(plan) ==> {
                &&& plan.mapper_name@ == mapper_service_name(settings.topic_prefix@)
                &&& plan.mapper_name@ == "tedge-mapper-"@ + settings.topic_prefix@
                &&& plan.bridge is Some == settings.built_in_bridge
                &&& plan.converter@.input_topics == effective_input_topics(
                    settings.configured_topics@,
                )
                &&& plan.converter@.topic_prefix == settings.topic_prefix@
                &&& plan.converter@.errors_topic == errors_topic(settings.topic_root@)
                &&& plan.converter@.size_threshold == settings.max_payload_size as nat
                &&& plan.converter@.add_timestamp == settings.add_timestamp
                &&& plan.converter@.time_format == settings.time_format
                &&& plan.bridge matches Some(b) ==> {
                    &&& b.bridge_name@ == builtin_bridge_name(settings.topic_prefix@)
                    &&& b.health_topic.deep_view() == builtin_bridge_health_topic(
                        settings.topic_root@,
                        settings.device_topic_id@,
                        settings.topic_prefix@,
                    )
                    &&& settings.device_id matches Some(id) && b.client_id@ == id@
                    &&& settings.url matches Some(url) && b.host@ == url@
                    &&& b.port == tb_mqtt_port()
                    &&& !b.clean_session
                    &&& b.keepalive_interval == settings.keepalive_interval
                    &&& rules_view(b.rules.rules@) == tb_bridge_rules(settings.topic_prefix@)
                }
            },
    {
        let MapperSettings {
            topic_prefix,
            topic_root,
            device_topic_id,
            built_in_bridge,
            device_id,
            url,
            keepalive_interval,
            configured_topics,
            add_timestamp,
            time_format,
            max_payload_size,
        } = settings;
        let mapper_name = "tedge-mapper-".to_owned().concat(topic_prefix.as_str());
        let mqtt_schema = MqttSchema::with_root(topic_root);
        let bridge = if built_in_bridge {
            let client_id = match device_id {
                Some(id) => id,
                None => return Err(MapperError::DeviceIdNotSet),
            };
            let rules = built_in_bridge_rules(&topic_prefix);
            let host = match url {
                Some(u) => u,
                None => return Err(MapperError::UrlNotSet),
            };
            let bridge_name = "tb-bridge-".to_owned().concat(topic_prefix.as_str());
            let health_topic = match device_topic_id.default_service_for_device(
                bridge_name.as_str(),
            ) {
                Some(service) => Some(mqtt_schema.topic_for(&service, &Channel::Health).name),
                None => None,
            };
            Some(
                CloudBridgePlan {
                    bridge_name,
                    health_topic,
                    client_id,
                    host,
                    port: 8883,
                    clean_session: false,
                    keepalive_interval,
                    rules,
                },
            )
        } else {
            None
        };
        let converter = TbConverter::new(
            add_timestamp,
            &mqtt_schema,
            time_format,
            topic_prefix,
            max_payload_size,
            input_topics(configured_topics),
        );
        Ok(MapperPlan { mapper_name, bridge, converter })
    }
}

/// Every rule of the built-in bridge forwards a topic under the
/// connection's own topic prefix followed by `/` locally and unprefixed
/// in the cloud; the rules of two different prefixes share no local
/// prefix.
pub proof fn lemma_rules_live_under_prefix(prefix: Seq<char>)
    ensures
        tb_bridge_rules(prefix).len() == 9,
        forall|i: int|
            0 <= i < tb_bridge_rules(prefix).len() ==> (#[trigger] tb_bridge_rules(prefix)[i]).2
                == prefix + "/"@ && tb_bridge_rules(prefix)[i].3 == Seq::<char>::empty(),
        forall|other: Seq<char>, i: int, j: int|
            other != prefix && 0 <= i < 9 && 0 <= j < 9 ==> #[trigger] tb_bridge_rules(prefix)[i].2
                != #[trigger] tb_bridge_rules(other)[j].2,
{
    assert forall|other: Seq<char>, i: int, j: int|
        other != prefix && 0 <= i < 9 && 0 <= j < 9 implies #[trigger] tb_bridge_rules(
        prefix,
    )[i].2 != #[trigger] tb_bridge_rules(other)[j].2 by {
        lemma_prefix_slash_injective(prefix, other);
    }
}

/// Appending `/` keeps distinct texts distinct.
proof fn lemma_prefix_slash_injective(a: Seq<char>, b: Seq<char>)
    requires
        a != b,
    ensures
        a + "/"@ != b + "/"@,
{
    if a + "/"@ == b + "/"@ {
        assert((a + "/"@).len() == (b + "/"@).len());
        assert(a =~= (a + "/"@).subrange(0, a.len() as int));
        assert(b =~= (b + "/"@).subrange(0, b.len() as int));
    }
}

/// Mappers of different topic prefixes run under different service names,
/// each made of `tedge-mapper-` and the prefix.
pub proof fn lemma_mapper_name_identifies_prefix(p1: Seq<char>, p2: Seq<char>)
    ensures
        mapper_service_name(p1) == "tedge-mapper-"@ + p1,
        p1 != p2 ==> mapper_service_name(p1) != mapper_service_name(p2),
{
    if p1 != p2 && mapper_service_name(p1) == mapper_service_name(p2) {
        let t = "tedge-mapper-"@;
        assert(p1 =~= mapper_service_name(p1).subrange(t.len() as int, mapper_service_name(p1).len() as int));
        assert(p2 =~= mapper_service_name(p2).subrange(t.len() as int, mapper_service_name(p2).len() as int));
    }
}

} // verus!
