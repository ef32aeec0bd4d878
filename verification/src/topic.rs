//! Routing of thin-edge.io topics to ThingsBoard topics.
//!
//! thin-edge.io topics follow
//! `te/<device_type>/<device_id>/<service_type>/<service_id>/<channel>/<type>`.
//! ThingsBoard expects telemetry and attributes on
//! `v1/devices/me/telemetry` and `v1/devices/me/attributes` for the main
//! device, and on `v1/gateway/telemetry` and `v1/gateway/attributes` for
//! the child devices it reaches through the gateway API. The mapper
//! publishes these messages locally under the bridge's topic prefix
//! (`<prefix>/telemetry`, `<prefix>/v1/gateway/telemetry`, ...), from where
//! the bridge forwards them.
use vstd::prelude::*;

use crate::text::{nth_segment, split, split_chars, text_eq};

verus! {

/// The segments of a topic name.
pub open spec fn topic_segments(topic: Seq<char>) -> Seq<Seq<char>> {
    split(topic, '/')
}

/// Whether a topic addresses a device entity: seven segments with
/// `device` as the entity type.
pub open spec fn is_device_topic(topic: Seq<char>) -> bool {
    let segs = topic_segments(topic);
    segs.len() == 7 && segs[1] == "device"@
}

/// Whether a device topic is about the main device.
pub open spec fn is_main_device(topic: Seq<char>) -> bool {
    topic_segments(topic)[2] == "main"@
}

/// Whether a device topic carries telemetry: measurements (`m`), events
/// (`e`), alarms (`a`) or the health status (`status/health`).
pub open spec fn is_telemetry_channel(topic: Seq<char>) -> bool {
    let segs = topic_segments(topic);
    ||| segs[5] == "m"@
    ||| segs[5] == "e"@
    ||| segs[5] == "a"@
    ||| segs[5] == "status"@ && segs[6] == "health"@
}

/// Whether a device topic carries the health status (`status/health`).
pub open spec fn is_health_channel(topic: Seq<char>) -> bool {
    let segs = topic_segments(topic);
    segs[5] == "status"@ && segs[6] == "health"@
}

/// Whether a device topic carries twin data (`twin`), i.e. attributes.
pub open spec fn is_twin_channel(topic: Seq<char>) -> bool {
    topic_segments(topic)[5] == "twin"@
}

/// The ThingsBoard topic a thin-edge.io topic is forwarded to, if any.
pub open spec fn tb_topic(topic: Seq<char>) -> Option<Seq<char>> {
    if !is_device_topic(topic) {
        None
    } else if is_telemetry_channel(topic) {
        if is_main_device(topic) {
            Some("v1/devices/me/telemetry"@)
        } else {
            Some("v1/gateway/telemetry"@)
        }
    } else if is_twin_channel(topic) {
        if is_main_device(topic) {
            Some("v1/devices/me/attributes"@)
        } else {
            Some("v1/gateway/attributes"@)
        }
    } else {
        None
    }
}

/// The device a thin-edge.io topic names: its third segment, or `main`
/// when the topic has fewer segments.
pub open spec fn device_name(topic: Seq<char>) -> Seq<char> {
    if topic_segments(topic).len() > 2 {
        topic_segments(topic)[2]
    } else {
        "main"@
    }
}

/// The kind of data a thin-edge.io topic carries, when it is forwarded
/// to ThingsBoard.
pub enum TbRoute {
    /// The health status.
    Health { main_device: bool },
    /// Measurements, events or alarms.
    Telemetry { main_device: bool },
    /// Twin data.
    Attributes { main_device: bool },
}

/// How a thin-edge.io topic is forwarded to ThingsBoard, if it is.
pub open spec fn tb_route(topic: Seq<char>) -> Option<TbRoute> {
    if !is_device_topic(topic) {
        None
    } else if is_health_channel(topic) {
        Some(TbRoute::Health { main_device: is_main_device(topic) })
    } else if is_telemetry_channel(topic) {
        Some(TbRoute::Telemetry { main_device: is_main_device(topic) })
    } else if is_twin_channel(topic) {
        Some(TbRoute::Attributes { main_device: is_main_device(topic) })
    } else {
        None
    }
}

/// How a thin-edge.io topic is forwarded to ThingsBoard, if it is.
pub fn route_of(source: &str) -> (res: Option<TbRoute>)
    ensures
        res == tb_route(source@),
{
    let segs = split_chars(source, '/');
    if segs.len() != 7 || !text_eq(segs[1].as_slice(), "device") {
        return None;
    }
    let main = text_eq(segs[2].as_slice(), "main");
    let channel = segs[5].as_slice();
    if text_eq(channel, "status") && text_eq(segs[6].as_slice(), "health") {
        Some(TbRoute::Health { main_device: main })
    } else if text_eq(channel, "m") || text_eq(channel, "e") || text_eq(channel, "a") {
        Some(TbRoute::Telemetry { main_device: main })
    } else if text_eq(channel, "twin") {
        Some(TbRoute::Attributes { main_device: main })
    } else {
        None
    }
}

/// Maps a thin-edge.io topic to the ThingsBoard topic its messages go to.
///
/// Measurements, events, alarms and health status become telemetry, twin
/// data becomes attributes; the main device uses the device API
/// (`v1/devices/me/...`), child devices the gateway API
/// (`v1/gateway/...`). Any other topic yields `None`.
pub fn map_to_tb_topic(source: &str) -> (res: Option<String>)
    ensures
        res.deep_view() == tb_topic(source@),
{
    match route_of(source) {
        Some(TbRoute::Health { main_device: true }) => Some("v1/devices/me/telemetry".to_owned()),
        Some(TbRoute::Health { main_device: false }) => Some("v1/gateway/telemetry".to_owned()),
        Some(TbRoute::Telemetry { main_device: true }) => Some("v1/devices/me/telemetry".to_owned()),
        Some(TbRoute::Telemetry { main_device: false }) => Some("v1/gateway/telemetry".to_owned()),
        Some(TbRoute::Attributes { main_device: true }) => Some(
            "v1/devices/me/attributes".to_owned(),
        ),
        Some(TbRoute::Attributes { main_device: false }) => Some(
            "v1/gateway/attributes".to_owned(),
        ),
        None => None,
    }
}

/// The local topic under `prefix` on which a thin-edge.io topic's
/// messages are published for the bridge to ThingsBoard, if any: the main
/// device's data goes to `<prefix>/telemetry` and `<prefix>/attributes`,
/// that of child devices to `<prefix>/v1/gateway/telemetry` and
/// `<prefix>/v1/gateway/attributes`. Health status messages are dropped:
/// they are not forwarded to ThingsBoard.
pub open spec fn prefixed_tb_topic(prefix: Seq<char>, topic: Seq<char>) -> Option<Seq<char>> {
    match tb_route(topic) {
        Some(TbRoute::Health { .. }) => None,
        Some(TbRoute::Telemetry { main_device }) => Some(
            prefix + "/"@ + if main_device {
                "telemetry"@
            } else {
                "v1/gateway/telemetry"@
            },
        ),
        Some(TbRoute::Attributes { main_device }) => Some(
            prefix + "/"@ + if main_device {
                "attributes"@
            } else {
                "v1/gateway/attributes"@
            },
        ),
        None => None,
    }
}

/// Maps a thin-edge.io topic to the local topic under `prefix` on which
/// its messages are published for the bridge to ThingsBoard.
pub fn map_to_prefixed_tb_topic(prefix: &str, source: &str) -> (res: Option<String>)
    ensures
        res.deep_view() == prefixed_tb_topic(prefix@, source@),
{
    let suffix = match route_of(source) {
        Some(TbRoute::Health { .. }) => return None,
        Some(TbRoute::Telemetry { main_device: true }) => "telemetry",
        Some(TbRoute::Telemetry { main_device: false }) => "v1/gateway/telemetry",
        Some(TbRoute::Attributes { main_device: true }) => "attributes",
        Some(TbRoute::Attributes { main_device: false }) => "v1/gateway/attributes",
        None => return None,
    };
    Some(prefix.to_owned().concat("/").concat(suffix))
}

/// Extracts the device name from a thin-edge.io topic: its third segment,
/// or `main` when the topic has fewer segments.
///
/// e.g. `te/device/child01///m/temperature` gives `child01`.
pub fn extract_device_name(topic: &str) -> (res: &str)
    ensures
        res@ == device_name(topic@),
{
    match nth_segment(topic, '/', 2) {
        Some(name) => name,
        None => "main",
    }
}

/// Messages of the main device go to the device API, those of every other
/// device to the gateway API: for any forwarded topic, the target lies in
/// `v1/devices/me/` exactly when the topic's device name is `main`.
pub proof fn lemma_gateway_iff_child_device(topic: Seq<char>)
    requires
        tb_topic(topic) is Some,
    ensures
        device_name(topic) == "main"@ ==> (tb_topic(topic) == Some("v1/devices/me/telemetry"@)
            || tb_topic(topic) == Some("v1/devices/me/attributes"@)),
        device_name(topic) != "main"@ ==> (tb_topic(topic) == Some("v1/gateway/telemetry"@)
            || tb_topic(topic) == Some("v1/gateway/attributes"@)),
{
}

/// A topic is forwarded exactly when it is a device topic whose channel is
/// telemetry or twin data; telemetry channels always reach a telemetry
/// topic and twin channels an attributes topic.
pub proof fn lemma_forwarded_channels(topic: Seq<char>)
    ensures
        tb_topic(topic) is Some <==> is_device_topic(topic) && (is_telemetry_channel(topic)
            || is_twin_channel(topic)),
        is_device_topic(topic) && is_telemetry_channel(topic) ==> (tb_topic(topic) == Some(
            "v1/devices/me/telemetry"@,
        ) || tb_topic(topic) == Some("v1/gateway/telemetry"@)),
{
}

/// A topic is published locally under a prefix exactly when it is
/// forwarded to ThingsBoard and is no health status topic; health status
/// messages are dropped. The main device's data stays on the device API
/// (`<prefix>/telemetry`, `<prefix>/attributes`) while child devices'
/// data goes through the gateway API.
pub proof fn lemma_prefixed_topic_follows_route(prefix: Seq<char>, topic: Seq<char>)
    ensures
        is_device_topic(topic) && is_health_channel(topic) ==> prefixed_tb_topic(prefix, topic)
            is None,
        prefixed_tb_topic(prefix, topic) is Some <==> (tb_topic(topic) is Some && !(
        is_device_topic(topic) && is_health_channel(topic))),
        !is_health_channel(topic) ==> {
            &&& tb_topic(topic) == Some("v1/devices/me/telemetry"@) ==> prefixed_tb_topic(
                prefix,
                topic,
            ) == Some(prefix + "/"@ + "telemetry"@)
            &&& tb_topic(topic) == Some("v1/devices/me/attributes"@) ==> prefixed_tb_topic(
                prefix,
                topic,
            ) == Some(prefix + "/"@ + "attributes"@)
            &&& tb_topic(topic) == Some("v1/gateway/telemetry"@) ==> prefixed_tb_topic(
                prefix,
                topic,
            ) == Some(prefix + "/"@ + "v1/gateway/telemetry"@)
            &&& tb_topic(topic) == Some("v1/gateway/attributes"@) ==> prefixed_tb_topic(
                prefix,
                topic,
            ) == Some(prefix + "/"@ + "v1/gateway/attributes"@)
        },
{
    reveal_strlit("v1/devices/me/telemetry");
    reveal_strlit("v1/devices/me/attributes");
    reveal_strlit("v1/gateway/telemetry");
    reveal_strlit("v1/gateway/attributes");
    assert("v1/devices/me/telemetry"@ != "v1/gateway/telemetry"@) by {
        assert("v1/devices/me/telemetry"@[3] != "v1/gateway/telemetry"@[3]);
    }
    assert("v1/devices/me/telemetry"@ != "v1/gateway/attributes"@) by {
        assert("v1/devices/me/telemetry"@[3] != "v1/gateway/attributes"@[3]);
    }
    assert("v1/devices/me/attributes"@ != "v1/gateway/telemetry"@) by {
        assert("v1/devices/me/attributes"@[3] != "v1/gateway/telemetry"@[3]);
    }
    assert("v1/devices/me/attributes"@ != "v1/gateway/attributes"@) by {
        assert("v1/devices/me/attributes"@[3] != "v1/gateway/attributes"@[3]);
    }
    assert("v1/devices/me/telemetry"@ != "v1/devices/me/attributes"@) by {
        assert("v1/devices/me/telemetry"@[14] != "v1/devices/me/attributes"@[14]);
    }
    assert("v1/gateway/telemetry"@ != "v1/gateway/attributes"@) by {
        assert("v1/gateway/telemetry"@[11] != "v1/gateway/attributes"@[11]);
    }
}

} // verus!
