//! Topic prefixes and the thin-edge.io MQTT topic schema, as far as the
//! ThingsBoard bridge and mapper use them.
use vstd::prelude::*;

use crate::text::{chars_of, split, split_chars, string_from_chars, text_eq};

verus! {

/// Whether `c` occurs in `s`.
pub open spec fn has_char(s: Seq<char>, c: char) -> bool {
    exists|i: int| 0 <= i < s.len() && s[i] == c
}

/// Whether `s` may serve as a topic prefix: not empty, and free of the
/// MQTT wildcards `+` and `#` and of the level separator `/`.
pub open spec fn valid_topic_prefix(s: Seq<char>) -> bool {
    &&& s.len() > 0
    &&& !has_char(s, '+')
    &&& !has_char(s, '#')
    &&& !has_char(s, '/')
}

/// Whether the string `s` contains the character `c`.
pub fn contains_char(s: &str, c: char) -> (res: bool)
    ensures
        res == has_char(s@, c),
{
    let chars = chars_of(s);
    let n = chars.len();
    for i in 0..n
        invariant
            n == s@.len(),
            chars@ == s@,
            forall|j: int| 0 <= j < i ==> s@[j] != c,
    {
        if chars[i] == c {
            return true;
        }
    }
    false
}

/// Why a text is refused as a topic prefix.
#[derive(Debug, Clone, Copy, PartialEq, Eq)]
pub enum InvalidTopicPrefix {
    Empty,
    InvalidCharacter,
}

/// The prefix under which a cloud connection's local topics live
/// (`tb` by default).
pub struct TopicPrefix {
    value: String,
}

impl View for TopicPrefix {
    type V = Seq<char>;

    closed spec fn view(&self) -> Seq<char> {
        self.value@
    }
}

impl TopicPrefix {
    #[verifier::type_invariant]
    spec fn wf(self) -> bool {
        valid_topic_prefix(self.value@)
    }

    /// Validates `value` as a topic prefix.
    pub fn try_new(value: &str) -> (res: Result<TopicPrefix, InvalidTopicPrefix>)
        ensures
            res matches Ok(p) ==> p@ == value@,
            res is Ok <==> valid_topic_prefix(value@),
            res == Err::<TopicPrefix, _>(InvalidTopicPrefix::Empty) <==> value@.len() == 0,
            res == Err::<TopicPrefix, _>(InvalidTopicPrefix::InvalidCharacter) <==> (value@.len()
                > 0 && !valid_topic_prefix(value@)),
    {
        if value.is_empty() {
            return Err(InvalidTopicPrefix::Empty);
        }
        if contains_char(value, '+') || contains_char(value, '#') || contains_char(value, '/') {
            return Err(InvalidTopicPrefix::InvalidCharacter);
        }
        Ok(TopicPrefix { value: value.to_owned() })
    }

    /// The prefix as text; it is always a valid topic prefix.
    pub fn as_str(&self) -> (res: &str)
        ensures
            res@ == self@,
            valid_topic_prefix(self@),
    {
        proof {
            use_type_invariant(self);
        }
        self.value.as_str()
    }
}

impl Clone for TopicPrefix {
    fn clone(&self) -> (res: Self)
        ensures
            res@ == self@,
    {
        proof {
            use_type_invariant(self);
        }
        TopicPrefix { value: self.value.clone() }
    }
}

/// An MQTT topic name.
pub struct Topic {
    pub name: String,
}

/// The identifier of an entity (device or service) in topic names.
pub struct EntityTopicId {
    value: String,
}

/// Why an entity identifier is refused.
#[derive(Debug, Clone, Copy, PartialEq, Eq)]
pub enum TopicIdError {
    TooLong,
}

impl View for EntityTopicId {
    type V = Seq<char>;

    closed spec fn view(&self) -> Seq<char> {
        self.value@
    }
}

/// The identifier of a service running on the main device.
pub open spec fn main_service_id(service_name: Seq<char>) -> Seq<char> {
    "device/main/service/"@ + service_name
}

impl EntityTopicId {
    /// The identifier of the service `service_name` of the main device
    /// (`device/main/service/<name>`); refused when the name spans several
    /// topic levels.
    pub fn default_main_service(service_name: &str) -> (res: Result<EntityTopicId, TopicIdError>)
        ensures
            res is Ok <==> !has_char(service_name@, '/'),
            res matches Ok(id) ==> id@ == main_service_id(service_name@),
    {
        if contains_char(service_name, '/') {
            return Err(TopicIdError::TooLong);
        }
        Ok(EntityTopicId { value: "device/main/service/".to_owned().concat(service_name) })
    }

    /// The identifier of the main device (`device/main//`).
    pub fn default_main_device() -> (res: EntityTopicId)
        ensures
            res@ == "device/main//"@,
    {
        EntityTopicId { value: "device/main//".to_owned() }
    }

    /// The identifier of the child device `device_name`
    /// (`device/<name>//`); refused when the name spans several topic
    /// levels.
    pub fn default_child_device(device_name: &str) -> (res: Result<EntityTopicId, TopicIdError>)
        ensures
            res is Ok <==> !has_char(device_name@, '/'),
            res matches Ok(id) ==> id@ == "device/"@ + device_name@ + "//"@,
    {
        if contains_char(device_name, '/') {
            return Err(TopicIdError::TooLong);
        }
        Ok(EntityTopicId { value: "device/".to_owned().concat(device_name).concat("//") })
    }

    /// The identifier of the service `service_name` running on this
    /// device, when this identifier names a device in the default form
    /// `device/<name>//` and the service name is a single topic level.
    pub fn default_service_for_device(&self, service_name: &str) -> (res: Option<EntityTopicId>)
        ensures
            res.deep_view() == device_service_id(self@, service_name@),
    {
        let segs = split_chars(self.value.as_str(), '/');
        if segs.len() == 4 && text_eq(segs[0].as_slice(), "device") && segs[2].len() == 0
            && segs[3].len() == 0 && !contains_char(service_name, '/') {
            let device = string_from_chars(segs[1].as_slice());
            Some(
                EntityTopicId {
                    value: "device/".to_owned().concat(device.as_str()).concat(
                        "/service/",
                    ).concat(service_name),
                },
            )
        } else {
            None
        }
    }

    /// The identifier as text.
    pub fn as_str(&self) -> (res: &str)
        ensures
            res@ == self@,
    {
        self.value.as_str()
    }
}

impl DeepView for EntityTopicId {
    type V = Seq<char>;

    open spec fn deep_view(&self) -> Seq<char> {
        self@
    }
}

/// The identifier of the service `service` of the device `device`, when
/// `device` is in the default form `device/<name>//` and `service` is a
/// single topic level: `device/<name>/service/<service>`.
pub open spec fn device_service_id(device: Seq<char>, service: Seq<char>) -> Option<Seq<char>> {
    let segs = split(device, '/');
    if segs.len() == 4 && segs[0] == "device"@ && segs[2].len() == 0 && segs[3].len() == 0
        && !has_char(service, '/') {
        Some("device/"@ + segs[1] + "/service/"@ + service)
    } else {
        None
    }
}

/// The channels on which an entity publishes; the bridges use the health
/// channel only.
#[derive(Debug, Clone, Copy, PartialEq, Eq)]
pub enum Channel {
    Health,
}

/// The topic suffix of a channel.
pub open spec fn channel_suffix(channel: Channel) -> Seq<char> {
    match channel {
        Channel::Health => "status/health"@,
    }
}

/// The layout of thin-edge.io topics under a root (`te` by default).
pub struct MqttSchema {
    pub root: String,
}

/// The topic of a channel of an entity under a root.
pub open spec fn entity_channel_topic(root: Seq<char>, entity: Seq<char>, channel: Channel) -> Seq<
    char,
> {
    root + "/"@ + entity + "/"@ + channel_suffix(channel)
}

/// The topic on which mapping errors are published under a root.
pub open spec fn errors_topic(root: Seq<char>) -> Seq<char> {
    root + "/errors"@
}

impl MqttSchema {
    /// The schema with topics under `root`.
    pub fn with_root(root: String) -> (res: MqttSchema)
        ensures
            res.root@ == root@,
    {
        MqttSchema { root }
    }

    /// The topic on which mapping errors are published.
    pub fn error_topic(&self) -> (res: Topic)
        ensures
            res.name@ == errors_topic(self.root@),
    {
        Topic { name: self.root.clone().concat("/errors") }
    }

    /// The topic of `channel` for `entity`.
    pub fn topic_for(&self, entity: &EntityTopicId, channel: &Channel) -> (res: Topic)
        ensures
            res.name@ == entity_channel_topic(self.root@, entity@, *channel),
    {
        let suffix = match channel {
            Channel::Health => "status/health",
        };
        let name = self.root.clone().concat("/").concat(entity.as_str()).concat("/").concat(suffix);
        Topic { name }
    }
}

} // verus!
