//! The `set-tb-topic` flow step: re-publishes thin-edge.io messages under
//! the configured prefix, on the local topic that the bridge forwards to
//! ThingsBoard.
use vstd::prelude::*;

use crate::topic::{
    is_device_topic, is_health_channel, map_to_prefixed_tb_topic, prefixed_tb_topic, tb_topic,
};

verus! {

/// A message flowing through a mapper pipeline.
pub struct Message {
    pub topic: String,
    pub payload: Vec<u8>,
}

impl Message {
    /// A message with the given topic and payload.
    pub fn new(topic: String, payload: Vec<u8>) -> (res: Message)
        ensures
            res.topic@ == topic@,
            res.payload@ == payload@,
    {
        Message { topic, payload }
    }
}

/// The flow step that sets the ThingsBoard topic of a message.
#[derive(Clone)]
pub struct SetTbTopic {
    prefix: String,
}

impl Default for SetTbTopic {
    fn default() -> (res: Self)
        ensures
            res.spec_prefix() == Seq::<char>::empty(),
    {
        SetTbTopic { prefix: String::new() }
    }
}

/// The prefix configured for a `set-tb-topic` step: the `prefix` property
/// when the configuration has one as a string, `tb` otherwise.
pub open spec fn configured_prefix(prefix_property: Option<Seq<char>>) -> Seq<char> {
    match prefix_property {
        Some(p) => p,
        None => "tb"@,
    }
}

/// What a `set-tb-topic` step configured with `prefix` outputs for an
/// input message: the message on its prefixed ThingsBoard topic with
/// unchanged payload, or nothing when the topic is not forwarded.
pub open spec fn set_tb_topic_output(prefix: Seq<char>, topic: Seq<char>, payload: Seq<u8>) -> Seq<
    (Seq<char>, Seq<u8>),
> {
    match prefixed_tb_topic(prefix, topic) {
        Some(t) => seq![(t, payload)],
        None => Seq::empty(),
    }
}

/// The topics and payloads of a list of messages.
pub open spec fn messages_view(messages: Seq<Message>) -> Seq<(Seq<char>, Seq<u8>)> {
    messages.map_values(|m: Message| (m.topic@, m.payload@))
}

impl SetTbTopic {
    /// The prefix this step was configured with.
    pub closed spec fn spec_prefix(&self) -> Seq<char> {
        self.prefix@
    }

    /// The name under which this step is registered.
    pub fn name(&self) -> (res: &str)
        ensures
            res@ == "set-tb-topic"@,
    {
        "set-tb-topic"
    }

    /// The prefix this step was configured with.
    pub fn prefix(&self) -> (res: &str)
        ensures
            res@ == self.spec_prefix(),
    {
        self.prefix.as_str()
    }

    /// Configures the step from the `prefix` property of its configuration
    /// (`None` when the configuration has no such string property).
    pub fn set_config(&mut self, prefix_property: Option<&str>)
        ensures
            final(self).spec_prefix() == configured_prefix(
                match prefix_property {
                    Some(p) => Some(p@),
                    None => None,
                },
            ),
    {
        let prefix = match prefix_property {
            Some(p) => p,
            None => "tb",
        };
        self.prefix = prefix.to_owned();
    }

    /// Re-publishes `message` under the configured prefix, on the topic
    /// the bridge forwards to ThingsBoard, with the same payload; health
    /// status messages and messages on topics that are not forwarded are
    /// dropped.
    pub fn on_message(&mut self, message: &Message) -> (res: Vec<Message>)
        ensures
            messages_view(res@) == set_tb_topic_output(
                old(self).spec_prefix(),
                message.topic@,
                message.payload@,
            ),
            final(self).spec_prefix() == old(self).spec_prefix(),
    {
        let mut out: Vec<Message> = Vec::new();
        if let Some(topic) = map_to_prefixed_tb_topic(self.prefix.as_str(), message.topic.as_str()) {
            out.push(Message::new(topic, message.payload.clone()));
        }
        assert(messages_view(out@) =~= set_tb_topic_output(
            self.prefix@,
            message.topic@,
            message.payload@,
        ));
        out
    }
}

/// A `set-tb-topic` step forwards each message at most once, never alters
/// its payload, and drops exactly the messages on topics that are not
/// forwarded to ThingsBoard and the health status messages.
pub proof fn lemma_set_tb_topic_keeps_payload(prefix: Seq<char>, topic: Seq<char>, payload: Seq<u8>)
    ensures
        set_tb_topic_output(prefix, topic, payload).len() <= 1,
        set_tb_topic_output(prefix, topic, payload).len() == 1 ==> set_tb_topic_output(
            prefix,
            topic,
            payload,
        )[0].1 == payload,
        set_tb_topic_output(prefix, topic, payload).len() == 0 <==> (tb_topic(topic) is None || (
        is_device_topic(topic) && is_health_channel(topic))),
{
    crate::topic::lemma_prefixed_topic_follows_route(prefix, topic);
}

} // verus!
