//! The converter that turns thin-edge.io messages into ThingsBoard ones,
//! and the built-in flow definition it installs.
use vstd::prelude::*;

use crate::schema::{errors_topic, MqttSchema, TopicPrefix};
use crate::text::{decimal, usize_to_decimal};

verus! {

/// How timestamps added to messages are written.
#[derive(Debug, Clone, Copy, PartialEq, Eq)]
pub enum TimeFormat {
    Unix,
    Rfc3339,
}

/// The name of a time format in flow configurations.
pub open spec fn time_format_name(f: TimeFormat) -> Seq<char> {
    match f {
        TimeFormat::Unix => "unix"@,
        TimeFormat::Rfc3339 => "rfc3339"@,
    }
}

impl TimeFormat {
    /// The name of this format in flow configurations.
    pub fn name(&self) -> (res: &str)
        ensures
            res@ == time_format_name(*self),
    {
        match self {
            TimeFormat::Unix => "unix",
            TimeFormat::Rfc3339 => "rfc3339",
        }
    }
}

/// Converter for ThingsBoard MQTT messages.
///
/// Transforms thin-edge.io internal MQTT messages into ThingsBoard's
/// expected format and topic structure.
pub struct TbConverter {
    input_topics: String,
    topic_prefix: TopicPrefix,
    errors_topic: String,
    size_threshold: usize,
    add_timestamp: bool,
    time_format: TimeFormat,
}

/// The abstract content of a converter.
pub struct TbConverterView {
    pub input_topics: Seq<char>,
    pub topic_prefix: Seq<char>,
    pub errors_topic: Seq<char>,
    pub size_threshold: nat,
    pub add_timestamp: bool,
    pub time_format: TimeFormat,
}

impl View for TbConverter {
    type V = TbConverterView;

    closed spec fn view(&self) -> TbConverterView {
        TbConverterView {
            input_topics: self.input_topics@,
            topic_prefix: self.topic_prefix@,
            errors_topic: self.errors_topic@,
            size_threshold: self.size_threshold as nat,
            add_timestamp: self.add_timestamp,
            time_format: self.time_format,
        }
    }
}

/// The flow step adding timestamps, present only when timestamps are on.
pub open spec fn timestamp_step(add_timestamp: bool, time_format: TimeFormat) -> Seq<char> {
    if add_timestamp {
        "{ builtin = \"add-timestamp\", config = { format = \""@ + time_format_name(time_format)
            + "\" } },"@
    } else {
        Seq::empty()
    }
}

/// The definition of the built-in ThingsBoard flow: it reads the input
/// topics, skips mosquitto health status messages, optionally adds a
/// timestamp, limits the payload size, sets the ThingsBoard topic, and
/// sends errors to the errors topic.
pub open spec fn builtin_flow_text(c: TbConverterView) -> Seq<char> {
    "\n"@ + "input.mqtt.topics = "@ + c.input_topics
        + "\n\nsteps = [\n    { builtin = \"skip-mosquitto-health-status\" },\n    "@
        + timestamp_step(c.add_timestamp, c.time_format) + "\n    "@
        + "{ builtin = \"limit-payload-size\", config = { max_size = "@ + decimal(c.size_threshold)
        + " } },"@ + "\n    "@ + "{ builtin = \"set-tb-topic\", config = { prefix = \""@
        + c.topic_prefix + "\" } },"@ + "\n]\n\n"@ + "errors.mqtt.topic = \""@ + c.errors_topic
        + "\""@ + "\n"@
}

/// Whether `t` occurs in `s`.
pub open spec fn has_text(s: Seq<char>, t: Seq<char>) -> bool {
    exists|i: int| 0 <= i <= s.len() - t.len() && #[trigger] s.subrange(i, i + t.len()) == t
}

/// A text occurs in any text that surrounds it.
proof fn lemma_has_text_within(a: Seq<char>, t: Seq<char>, b: Seq<char>)
    ensures
        has_text(a + t + b, t),
{
    assert((a + t + b).subrange(a.len() as int, a.len() + t.len() as int) =~= t);
}

/// What the built-in flow always holds, whatever the converter: it reads
/// the converter's input topics, limits payloads to the converter's size
/// threshold, sets the ThingsBoard topic under the converter's own topic
/// prefix, and reports errors on the converter's errors topic.
pub proof fn lemma_builtin_flow_carries_settings(c: TbConverterView)
    ensures
        has_text(builtin_flow_text(c), "input.mqtt.topics = "@ + c.input_topics),
        has_text(
            builtin_flow_text(c),
            "{ builtin = \"limit-payload-size\", config = { max_size = "@ + decimal(
                c.size_threshold,
            ) + " } },"@,
        ),
        has_text(
            builtin_flow_text(c),
            "{ builtin = \"set-tb-topic\", config = { prefix = \""@ + c.topic_prefix
                + "\" } },"@,
        ),
        has_text(builtin_flow_text(c), "errors.mqtt.topic = \""@ + c.errors_topic + "\""@),
        c.add_timestamp ==> has_text(
            builtin_flow_text(c),
            "{ builtin = \"add-timestamp\", config = { format = \""@ + time_format_name(
                c.time_format,
            ) + "\" } },"@,
        ),
{
    lemma_flow_input(c);
    lemma_flow_size(c);
    lemma_flow_prefix(c);
    lemma_flow_errors(c);
    if c.add_timestamp {
        lemma_flow_timestamp(c);
    }
}

proof fn lemma_flow_input(c: TbConverterView)
    ensures
        has_text(builtin_flow_text(c), "input.mqtt.topics = "@ + c.input_topics),
{
    let t = "input.mqtt.topics = "@ + c.input_topics;
    let a = "\n"@;
    let b = builtin_flow_text(c).skip((a.len() + t.len()) as int);
    assert(builtin_flow_text(c) =~= a + t + b);
    lemma_has_text_within(a, t, b);
}

proof fn lemma_flow_timestamp(c: TbConverterView)
    requires
        c.add_timestamp,
    ensures
        has_text(
            builtin_flow_text(c),
            "{ builtin = \"add-timestamp\", config = { format = \""@ + time_format_name(
                c.time_format,
            ) + "\" } },"@,
        ),
{
    let t = timestamp_step(c.add_timestamp, c.time_format);
    let a = "\n"@ + "input.mqtt.topics = "@ + c.input_topics
        + "\n\nsteps = [\n    { builtin = \"skip-mosquitto-health-status\" },\n    "@;
    let b = builtin_flow_text(c).skip((a.len() + t.len()) as int);
    assert(builtin_flow_text(c) =~= a + t + b);
    lemma_has_text_within(a, t, b);
}

proof fn lemma_flow_size(c: TbConverterView)
    ensures
        has_text(
            builtin_flow_text(c),
            "{ builtin = \"limit-payload-size\", config = { max_size = "@ + decimal(
                c.size_threshold,
            ) + " } },"@,
        ),
{
    let t = "{ builtin = \"limit-payload-size\", config = { max_size = "@ + decimal(
        c.size_threshold,
    ) + " } },"@;
    let a = "\n"@ + "input.mqtt.topics = "@ + c.input_topics
        + "\n\nsteps = [\n    { builtin = \"skip-mosquitto-health-status\" },\n    "@
        + timestamp_step(c.add_timestamp, c.time_format) + "\n    "@;
    let b = builtin_flow_text(c).skip((a.len() + t.len()) as int);
    assert(builtin_flow_text(c) =~= a + t + b);
    lemma_has_text_within(a, t, b);
}

proof fn lemma_flow_prefix(c: TbConverterView)
    ensures
        has_text(
            builtin_flow_text(c),
            "{ builtin = \"set-tb-topic\", config = { prefix = \""@ + c.topic_prefix
                + "\" } },"@,
        ),
{
    let t = "{ builtin = \"set-tb-topic\", config = { prefix = \""@ + c.topic_prefix
        + "\" } },"@;
    let a = "\n"@ + "input.mqtt.topics = "@ + c.input_topics
        + "\n\nsteps = [\n    { builtin = \"skip-mosquitto-health-status\" },\n    "@
        + timestamp_step(c.add_timestamp, c.time_format) + "\n    "@
        + "{ builtin = \"limit-payload-size\", config = { max_size = "@ + decimal(c.size_threshold)
        + " } },"@ + "\n    "@;
    let b = builtin_flow_text(c).skip((a.len() + t.len()) as int);
    assert(builtin_flow_text(c) =~= a + t + b);
    lemma_has_text_within(a, t, b);
}

proof fn lemma_flow_errors(c: TbConverterView)
    ensures
        has_text(builtin_flow_text(c), "errors.mqtt.topic = \""@ + c.errors_topic + "\""@),
{
    let t = "errors.mqtt.topic = \""@ + c.errors_topic + "\""@;
    let b = "\n"@;
    let a = builtin_flow_text(c).subrange(0, builtin_flow_text(c).len() - t.len() - b.len() as int);
    assert(builtin_flow_text(c) =~= a + t + b);
    lemma_has_text_within(a, t, b);
}

impl TbConverter {
    /// A converter reading `input_topics`, forwarding under
    /// `topic_prefix`, limiting payloads to `max_payload_size` bytes,
    /// optionally adding timestamps in `time_format`, and reporting errors
    /// on the errors topic of `mqtt_schema`.
    pub fn new(
        add_timestamp: bool,
        mqtt_schema: &MqttSchema,
        time_format: TimeFormat,
        topic_prefix: TopicPrefix,
        max_payload_size: u32,
        input_topics: String,
    ) -> (res: TbConverter)
        ensures
            res@.input_topics == input_topics@,
            res@.topic_prefix == topic_prefix@,
            res@.errors_topic == errors_topic(mqtt_schema.root@),
            res@.size_threshold == max_payload_size as nat,
            res@.add_timestamp == add_timestamp,
            res@.time_format == time_format,
    {
        let errors_topic = mqtt_schema.error_topic().name;
        let size_threshold = max_payload_size as usize;
        TbConverter {
            input_topics,
            topic_prefix,
            errors_topic,
            size_threshold,
            add_timestamp,
            time_format,
        }
    }

    /// The name under which the built-in flow is persisted.
    pub fn builtin_flow_name(&self) -> (res: &str)
        ensures
            res@ == "tb_builtin"@,
    {
        "tb_builtin"
    }

    /// The definition of the built-in ThingsBoard flow.
    pub fn builtin_flow(&self) -> (res: String)
        ensures
            res@ == builtin_flow_text(self@),
            has_text(res@, "input.mqtt.topics = "@ + self@.input_topics),
            has_text(
                res@,
                "{ builtin = \"set-tb-topic\", config = { prefix = \""@ + self@.topic_prefix
                    + "\" } },"@,
            ),
            has_text(res@, "errors.mqtt.topic = \""@ + self@.errors_topic + "\""@),
            has_text(
                res@,
                "{ builtin = \"limit-payload-size\", config = { max_size = "@ + decimal(
                    self@.size_threshold,
                ) + " } },"@,
            ),
    {
        proof {
            lemma_builtin_flow_carries_settings(self@);
        }
        let timestamp = if self.add_timestamp {
            "{ builtin = \"add-timestamp\", config = { format = \"".to_owned().concat(
                self.time_format.name(),
            ).concat("\" } },")
        } else {
            String::new()
        };
        let max_size = usize_to_decimal(self.size_threshold);
        "\n".to_owned().concat("input.mqtt.topics = ").concat(self.input_topics.as_str()).concat(
            "\n\nsteps = [\n    { builtin = \"skip-mosquitto-health-status\" },\n    ",
        ).concat(timestamp.as_str()).concat("\n    ").concat(
            "{ builtin = \"limit-payload-size\", config = { max_size = ",
        ).concat(max_size.as_str()).concat(" } },").concat("\n    ").concat(
            "{ builtin = \"set-tb-topic\", config = { prefix = \"",
        ).concat(self.topic_prefix.as_str()).concat("\" } },").concat("\n]\n\n").concat(
            "errors.mqtt.topic = \"",
        ).concat(self.errors_topic.as_str()).concat("\"").concat("\n")
    }
}

} // verus!
