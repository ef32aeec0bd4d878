//! The decisions of `tedge connect tb`: checking that the bridge to
//! ThingsBoard is up, and provisioning the device with ThingsBoard using
//! its X.509 certificate.
//!
//! The MQTT sessions themselves run outside this library; they hand each
//! event they observe to the step functions here and perform the step
//! that comes back.
use vstd::prelude::*;

use crate::schema::has_char;
use crate::text::{chars_of, replace_all, replace_chars, string_from_chars, text_eq};

verus! {

/// An error with the contexts it was reported under, outermost first.
pub struct ErrorChain {
    pub messages: Vec<String>,
}

/// The messages of an error chain.
pub open spec fn chain_view(e: ErrorChain) -> Seq<Seq<char>> {
    e.messages@.map_values(|s: String| s@)
}

/// The messages of an optional error chain.
pub open spec fn opt_chain_view(e: Option<ErrorChain>) -> Option<Seq<Seq<char>>> {
    match e {
        Some(c) => Some(chain_view(c)),
        None => None,
    }
}

/// An error chain of a single message.
fn single_error(message: String) -> (res: ErrorChain)
    ensures
        chain_view(res) == seq![message@],
{
    let mut messages: Vec<String> = Vec::new();
    messages.push(message);
    let res = ErrorChain { messages };
    assert(chain_view(res) =~= seq![message@]);
    res
}

/// `cause` reported under `context`.
fn with_context(context: String, cause: ErrorChain) -> (res: ErrorChain)
    ensures
        chain_view(res) == seq![context@] + chain_view(cause),
{
    let mut messages: Vec<String> = Vec::new();
    messages.push(context);
    let mut rest = cause.messages;
    let ghost cause_view = rest@;
    messages.append(&mut rest);
    let res = ErrorChain { messages };
    assert(res.messages@ =~= seq![context] + cause_view);
    assert(chain_view(res) =~= seq![context@] + cause_view.map_values(|s: String| s@));
    res
}

// ---------------------------------------------------------------------
// Checking the bridge
// ---------------------------------------------------------------------

/// What the check of the bridge concludes about the device.
#[derive(Debug, Clone, Copy, PartialEq, Eq)]
pub enum DeviceStatus {
    Connected,
    Unknown,
}

/// What the MQTT session of the bridge check observes.
pub enum StatusCheckEvent {
    /// A message arrived on `topic`.
    Publish { topic: String, payload: Vec<u8> },
    /// A keep-alive ping was due: no answer came in time.
    PingRequest,
    /// The local broker disconnected the client.
    Disconnected,
    /// The connection to the local broker failed.
    ConnectionError(String),
    /// Anything else.
    Other,
}

/// What the bridge check does after an event.
pub enum StatusCheckStep {
    /// Keep waiting.
    Continue,
    /// The bridge is up.
    BridgeUp,
    /// The check failed.
    Failed(ErrorChain),
}

/// Whether `pat` occurs in `s`.
pub open spec fn has_infix(s: Seq<u8>, pat: Seq<u8>) -> bool {
    exists|i: int| 0 <= i <= s.len() - pat.len() && #[trigger] s.subrange(i, i + pat.len()) == pat
}

/// Whether a message on `topic` reports the bridge at `health_topic` up:
/// it arrives on the health topic and its payload contains `up`.
pub open spec fn is_health_up(topic: Seq<char>, health_topic: Seq<char>, payload: Seq<u8>) -> bool {
    topic == health_topic && has_infix(payload, seq![117u8, 112u8])
}

/// Whether the payload contains the text `up`.
fn contains_up(payload: &[u8]) -> (res: bool)
    ensures
        res == has_infix(payload@, seq![117u8, 112u8]),
{
    let n = payload.len();
    if n < 2 {
        proof {
            if has_infix(payload@, seq![117u8, 112u8]) {
                let i = choose|i: int|
                    0 <= i <= payload@.len() - 2 && #[trigger] payload@.subrange(i, i + 2) == seq![
                        117u8,
                        112u8,
                    ];
                assert(payload@.subrange(i, i + 2).len() == 2);
            }
        }
        return false;
    }
    for i in 0..n - 1
        invariant
            n == payload@.len(),
            n >= 2,
            forall|j: int| 0 <= j < i ==> #[trigger] payload@.subrange(j, j + 2) != seq![117u8, 112u8],
    {
        if payload[i] == 117u8 && payload[i + 1] == 112u8 {
            assert(payload@.subrange(i as int, i + 2) =~= seq![117u8, 112u8]);
            return true;
        } else {
            assert(payload@.subrange(i as int, i + 2)[0] == payload@[i as int]);
            assert(payload@.subrange(i as int, i + 2)[1] == payload@[i + 1]);
        }
    }
    false
}

/// What the bridge check does after an event, as a sequence of messages
/// for a failure.
pub open spec fn status_check_outcome(event: StatusCheckEvent, health_topic: Seq<char>) -> Option<
    Option<Seq<Seq<char>>>,
> {
    match event {
        StatusCheckEvent::Publish { topic, payload } => if is_health_up(
            topic@,
            health_topic,
            payload@,
        ) {
            Some(None)
        } else {
            None
        },
        StatusCheckEvent::PingRequest => Some(
            Some(seq!["Didn't receive a response from ThingsBoard"@]),
        ),
        StatusCheckEvent::Disconnected => Some(
            Some(seq!["Client was disconnected from mosquitto during connection check"@]),
        ),
        StatusCheckEvent::ConnectionError(e) => Some(
            Some(seq!["Failed to connect to mosquitto for connection check"@, e@]),
        ),
        StatusCheckEvent::Other => None,
    }
}

/// The abstract content of a step of the bridge check: `None` to keep
/// waiting, `Some(None)` when the bridge is up, `Some(Some(messages))`
/// when the check failed.
pub open spec fn status_step_view(step: StatusCheckStep) -> Option<Option<Seq<Seq<char>>>> {
    match step {
        StatusCheckStep::Continue => None,
        StatusCheckStep::BridgeUp => Some(None),
        StatusCheckStep::Failed(e) => Some(Some(chain_view(e))),
    }
}

/// What the bridge check does after `event`, waiting for the bridge to
/// report itself up on `health_topic`.
///
/// A health message reporting `up` ends the check with success; a
/// keep-alive ping (no answer in time), a disconnection or a connection
/// error ends it with an error; anything else keeps it waiting.
pub fn status_check_step(event: StatusCheckEvent, health_topic: &str) -> (res: StatusCheckStep)
    ensures
        status_step_view(res) == status_check_outcome(event, health_topic@),
        event is Other ==> res is Continue,
        res is BridgeUp ==> (event matches StatusCheckEvent::Publish { topic, payload } && topic@
            == health_topic@ && has_infix(payload@, seq![117u8, 112u8])),
        res is Failed ==> (event is PingRequest || event is Disconnected
            || event is ConnectionError),
        event matches StatusCheckEvent::Publish { topic, .. } ==> (topic@ != health_topic@
            ==> res is Continue),
{
    match event {
        StatusCheckEvent::Publish { topic, payload } => {
            let topic_chars = chars_of(topic.as_str());
            if text_eq(topic_chars.as_slice(), health_topic) && contains_up(payload.as_slice()) {
                StatusCheckStep::BridgeUp
            } else {
                StatusCheckStep::Continue
            }
        },
        StatusCheckEvent::PingRequest => StatusCheckStep::Failed(
            single_error("Didn't receive a response from ThingsBoard".to_owned()),
        ),
        StatusCheckEvent::Disconnected => StatusCheckStep::Failed(
            single_error(
                "Client was disconnected from mosquitto during connection check".to_owned(),
            ),
        ),
        StatusCheckEvent::ConnectionError(e) => {
            let cause = single_error(e);
            StatusCheckStep::Failed(
                with_context(
                    "Failed to connect to mosquitto for connection check".to_owned(),
                    cause,
                ),
            )
        },
        StatusCheckEvent::Other => StatusCheckStep::Continue,
    }
}

/// The client id of the session that checks the bridge.
pub fn status_check_client_id() -> (res: &'static str)
    ensures
        res@ == "check_connection_tb"@,
{
    "check_connection_tb"
}

/// The outcome of the bridge check once its session is closed: the device
/// is connected to ThingsBoard when the bridge came up, and the failure is
/// reported as a failure to verify the connection otherwise.
pub fn device_status_result(failure: Option<ErrorChain>) -> (res: Result<DeviceStatus, ErrorChain>)
    ensures
        failure is None ==> res == Ok::<DeviceStatus, ErrorChain>(DeviceStatus::Connected),
        failure matches Some(f) ==> (res matches Err(e) && chain_view(e) == seq![
            "Failed to verify device is connected to ThingsBoard"@,
        ] + chain_view(f)),
{
    match failure {
        None => Ok(DeviceStatus::Connected),
        Some(f) => Err(
            with_context("Failed to verify device is connected to ThingsBoard".to_owned(), f),
        ),
    }
}

// ---------------------------------------------------------------------
// Provisioning
// ---------------------------------------------------------------------

/// What a JSON document holds under `key` as a string: `Err` with the
/// parser's message when `payload` is no JSON document, `Ok(None)` when
/// the document is no object, has no such key, or holds no string there.
pub uninterp spec fn json_str_property_of(payload: Seq<u8>, key: Seq<char>) -> Result<
    Option<Seq<char>>,
    Seq<char>,
>;

/// The bytes of the JSON object with the given string-valued fields, or
/// the serializer's message when it cannot be written.
pub uninterp spec fn json_object_bytes(fields: Seq<(Seq<char>, Seq<char>)>) -> Result<
    Seq<u8>,
    Seq<char>,
>;

/// The abstract content of a string property lookup.
pub open spec fn str_property_view(r: Result<Option<String>, String>) -> Result<
    Option<Seq<char>>,
    Seq<char>,
> {
    match r {
        Ok(Some(s)) => Ok(Some(s@)),
        Ok(None) => Ok(None),
        Err(e) => Err(e@),
    }
}

/// The abstract content of a list of string fields.
pub open spec fn fields_view(fields: Seq<(String, String)>) -> Seq<(Seq<char>, Seq<char>)> {
    fields.map_values(|f: (String, String)| (f.0@, f.1@))
}

/// The string under `key` in the JSON document `payload`
/// (`serde_json::from_slice::<Value>`, then `value[key].as_str()`).
#[verifier::external_body]
fn json_str_property(payload: &[u8], key: &str) -> (res: Result<Option<String>, String>)
    ensures
        str_property_view(res) == json_str_property_of(payload@, key@),
{
    match serde_json::from_slice::<serde_json::Value>(payload) {
        Ok(value) => Ok(value[key].as_str().map(|s| s.to_string())),
        Err(e) => Err(e.to_string()),
    }
}

/// The bytes of the JSON object with the given string-valued fields
/// (`serde_json::to_vec` of a `Value::Object`).
#[verifier::external_body]
fn json_string_object(fields: &Vec<(String, String)>) -> (res: Result<Vec<u8>, String>)
    ensures
        match res {
            Ok(bytes) => json_object_bytes(fields_view(fields@)) == Ok::<Seq<u8>, Seq<char>>(
                bytes@,
            ),
            Err(e) => json_object_bytes(fields_view(fields@)) == Err::<Seq<u8>, Seq<char>>(e@),
        },
{
    let mut map = serde_json::Map::new();
    for (k, v) in fields.iter() {
        map.insert(k.clone(), serde_json::Value::String(v.clone()));
    }
    serde_json::to_vec(&serde_json::Value::Object(map)).map_err(|e| e.to_string())
}

/// The certificate as ThingsBoard expects it in a provisioning request:
/// the PEM text without its header and footer lines and without newlines.
pub open spec fn cert_hash_of(cert_pem: Seq<char>) -> Seq<char> {
    replace_all(
        replace_all(
            replace_all(cert_pem, "-----BEGIN CERTIFICATE-----\n"@, Seq::empty()),
            "-----END CERTIFICATE-----\n"@,
            Seq::empty(),
        ),
        seq!['\n'],
        Seq::empty(),
    )
}

/// The certificate as ThingsBoard expects it in a provisioning request.
pub fn provision_cert_hash(cert_pem: &str) -> (res: String)
    ensures
        res@ == cert_hash_of(cert_pem@),
        forall|body: Seq<char>|
            #![trigger pem_framed(body)]
            !has_char(body, '-') && cert_pem@ == pem_framed(body) ==> res@ == without_newlines(body),
{
    proof {
        assert forall|body: Seq<char>|
            #![trigger pem_framed(body)]
            !has_char(body, '-') && cert_pem@ == pem_framed(body) implies cert_hash_of(cert_pem@)
            == without_newlines(body) by {
            lemma_cert_hash_keeps_body(body);
        }
    }
    let pem = chars_of(cert_pem);
    let begin = chars_of("-----BEGIN CERTIFICATE-----\n");
    let end = chars_of("-----END CERTIFICATE-----\n");
    let empty: Vec<char> = Vec::new();
    let mut newline: Vec<char> = Vec::new();
    newline.push('\n');
    proof {
        reveal_strlit("-----BEGIN CERTIFICATE-----\n");
        reveal_strlit("-----END CERTIFICATE-----\n");
        assert(newline@ =~= seq!['\n']);
        assert(empty@ =~= Seq::<char>::empty());
    }
    let without_begin = replace_chars(pem.as_slice(), begin.as_slice(), empty.as_slice());
    let without_end = replace_chars(without_begin.as_slice(), end.as_slice(), empty.as_slice());
    let hash = replace_chars(without_end.as_slice(), newline.as_slice(), empty.as_slice());
    string_from_chars(hash.as_slice())
}

/// Removing a non-empty pattern that is a single character leaves no
/// occurrence of that character.
pub proof fn lemma_removed_char_absent(s: Seq<char>, c: char)
    ensures
        forall|i: int|
            0 <= i < replace_all(s, seq![c], Seq::empty()).len() ==> #[trigger] replace_all(
                s,
                seq![c],
                Seq::empty(),
            )[i] != c,
    decreases s.len(),
{
    if s.len() > 0 {
        lemma_removed_char_absent(s.skip(1), c);
        if s.take(1) == seq![c] {
            assert(replace_all(s, seq![c], Seq::empty()) =~= replace_all(
                s.skip(1),
                seq![c],
                Seq::empty(),
            ));
        } else {
            assert(s[0] != c) by {
                if s[0] == c {
                    assert(s.take(1) =~= seq![c]);
                }
            }
            let r = replace_all(s.skip(1), seq![c], Seq::empty());
            assert(replace_all(s, seq![c], Seq::empty()) =~= seq![s[0]] + r);
            assert forall|i: int|
                0 <= i < (seq![s[0]] + r).len() implies (seq![s[0]] + r)[i] != c by {
                if i > 0 {
                    assert((seq![s[0]] + r)[i] == r[i - 1]);
                }
            }
        }
    }
}

/// The certificate sent for provisioning never contains a line break.
pub proof fn lemma_cert_hash_single_line(cert_pem: Seq<char>)
    ensures
        forall|i: int|
            0 <= i < cert_hash_of(cert_pem).len() ==> #[trigger] cert_hash_of(cert_pem)[i] != '\n',
{
    lemma_removed_char_absent(
        replace_all(
            replace_all(cert_pem, "-----BEGIN CERTIFICATE-----\n"@, Seq::empty()),
            "-----END CERTIFICATE-----\n"@,
            Seq::empty(),
        ),
        '\n',
    );
}

/// The credentials a device is provisioned with, when provisioning is
/// configured: `Ok(None)` (provisioning is skipped) without a provisioning
/// key, an error when the key is set but not the secret.
pub fn provisioning_credentials(provision_key: Option<String>, provision_secret: Option<String>) -> (res: Result<Option<(String, String)>, ErrorChain>)
    ensures
        provision_key is None <==> res matches Ok(None),
        (provision_key is Some && provision_secret is None) <==> res is Err,
        res matches Err(e) ==> chain_view(e) == seq![
            "tb.device.provision_secret is not set. Run: tedge config set tb.device.provision_secret <secret>"@,
        ],
        res matches Ok(Some(c)) ==> (provision_key matches Some(k) && provision_secret matches Some(
            s,
        ) && c.0@ == k@ && c.1@ == s@),
{
    let key = match provision_key {
        Some(k) => k,
        None => return Ok(None),
    };
    match provision_secret {
        Some(secret) => Ok(Some((key, secret))),
        None => Err(
            single_error(
                "tb.device.provision_secret is not set. Run: tedge config set tb.device.provision_secret <secret>".to_owned(),
            ),
        ),
    }
}

/// The fields of a provisioning request.
pub open spec fn provision_request_fields(
    key: Seq<char>,
    secret: Seq<char>,
    device_name: Seq<char>,
    cert_hash: Seq<char>,
) -> Seq<(Seq<char>, Seq<char>)> {
    seq![
        ("provisionDeviceKey"@, key),
        ("provisionDeviceSecret"@, secret),
        ("credentialsType"@, "X509_CERTIFICATE"@),
        ("deviceName"@, device_name),
        ("hash"@, cert_hash),
    ]
}

/// The port of ThingsBoard's provisioning endpoint.
pub open spec fn tb_provision_port() -> u16 {
    8883
}

/// How to provision the device: the MQTT session to open and the request
/// to send in it.
pub struct ProvisionRequest {
    pub host: String,
    pub port: u16,
    pub client_id: String,
    pub username: String,
    pub password: String,
    pub request_topic: String,
    pub response_topic: String,
    pub payload: Vec<u8>,
    pub device_name: String,
    pub cert_hash: String,
}

/// How to provision the device `device_name` with the credentials `key`
/// and `secret`, its certificate `cert_pem` and the ThingsBoard host `url`.
///
/// The session goes straight to ThingsBoard's provisioning endpoint as
/// user `provision`; the request is published on `v1/devices/provision`
/// and answered on `/provision/response`. The request is the JSON object
/// of the key, the
/// secret, the credentials type `X509_CERTIFICATE`, the device name and
/// the certificate hash.
pub fn provision_request(
    key: String,
    secret: String,
    device_name: String,
    cert_pem: &str,
    url: Option<String>,
) -> (res: Result<ProvisionRequest, ErrorChain>)
    ensures
        url is None ==> (res matches Err(e) && chain_view(e) == seq![
            "tb.url is not configured. Run: tedge config set tb.url <host>"@,
        ]),
        url matches Some(u) ==> match json_object_bytes(
            provision_request_fields(key@, secret@, device_name@, cert_hash_of(cert_pem@)),
        ) {
            Ok(bytes) => (res matches Ok(r) && {
                &&& r.host@ == u@
                &&& r.port == tb_provision_port()
                &&& r.client_id@ == "tedge_tb_provision"@
                &&& r.username@ == "provision"@
                &&& r.password@ == Seq::<char>::empty()
                &&& r.request_topic@ == "v1/devices/provision"@
                &&& r.response_topic@ == "/provision/response"@
                &&& r.payload@ == bytes
                &&& r.device_name@ == device_name@
                &&& r.cert_hash@ == cert_hash_of(cert_pem@)
            }),
            Err(msg) => (res matches Err(e) && chain_view(e) == seq![
                "Failed to serialize provisioning request: "@ + msg,
            ]),
        },
{
    let cert_hash = provision_cert_hash(cert_pem);
    let host = match url {
        Some(u) => u,
        None => return Err(
            single_error(
                "tb.url is not configured. Run: tedge config set tb.url <host>".to_owned(),
            ),
        ),
    };
    let mut fields: Vec<(String, String)> = Vec::new();
    fields.push(("provisionDeviceKey".to_owned(), key));
    fields.push(("provisionDeviceSecret".to_owned(), secret));
    fields.push(("credentialsType".to_owned(), "X509_CERTIFICATE".to_owned()));
    fields.push(("deviceName".to_owned(), device_name.clone()));
    fields.push(("hash".to_owned(), cert_hash.clone()));
    assert(fields_view(fields@) =~= provision_request_fields(
        key@,
        secret@,
        device_name@,
        cert_hash@,
    ));
    let payload = match json_string_object(&fields) {
        Ok(bytes) => bytes,
        Err(e) => return Err(
            single_error("Failed to serialize provisioning request: ".to_owned().concat(e.as_str())),
        ),
    };
    Ok(
        ProvisionRequest {
            host,
            port: 8883,
            client_id: "tedge_tb_provision".to_owned(),
            username: "provision".to_owned(),
            password: String::new(),
            request_topic: "v1/devices/provision".to_owned(),
            response_topic: "/provision/response".to_owned(),
            payload,
            device_name,
            cert_hash,
        },
    )
}

/// What the MQTT session of the provisioning observes.
pub enum ProvisionEvent {
    /// The subscription to the response topic was acknowledged.
    SubAck,
    /// A message arrived on `topic`.
    Publish { topic: String, payload: Vec<u8> },
    /// A keep-alive ping was due: no answer came in time.
    PingRequest,
    /// ThingsBoard disconnected the client.
    Disconnected,
    /// The connection to ThingsBoard failed.
    ConnectionError(String),
    /// Anything else.
    Other,
}

/// What the provisioning does after an event.
pub enum ProvisionStep {
    /// Keep waiting.
    Continue,
    /// Publish the provisioning request, then keep waiting.
    SendRequest,
    /// ThingsBoard provisioned the device.
    Provisioned,
    /// The provisioning failed.
    Failed(ErrorChain),
}

/// The abstract content of a provisioning step.
pub enum ProvisionStepView {
    Continue,
    SendRequest,
    Provisioned,
    Failed(Seq<Seq<char>>),
}

/// The abstract content of a provisioning step.
pub open spec fn provision_step_view(step: ProvisionStep) -> ProvisionStepView {
    match step {
        ProvisionStep::Continue => ProvisionStepView::Continue,
        ProvisionStep::SendRequest => ProvisionStepView::SendRequest,
        ProvisionStep::Provisioned => ProvisionStepView::Provisioned,
        ProvisionStep::Failed(e) => ProvisionStepView::Failed(chain_view(e)),
    }
}

/// How ThingsBoard's answer `payload` to a provisioning request for the
/// certificate `cert_hash` ends the provisioning.
///
/// The device is provisioned when the answer has status `SUCCESS` and
/// returns exactly the device certificate; a `SUCCESS` with another
/// certificate, any other status (`UNKNOWN` when none is given) and an
/// answer that is no JSON document are failures.
pub open spec fn provision_reply_outcome(payload: Seq<u8>, cert_hash: Seq<char>) -> ProvisionStepView {
    reply_decision(
        json_str_property_of(payload, "status"@),
        json_str_property_of(payload, "credentialsValue"@),
        json_str_property_of(payload, "errorMsg"@),
        cert_hash,
    )
}

/// How an answer to a provisioning request for the certificate
/// `cert_hash` ends the provisioning, given what the answer holds as
/// strings under `status`, `credentialsValue` and `errorMsg` (each `Err`
/// with the parser's message when the answer is no JSON document).
pub open spec fn reply_decision(
    status: Result<Option<Seq<char>>, Seq<char>>,
    credentials: Result<Option<Seq<char>>, Seq<char>>,
    error_msg: Result<Option<Seq<char>>, Seq<char>>,
    cert_hash: Seq<char>,
) -> ProvisionStepView {
    match status {
        Err(e) => ProvisionStepView::Failed(
            seq!["Failed to parse ThingsBoard provisioning response: "@ + e],
        ),
        Ok(status_opt) => {
            let status = match status_opt {
                Some(s) => s,
                None => "UNKNOWN"@,
            };
            if status == "SUCCESS"@ {
                match credentials {
                    Err(e) => ProvisionStepView::Failed(
                        seq!["Failed to parse ThingsBoard provisioning response: "@ + e],
                    ),
                    Ok(returned_opt) => {
                        let returned = match returned_opt {
                            Some(r) => r,
                            None => Seq::empty(),
                        };
                        if returned == cert_hash {
                            ProvisionStepView::Provisioned
                        } else {
                            ProvisionStepView::Failed(
                                seq![
                                    "ThingsBoard returned a certificate that does not match the device certificate"@,
                                ],
                            )
                        }
                    },
                }
            } else {
                match error_msg {
                    Err(e) => ProvisionStepView::Failed(
                        seq!["Failed to parse ThingsBoard provisioning response: "@ + e],
                    ),
                    Ok(msg_opt) => {
                        let msg = match msg_opt {
                            Some(m) => m,
                            None => "no error message returned"@,
                        };
                        ProvisionStepView::Failed(
                            seq![
                                "ThingsBoard provisioning failed (status: '"@ + status + "'): "@
                                    + msg,
                            ],
                        )
                    },
                }
            }
        },
    }
}

/// What the provisioning does after an event, for a request whose answer
/// comes on `response_topic` and whose certificate is `cert_hash`.
pub open spec fn provision_outcome(
    event: ProvisionEvent,
    response_topic: Seq<char>,
    cert_hash: Seq<char>,
) -> ProvisionStepView {
    match event {
        ProvisionEvent::SubAck => ProvisionStepView::SendRequest,
        ProvisionEvent::Publish { topic, payload } => if topic@ == response_topic {
            provision_reply_outcome(payload@, cert_hash)
        } else {
            ProvisionStepView::Continue
        },
        ProvisionEvent::PingRequest => ProvisionStepView::Failed(
            seq!["Timed out waiting for provisioning response from ThingsBoard"@],
        ),
        ProvisionEvent::Disconnected => ProvisionStepView::Failed(
            seq!["Disconnected from ThingsBoard during provisioning"@],
        ),
        ProvisionEvent::ConnectionError(e) => ProvisionStepView::Failed(
            seq!["MQTT connection error during ThingsBoard provisioning"@, e@],
        ),
        ProvisionEvent::Other => ProvisionStepView::Continue,
    }
}

/// The failure for an answer that is no JSON document.
fn unparsable_reply(e: String) -> (res: ProvisionStep)
    ensures
        provision_step_view(res) == ProvisionStepView::Failed(
            seq!["Failed to parse ThingsBoard provisioning response: "@ + e@],
        ),
{
    ProvisionStep::Failed(
        single_error(
            "Failed to parse ThingsBoard provisioning response: ".to_owned().concat(e.as_str()),
        ),
    )
}

/// How an answer to a provisioning request for the certificate
/// `cert_hash` ends the provisioning, given what the answer holds as
/// strings under `status`, `credentialsValue` and `errorMsg`.
///
/// The device is provisioned when the status is `SUCCESS` and the
/// returned certificate is exactly the device certificate (a missing one
/// counts as empty); a `SUCCESS` with another certificate, any other
/// status (`UNKNOWN` when none is given, reported with `errorMsg` or `no
/// error message returned`) and an answer that is no JSON document are
/// failures.
pub fn provision_reply_decision(
    status: Result<Option<String>, String>,
    credentials: Result<Option<String>, String>,
    error_msg: Result<Option<String>, String>,
    cert_hash: &str,
) -> (res: ProvisionStep)
    ensures
        provision_step_view(res) == reply_decision(
            str_property_view(status),
            str_property_view(credentials),
            str_property_view(error_msg),
            cert_hash@,
        ),
{
    let status = match status {
        Err(e) => return unparsable_reply(e),
        Ok(Some(s)) => s,
        Ok(None) => "UNKNOWN".to_owned(),
    };
    let status_chars = chars_of(status.as_str());
    if text_eq(status_chars.as_slice(), "SUCCESS") {
        let returned = match credentials {
            Err(e) => return unparsable_reply(e),
            Ok(Some(r)) => r,
            Ok(None) => String::new(),
        };
        let returned_chars = chars_of(returned.as_str());
        if text_eq(returned_chars.as_slice(), cert_hash) {
            ProvisionStep::Provisioned
        } else {
            ProvisionStep::Failed(
                single_error(
                    "ThingsBoard returned a certificate that does not match the device certificate".to_owned(),
                ),
            )
        }
    } else {
        let msg = match error_msg {
            Err(e) => return unparsable_reply(e),
            Ok(Some(m)) => m,
            Ok(None) => "no error message returned".to_owned(),
        };
        ProvisionStep::Failed(
            single_error(
                "ThingsBoard provisioning failed (status: '".to_owned().concat(
                    status.as_str(),
                ).concat("'): ").concat(msg.as_str()),
            ),
        )
    }
}

/// How ThingsBoard's answer `payload` ends the provisioning of the
/// certificate `cert_hash`: the answer is looked up as JSON under
/// `status`, `credentialsValue` and `errorMsg`, and decided on by
/// `provision_reply_decision`.
pub fn provision_reply_step(payload: &[u8], cert_hash: &str) -> (res: ProvisionStep)
    ensures
        provision_step_view(res) == provision_reply_outcome(payload@, cert_hash@),
{
    let status = json_str_property(payload, "status");
    let credentials = json_str_property(payload, "credentialsValue");
    let error_msg = json_str_property(payload, "errorMsg");
    provision_reply_decision(status, credentials, error_msg, cert_hash)
}

/// What the provisioning does after `event`.
///
/// Once the subscription to the response topic is acknowledged the
/// request is sent; the answer on the response topic ends the
/// provisioning; a keep-alive ping (no answer in time), a disconnection or
/// a connection error end it with an error; anything else keeps it
/// waiting.
pub fn provision_step(request: &ProvisionRequest, event: ProvisionEvent) -> (res: ProvisionStep)
    ensures
        provision_step_view(res) == provision_outcome(
            event,
            request.response_topic@,
            request.cert_hash@,
        ),
        event is Other ==> res is Continue,
        event is SubAck ==> res is SendRequest,
        res is Failed ==> (event is PingRequest || event is Disconnected
            || event is ConnectionError || (event matches ProvisionEvent::Publish { topic, .. }
            && topic@ == request.response_topic@)),
        res is Provisioned ==> (event matches ProvisionEvent::Publish { topic, .. } && topic@
            == request.response_topic@),
{
    proof {
        lemma_provisioning_ends_only_on_answer_or_session_loss(
            event,
            request.response_topic@,
            request.cert_hash@,
        );
    }
    match event {
        ProvisionEvent::SubAck => ProvisionStep::SendRequest,
        ProvisionEvent::Publish { topic, payload } => {
            let topic_chars = chars_of(topic.as_str());
            if text_eq(topic_chars.as_slice(), request.response_topic.as_str()) {
                provision_reply_step(payload.as_slice(), request.cert_hash.as_str())
            } else {
                ProvisionStep::Continue
            }
        },
        ProvisionEvent::PingRequest => ProvisionStep::Failed(
            single_error(
                "Timed out waiting for provisioning response from ThingsBoard".to_owned(),
            ),
        ),
        ProvisionEvent::Disconnected => ProvisionStep::Failed(
            single_error("Disconnected from ThingsBoard during provisioning".to_owned()),
        ),
        ProvisionEvent::ConnectionError(e) => {
            let cause = single_error(e);
            let failure = with_context(
                "MQTT connection error during ThingsBoard provisioning".to_owned(),
                cause,
            );
            assert(chain_view(failure) =~= seq![
                "MQTT connection error during ThingsBoard provisioning"@,
                e@,
            ]);
            ProvisionStep::Failed(failure)
        },
        ProvisionEvent::Other => ProvisionStep::Continue,
    }
}

/// The outcome of the provisioning once its session is closed, given
/// whether the device was provisioned and the failure that ended the
/// session, if any.
pub fn provisioning_result(provisioned: bool, failure: Option<ErrorChain>) -> (res: Result<
    (),
    ErrorChain,
>)
    ensures
        provisioned ==> res is Ok,
        !provisioned ==> (res matches Err(e) && chain_view(e) == match opt_chain_view(failure) {
            Some(f) => seq!["ThingsBoard device provisioning failed"@] + f,
            None => seq!["Provisioning ended without a response from ThingsBoard"@],
        }),
{
    if provisioned {
        return Ok(());
    }
    match failure {
        Some(f) => Err(with_context("ThingsBoard device provisioning failed".to_owned(), f)),
        None => Err(
            single_error("Provisioning ended without a response from ThingsBoard".to_owned()),
        ),
    }
}

/// The device counts as provisioned only when ThingsBoard answers with
/// status `SUCCESS` and returns the device's own certificate (a missing
/// certificate counts as the empty one).
pub proof fn lemma_provisioned_iff_matching_success(payload: Seq<u8>, cert_hash: Seq<char>)
    ensures
        provision_reply_outcome(payload, cert_hash) == ProvisionStepView::Provisioned <==> (
        json_str_property_of(payload, "status"@) == Ok::<Option<Seq<char>>, Seq<char>>(
            Some("SUCCESS"@),
        ) && match json_str_property_of(payload, "credentialsValue"@) {
            Ok(Some(r)) => r == cert_hash,
            Ok(None) => cert_hash.len() == 0,
            Err(_) => false,
        }),
{
    reveal_strlit("UNKNOWN");
    reveal_strlit("SUCCESS");
    assert("UNKNOWN"@ != "SUCCESS"@) by {
        assert("UNKNOWN"@[0] != "SUCCESS"@[0]);
    }
    if cert_hash.len() == 0 {
        assert(cert_hash =~= Seq::<char>::empty());
    }
}

/// The provisioning request is sent exactly when the subscription to the
/// response topic is acknowledged, and a message on another topic than
/// the response topic never ends the provisioning.
pub proof fn lemma_request_sent_on_suback(
    event: ProvisionEvent,
    response_topic: Seq<char>,
    cert_hash: Seq<char>,
)
    ensures
        provision_outcome(event, response_topic, cert_hash) == ProvisionStepView::SendRequest
            <==> event is SubAck,
        event matches ProvisionEvent::Publish { topic, payload } ==> (topic@ != response_topic
            ==> provision_outcome(event, response_topic, cert_hash)
            == ProvisionStepView::Continue),
{
}

/// The access token a successful provisioning answer assigns, given what
/// the answer holds as strings under `status`, `credentialsType` and
/// `credentialsValue`: the credentials value, when the status is
/// `SUCCESS` and the credentials are of type `ACCESS_TOKEN`.
pub open spec fn access_token_of(
    status: Result<Option<Seq<char>>, Seq<char>>,
    credentials_type: Result<Option<Seq<char>>, Seq<char>>,
    credentials_value: Result<Option<Seq<char>>, Seq<char>>,
) -> Option<Seq<char>> {
    match (status, credentials_type, credentials_value) {
        (Ok(Some(st)), Ok(Some(ty)), Ok(Some(value))) => if st == "SUCCESS"@ && ty
            == "ACCESS_TOKEN"@ {
            Some(value)
        } else {
            None
        },
        _ => None,
    }
}

/// The access token ThingsBoard's answer `payload` to a provisioning
/// request assigns, if any.
pub open spec fn assigned_access_token_of(payload: Seq<u8>) -> Option<Seq<char>> {
    access_token_of(
        json_str_property_of(payload, "status"@),
        json_str_property_of(payload, "credentialsType"@),
        json_str_property_of(payload, "credentialsValue"@),
    )
}

/// The access token a provisioning answer assigns, given what the answer
/// holds as strings under `status`, `credentialsType` and
/// `credentialsValue`: the credentials value of a `SUCCESS` answer whose
/// credentials are of type `ACCESS_TOKEN`, and `None` otherwise.
pub fn access_token_decision(
    status: Result<Option<String>, String>,
    credentials_type: Result<Option<String>, String>,
    credentials_value: Result<Option<String>, String>,
) -> (res: Option<String>)
    ensures
        res.deep_view() == access_token_of(
            str_property_view(status),
            str_property_view(credentials_type),
            str_property_view(credentials_value),
        ),
{
    match (status, credentials_type, credentials_value) {
        (Ok(Some(st)), Ok(Some(ty)), Ok(Some(value))) => {
            let st_chars = chars_of(st.as_str());
            let ty_chars = chars_of(ty.as_str());
            if text_eq(st_chars.as_slice(), "SUCCESS") && text_eq(
                ty_chars.as_slice(),
                "ACCESS_TOKEN",
            ) {
                Some(value)
            } else {
                None
            }
        },
        _ => None,
    }
}

/// The access token ThingsBoard's answer `payload` to a provisioning
/// request assigns, if any, for the configuration to keep as
/// `tb.access_token`.
pub fn assigned_access_token(payload: &[u8]) -> (res: Option<String>)
    ensures
        res.deep_view() == assigned_access_token_of(payload@),
{
    let status = json_str_property(payload, "status");
    let credentials_type = json_str_property(payload, "credentialsType");
    let credentials_value = json_str_property(payload, "credentialsValue");
    access_token_decision(status, credentials_type, credentials_value)
}

/// An access token is assigned only by a successful answer.
pub proof fn lemma_access_token_only_on_success(payload: Seq<u8>)
    ensures
        assigned_access_token_of(payload) is Some ==> json_str_property_of(payload, "status"@)
            == Ok::<Option<Seq<char>>, Seq<char>>(Some("SUCCESS"@)),
{
}

/// The provisioning session keeps waiting on every event it does not
/// know (such as the acknowledgement of the connection or of the
/// request), sends the request on the subscription acknowledgement, and
/// ends only on an answer on the response topic, a keep-alive timeout, a
/// disconnection or a connection error.
pub proof fn lemma_provisioning_ends_only_on_answer_or_session_loss(
    event: ProvisionEvent,
    response_topic: Seq<char>,
    cert_hash: Seq<char>,
)
    ensures
        event is Other ==> provision_outcome(event, response_topic, cert_hash)
            == ProvisionStepView::Continue,
        event is SubAck ==> provision_outcome(event, response_topic, cert_hash)
            == ProvisionStepView::SendRequest,
        provision_outcome(event, response_topic, cert_hash) is Failed ==> (event is PingRequest
            || event is Disconnected || event is ConnectionError || (
        event matches ProvisionEvent::Publish { topic, .. } && topic@ == response_topic)),
        provision_outcome(event, response_topic, cert_hash) is Provisioned ==> (
        event matches ProvisionEvent::Publish { topic, .. } && topic@ == response_topic),
{
    match event {
        ProvisionEvent::Publish { topic, payload } => {
            if topic@ == response_topic {
                let d = provision_reply_outcome(payload@, cert_hash);
                assert(d !is SendRequest && d !is Continue);
            }
        },
        _ => {},
    }
}

/// A certificate body between the PEM header and footer lines.
pub open spec fn pem_framed(body: Seq<char>) -> Seq<char> {
    "-----BEGIN CERTIFICATE-----\n"@ + body + "-----END CERTIFICATE-----\n"@
}

/// `s` without its line breaks, every other character kept in order.
pub open spec fn without_newlines(s: Seq<char>) -> Seq<char>
    decreases s.len(),
{
    if s.len() == 0 {
        s
    } else if s[0] == '\n' {
        without_newlines(s.skip(1))
    } else {
        seq![s[0]] + without_newlines(s.skip(1))
    }
}

/// A text shorter than the pattern holds no match of it.
proof fn lemma_replace_short(s: Seq<char>, pat: Seq<char>, rep: Seq<char>)
    requires
        s.len() < pat.len(),
    ensures
        replace_all(s, pat, rep) == s,
    decreases s.len(),
{
    if s.len() > 0 {
        lemma_replace_short(s.skip(1), pat, rep);
        assert(seq![s[0]] + s.skip(1) =~= s);
    }
}

/// A text starting with the pattern has it replaced first.
proof fn lemma_replace_leading(pat: Seq<char>, t: Seq<char>, rep: Seq<char>)
    requires
        pat.len() > 0,
    ensures
        replace_all(pat + t, pat, rep) == rep + replace_all(t, pat, rep),
{
    assert((pat + t).take(pat.len() as int) =~= pat);
    assert((pat + t).skip(pat.len() as int) =~= t);
}

/// Text free of `-` in front of the rest holds no match of a pattern
/// starting with `-`, and passes through unchanged.
proof fn lemma_replace_dashless_prefix(a: Seq<char>, t: Seq<char>, pat: Seq<char>, rep: Seq<char>)
    requires
        pat.len() > 0,
        pat[0] == '-',
        !has_char(a, '-'),
    ensures
        replace_all(a + t, pat, rep) == a + replace_all(t, pat, rep),
    decreases a.len(),
{
    if a.len() == 0 {
        assert(a + t =~= t);
        assert(a + replace_all(t, pat, rep) =~= replace_all(t, pat, rep));
    } else {
        let s = a + t;
        assert(s[0] == a[0]);
        assert(a[0] != '-') by {
            if a[0] == '-' {
                assert(has_char(a, '-'));
            }
        }
        if pat.len() <= s.len() && s.take(pat.len() as int) == pat {
            assert(s.take(pat.len() as int)[0] == s[0]);
        }
        assert(!has_char(a.skip(1), '-')) by {
            if has_char(a.skip(1), '-') {
                let i = choose|i: int| 0 <= i < a.skip(1).len() && a.skip(1)[i] == '-';
                assert(a[i + 1] == '-');
            }
        }
        lemma_replace_dashless_prefix(a.skip(1), t, pat, rep);
        assert(s.skip(1) =~= a.skip(1) + t);
        assert(seq![a[0]] + (a.skip(1) + replace_all(t, pat, rep)) =~= a + replace_all(
            t,
            pat,
            rep,
        ));
    }
}

/// Removing the line-break pattern removes exactly the line breaks.
proof fn lemma_remove_newlines(s: Seq<char>)
    ensures
        replace_all(s, seq!['\n'], Seq::empty()) == without_newlines(s),
    decreases s.len(),
{
    if s.len() > 0 {
        lemma_remove_newlines(s.skip(1));
        if s[0] == '\n' {
            assert(s.take(1) =~= seq!['\n']);
            assert(Seq::<char>::empty() + replace_all(s.skip(1), seq!['\n'], Seq::empty())
                =~= replace_all(s.skip(1), seq!['\n'], Seq::empty()));
        } else {
            assert(s.take(1) != seq!['\n']) by {
                assert(s.take(1)[0] == s[0]);
            }
        }
    }
}

/// The hash of a PEM certificate keeps everything between the header and
/// the footer line except the line breaks, in order: every base64
/// character, padding `=` included, is kept. (Base64 text holds no `-`.)
pub proof fn lemma_cert_hash_keeps_body(body: Seq<char>)
    requires
        !has_char(body, '-'),
    ensures
        cert_hash_of(pem_framed(body)) == without_newlines(body),
{
    let begin = "-----BEGIN CERTIFICATE-----\n"@;
    let end = "-----END CERTIFICATE-----\n"@;
    let e = Seq::<char>::empty();
    reveal_strlit("-----BEGIN CERTIFICATE-----\n");
    reveal_strlit("-----END CERTIFICATE-----\n");
    assert(pem_framed(body) =~= begin + (body + end));
    lemma_replace_leading(begin, body + end, e);
    assert(e + replace_all(body + end, begin, e) =~= replace_all(body + end, begin, e));
    lemma_replace_dashless_prefix(body, end, begin, e);
    lemma_replace_short(end, begin, e);
    assert(replace_all(pem_framed(body), begin, e) == body + end);
    lemma_replace_dashless_prefix(body, e, end, e);
    assert(body + e =~= body);
    lemma_replace_leading(end, e, e);
    assert(end + e =~= end);
    assert(replace_all(e, end, e) == e);
    assert(e + e =~= e);
    assert(body + e =~= body);
    lemma_replace_dashless_prefix(body, end, end, e);
    assert(replace_all(body + end, end, e) == body);
    lemma_remove_newlines(body);
}

/// A certificate whose body is a single line of base64 text is sent
/// exactly as that line.
pub proof fn lemma_cert_hash_of_single_line(body: Seq<char>)
    requires
        !has_char(body, '-'),
        !has_char(body, '\n'),
    ensures
        cert_hash_of(pem_framed(body + seq!['\n'])) == body,
{
    lemma_has_char_append_newline(body);
    lemma_cert_hash_keeps_body(body + seq!['\n']);
    lemma_without_newlines_of_line(body);
}

proof fn lemma_has_char_append_newline(body: Seq<char>)
    requires
        !has_char(body, '-'),
    ensures
        !has_char(body + seq!['\n'], '-'),
{
    if has_char(body + seq!['\n'], '-') {
        let i = choose|i: int| 0 <= i < (body + seq!['\n']).len() && (body + seq!['\n'])[i] == '-';
        if i < body.len() {
            assert(body[i] == '-');
        }
    }
}

proof fn lemma_without_newlines_of_line(body: Seq<char>)
    requires
        !has_char(body, '\n'),
    ensures
        without_newlines(body + seq!['\n']) == body,
    decreases body.len(),
{
    if body.len() == 0 {
        let nl = seq!['\n'];
        assert(body + nl =~= nl);
        assert(nl[0] == '\n');
        assert(nl.skip(1) =~= Seq::<char>::empty());
        assert(without_newlines(nl) == without_newlines(nl.skip(1)));
        assert(without_newlines(Seq::<char>::empty()) == Seq::<char>::empty());
        assert(body =~= Seq::<char>::empty());
    } else {
        assert(body[0] != '\n') by {
            if body[0] == '\n' {
                assert(has_char(body, '\n'));
            }
        }
        assert(!has_char(body.skip(1), '\n')) by {
            if has_char(body.skip(1), '\n') {
                let i = choose|i: int| 0 <= i < body.skip(1).len() && body.skip(1)[i] == '\n';
                assert(body[i + 1] == '\n');
            }
        }
        lemma_without_newlines_of_line(body.skip(1));
        let s = body + seq!['\n'];
        assert(s[0] == body[0]);
        assert(s.skip(1) =~= body.skip(1) + seq!['\n']);
        assert(without_newlines(s) == seq![s[0]] + without_newlines(s.skip(1)));
        assert(seq![body[0]] + body.skip(1) =~= body);
    }
}

} // verus!
