use vstd::prelude::*;
use vstd::string::*;
use crate::domain::errors::{OrchestratorError, concat_str};
use crate::text::{lemma_field_end_at, second_field, second_field_of};

verus! {

/// Why publishing on the bus failed.
#[derive(Debug, Clone, PartialEq, Eq)]
pub enum BusPublishError {
    ConnectionLost(String),
    SerializationFailed(String),
    TopicUnavailable(String),
}

/// The message that describes a publishing failure.
pub open spec fn publish_error_message(e: BusPublishError) -> Seq<char> {
    match e {
        BusPublishError::ConnectionLost(m) => "Connection lost: "@ + m@,
        BusPublishError::SerializationFailed(m) => "Serialization failed: "@ + m@,
        BusPublishError::TopicUnavailable(m) => "Topic not available: "@ + m@,
    }
}

impl BusPublishError {
    /// The message that describes this failure.
    pub fn message(&self) -> (r: String)
        ensures
            r@ == publish_error_message(*self),
    {
        match self {
            BusPublishError::ConnectionLost(m) => concat_str("Connection lost: ", m.as_str()),
            BusPublishError::SerializationFailed(m) => concat_str(
                "Serialization failed: ",
                m.as_str(),
            ),
            BusPublishError::TopicUnavailable(m) => concat_str("Topic not available: ", m.as_str()),
        }
    }
}

/// The error reported when an event could not be published.
pub fn publish_failure(e: &BusPublishError) -> (r: OrchestratorError)
    ensures
        r matches OrchestratorError::Bus(m) && m@ == "Failed to publish event: "@
            + publish_error_message(*e),
{
    let m = e.message();
    OrchestratorError::Bus(concat_str("Failed to publish event: ", m.as_str()))
}

/// A bus message: the topic, a NUL, then the JSON payload.
pub open spec fn frame_spec(topic: Seq<char>, payload: Seq<char>) -> Seq<char> {
    topic + seq!['\0'] + payload
}

/// The bus message that carries `payload` on `topic`.
pub fn frame(topic: &str, payload: &str) -> (r: String)
    ensures
        r@ == frame_spec(topic@, payload@),
{
    let s = String::from_str(topic);
    let s = s.concat("\0");
    proof {
        reveal_strlit("\0");
    }
    s.concat(payload)
}

/// The payload of a received bus message: what follows its first NUL, up to
/// the next one; a message without a NUL carries none.
pub fn frame_payload(message: &str) -> (r: Option<&str>)
    ensures
        match second_field(message@, '\0') {
            Some(p) => r matches Some(x) && x@ == p,
            None => r is None,
        },
{
    second_field_of(message, '\0')
}

/// What is published is what is received: the payload of a framed message
/// is the payload framed, when neither the topic nor the payload holds a NUL.
pub proof fn law_frame_payload_reads_back(topic: Seq<char>, payload: Seq<char>)
    requires
        forall|i: int| 0 <= i < topic.len() ==> #[trigger] topic[i] != '\0',
        forall|i: int| 0 <= i < payload.len() ==> #[trigger] payload[i] != '\0',
    ensures
        second_field(frame_spec(topic, payload), '\0') == Some(payload),
{
    let s = frame_spec(topic, payload);
    let k = topic.len() as int;
    assert(s[k] == '\0');
    assert forall|j: int| 0 <= j < k implies #[trigger] s[j] != '\0' by {
        assert(s[j] == topic[j]);
    }
    lemma_field_end_at(s, 0, k, '\0');
    assert forall|j: int| k + 1 <= j < s.len() implies #[trigger] s[j] != '\0' by {
        assert(s[j] == payload[j - k - 1]);
    }
    lemma_field_end_at(s, k + 1, s.len() as int, '\0');
    assert(s.subrange(k + 1, s.len() as int) =~= payload);
}

/// The environment variable that names the endpoint events are published to.
pub fn publish_endpoint_variable() -> (r: &'static str)
    ensures
        r@ == "ZMQ_PUB_ENDPOINT"@,
{
    "ZMQ_PUB_ENDPOINT"
}

/// The endpoint events are published to when the environment does not say.
pub fn default_publish_endpoint() -> (r: &'static str)
    ensures
        r@ == "tcp://127.0.0.1:5555"@,
{
    "tcp://127.0.0.1:5555"
}

/// The endpoint a service is asked at when the environment does not say.
pub fn default_request_endpoint() -> (r: &'static str)
    ensures
        r@ == "tcp://127.0.0.1:5560"@,
{
    "tcp://127.0.0.1:5560"
}

/// ASCII upper-casing of one character; every other character is kept.
pub open spec fn ascii_upper_char(c: char) -> char {
    if 'a' <= c <= 'z' {
        ((c as u32) - 32) as char
    } else {
        c
    }
}

/// Whether every character of `s` is ASCII.
pub open spec fn all_ascii(s: Seq<char>) -> bool {
    forall|i: int| 0 <= i < s.len() ==> (#[trigger] s[i] as u32) < 128
}

/// Calls `str::to_uppercase`. Its documentation defines upper case by
/// Unicode; on ASCII text that is ASCII upper-casing, which is what is
/// stated. Of other text nothing is stated.
#[verifier::external_body]
fn to_uppercase(s: &str) -> (r: String)
    ensures
        all_ascii(s@) ==> r@ == s@.map_values(|c: char| ascii_upper_char(c)),
{
    s.to_uppercase()
}

/// The environment variable that names the endpoint of `service`: its name
/// in upper case, then `_ENDPOINT`.
pub fn request_endpoint_variable(service: &str) -> (r: String)
    ensures
        all_ascii(service@) ==> r@ == service@.map_values(|c: char| ascii_upper_char(c))
            + "_ENDPOINT"@,
{
    let u = to_uppercase(service);
    u.concat("_ENDPOINT")
}

} // verus!
