use vstd::prelude::*;

use crate::severity::{SeverityLevel, severity_name};

verus! {

/// What serde_json writes for a string: the compact JSON string literal of `s`,
/// quotes and escapes included.
pub uninterp spec fn json_text(s: Seq<char>) -> Seq<char>;

/// Relies on serde_json's `Display` for `Value::String`: it writes the compact
/// JSON literal of the string, which depends on the string alone.
#[verifier::external_body]
fn json_string(s: &str) -> (r: String)
    ensures
        r@ == json_text(s@),
{
    serde_json::Value::String(s.to_owned()).to_string()
}

/// The start of every payload: the notifier's description, then the opening of
/// the one event and its one exception, up to the exception's class.
pub const PAYLOAD_HEAD: &'static str = "{\"notifier\":{\"name\":\"mobugsnag - my own bugsnag\",\"version\":\"0.0.1\",\"url\":\"http://bcianswers.com\"},\"events\":[{\"exceptions\":[{\"errorClass\":";

/// Between the exception's class and its message.
pub const MESSAGE_KEY: &'static str = ",\"message\":";

/// Between the exception's message and the severity.
pub const SEVERITY_KEY: &'static str = "}]}],\"severity\":";

/// The end of every payload.
pub const PAYLOAD_TAIL: &'static str = "}";

/// The JSON document that reports one exception of the given class and message
/// at the given severity:
/// `{"notifier":{..},"events":[{"exceptions":[{"errorClass":class,"message":message}]}],"severity":level}`,
/// where each of the three strings is written as serde_json writes it.
pub open spec fn payload(level: SeverityLevel, class: Seq<char>, message: Seq<char>) -> Seq<char> {
    PAYLOAD_HEAD@ + json_text(class) + MESSAGE_KEY@ + json_text(message) + SEVERITY_KEY@
        + json_text(severity_name(level)) + PAYLOAD_TAIL@
}

/// The key in front of the exception's class.
pub const CLASS_KEY: &'static str = "\"errorClass\":";

/// Every payload names the exception's class and message verbatim: the head
/// ends with the `errorClass` key, the JSON string of the class follows it,
/// then the `message` key and the JSON string of the message.
pub proof fn lemma_exception_fields(level: SeverityLevel, class: Seq<char>, message: Seq<char>)
    ensures
        ({
            let body = payload(level, class, message);
            let class_at = PAYLOAD_HEAD@.len() as int;
            let key_at = class_at + json_text(class).len();
            let message_at = key_at + MESSAGE_KEY@.len();
            &&& body.subrange(class_at - CLASS_KEY@.len(), class_at) == CLASS_KEY@
            &&& body.subrange(class_at, key_at) == json_text(class)
            &&& body.subrange(key_at, message_at) == MESSAGE_KEY@
            &&& body.subrange(message_at, message_at + json_text(message).len()) == json_text(message)
        }),
{
    reveal_strlit("{\"notifier\":{\"name\":\"mobugsnag - my own bugsnag\",\"version\":\"0.0.1\",\"url\":\"http://bcianswers.com\"},\"events\":[{\"exceptions\":[{\"errorClass\":");
    reveal_strlit("\"errorClass\":");
    let body = payload(level, class, message);
    let class_at = PAYLOAD_HEAD@.len() as int;
    let key_at = class_at + json_text(class).len();
    let message_at = key_at + MESSAGE_KEY@.len();
    assert(body.subrange(class_at - CLASS_KEY@.len(), class_at) =~= CLASS_KEY@);
    assert(body.subrange(class_at, key_at) =~= json_text(class));
    assert(body.subrange(key_at, message_at) =~= MESSAGE_KEY@);
    assert(body.subrange(message_at, message_at + json_text(message).len()) =~= json_text(message));
}

/// Every payload ends with the severity: the `severity` key, the JSON string of
/// the level's lowercase name, and the closing brace.
pub proof fn lemma_severity_field(level: SeverityLevel, class: Seq<char>, message: Seq<char>)
    ensures
        ({
            let body = payload(level, class, message);
            let name = json_text(severity_name(level));
            &&& body.len() >= SEVERITY_KEY@.len() + name.len() + 1
            &&& body.subrange(body.len() - 1 - name.len() - SEVERITY_KEY@.len(), body.len() - 1 - name.len())
                == SEVERITY_KEY@
            &&& body.subrange(body.len() - 1 - name.len(), body.len() - 1) == name
            &&& body.last() == '}'
        }),
{
    reveal_strlit("}");
    let body = payload(level, class, message);
    let name = json_text(severity_name(level));
    let n = body.len() as int;
    assert(body.subrange(n - 1 - name.len() - SEVERITY_KEY@.len(), n - 1 - name.len()) =~= SEVERITY_KEY@);
    assert(body.subrange(n - 1 - name.len(), n - 1) =~= name);
}

/// Writes the JSON document that reports one exception.
pub fn build_payload(level: SeverityLevel, class: &str, message: &str) -> (r: String)
    ensures
        r@ == payload(level, class@, message@),
{
    let mut body = PAYLOAD_HEAD.to_owned();
    body.append(json_string(class).as_str());
    body.append(MESSAGE_KEY);
    body.append(json_string(message).as_str());
    body.append(SEVERITY_KEY);
    body.append(json_string(level.as_str()).as_str());
    body.append(PAYLOAD_TAIL);
    body
}

} // verus!
