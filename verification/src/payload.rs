//! The bytes that go out on a feed.

use vstd::prelude::*;
use vstd::string::*;
use vstd::utf8::encode_utf8;

use crate::text::{decimal_text, push_decimal};

verus! {

/// `text` as a JSON string: in double quotes, with what JSON asks for
/// escaped.
pub uninterp spec fn json_string(text: Seq<char>) -> Seq<char>;

/// Displays a `serde_json::Value::String` that holds `text`, as
/// `Value::to_string` does. The contract only names the result as a function
/// of `text`: that it is the JSON string of `text` is `serde_json`'s word,
/// not proved here.
#[verifier::external_body]
fn render_json_string(text: &str) -> (rendered: String)
    ensures
        rendered@ == json_string(text@),
{
    serde_json::Value::String(text.to_owned()).to_string()
}

/// The text of a heartbeat sample: a JSON object with the time of the share
/// and the number of records that the tick brought, in this order.
pub open spec fn heartbeat_text(timestamp: Seq<char>, shares: nat) -> Seq<char> {
    "{\"timestamp\":"@ + json_string(timestamp) + ",\"shares\":"@ + decimal_text(shares) + "}"@
}

/// The sample that a model twin shares on its heartbeat feed.
pub fn heartbeat_payload(timestamp: &str, shares: u64) -> (payload: Vec<u8>)
    ensures
        payload@ == encode_utf8(heartbeat_text(timestamp@, shares as nat)),
{
    let mut text = String::from_str("{\"timestamp\":");
    let quoted = render_json_string(timestamp);
    text.append(quoted.as_str());
    text.append(",\"shares\":");
    push_decimal(&mut text, shares);
    text.append("}");
    text.as_str().as_bytes_vec()
}

/// The sample of a feed whose value reads `value`: its UTF-8 bytes.
pub fn sample_payload(value: &str) -> (payload: Vec<u8>)
    ensures
        payload@ == encode_utf8(value@),
{
    value.as_bytes_vec()
}

} // verus!
