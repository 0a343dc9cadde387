//! Trusted boundary to serde_json. Each extractor turns one kind of
//! response or frame text into plain values in a single call chain; what it
//! extracts depends on the text alone, so each extracted field is given a
//! name (an uninterpreted function of the text) that the extractor's
//! contract applies. All envelope and listing logic is then stated — and
//! verified — over those names; nothing here decides anything for the
//! library.

use vstd::prelude::*;
use crate::strutil::view_of_opt_string;

verus! {

/// The `op` field of a frame: present exactly when the text is a JSON
/// object with an unsigned integer `op`.
pub uninterp spec fn envelope_op_of(s: Seq<char>) -> Option<u64>;

/// The `s` (sequence) field of a frame, when it is an unsigned integer.
pub uninterp spec fn envelope_seq_of(s: Seq<char>) -> Option<u64>;

/// The `t` (event name) field of a frame, when it is a string.
pub uninterp spec fn envelope_event_of(s: Seq<char>) -> Option<Seq<char>>;

/// The `d` (payload) field of a frame rendered back to JSON text; empty
/// when the frame has no `d`.
pub uninterp spec fn envelope_payload_of(s: Seq<char>) -> Seq<char>;

/// The `heartbeat_interval` field inside a frame's payload, when it is an
/// unsigned integer.
pub uninterp spec fn envelope_hello_of(s: Seq<char>) -> Option<u64>;

/// The plain fields of one frame, as the JSON boundary extracts them.
pub struct EnvelopeFields {
    pub opcode: Option<u64>,
    pub sequence: Option<u64>,
    pub event_name: Option<String>,
    pub payload_json: String,
    pub hello_interval: Option<u64>,
}

/// Relies on serde_json (from_str, Value::get, Value::as_u64, Value::as_str,
/// to_string): extracts a frame's fields as plain values. The result is a
/// function of the text alone, which the names above record.
#[verifier::external_body]
pub fn extract_envelope_fields(raw: &str) -> (r: EnvelopeFields)
    ensures
        r.opcode == envelope_op_of(raw@),
        r.sequence == envelope_seq_of(raw@),
        view_of_opt_string(r.event_name) == envelope_event_of(raw@),
        r.payload_json@ == envelope_payload_of(raw@),
        r.hello_interval == envelope_hello_of(raw@),
{
    let v = serde_json::from_str::<serde_json::Value>(raw).unwrap_or(serde_json::Value::Null);
    EnvelopeFields {
        opcode: v.get("op").and_then(|x| x.as_u64()),
        sequence: v.get("s").and_then(|x| x.as_u64()),
        event_name: v.get("t").and_then(|x| x.as_str()).map(String::from),
        payload_json: v.get("d").and_then(|d| serde_json::to_string(d).ok()).unwrap_or_default(),
        hello_interval: v.get("d").and_then(|d| d.get("heartbeat_interval")).and_then(
            |x| x.as_u64(),
        ),
    }
}

/// The `url` field of a bootstrap response, when it is a string.
pub uninterp spec fn gateway_url_of(s: Seq<char>) -> Option<Seq<char>>;

/// The `shards` field of a bootstrap response, when it is an unsigned
/// integer.
pub uninterp spec fn gateway_shards_of(s: Seq<char>) -> Option<u64>;

/// The `session_start_limit.total` field of a bootstrap response.
pub uninterp spec fn gateway_total_of(s: Seq<char>) -> Option<u64>;

/// The `session_start_limit.remaining` field of a bootstrap response.
pub uninterp spec fn gateway_remaining_of(s: Seq<char>) -> Option<u64>;

/// The `session_start_limit.reset_after` field of a bootstrap response.
pub uninterp spec fn gateway_reset_after_of(s: Seq<char>) -> Option<u64>;

/// The plain fields of a bootstrap response, as the JSON boundary extracts
/// them.
pub struct GatewayFields {
    pub url: Option<String>,
    pub shards: Option<u64>,
    pub total: Option<u64>,
    pub remaining: Option<u64>,
    pub reset_after: Option<u64>,
}

/// Relies on serde_json (from_str, Value::get, Value::as_u64, Value::as_str):
/// extracts a bootstrap response's fields as plain values; a function of the
/// text alone, recorded by the names above.
#[verifier::external_body]
pub fn extract_gateway_fields(body: &str) -> (r: GatewayFields)
    ensures
        view_of_opt_string(r.url) == gateway_url_of(body@),
        r.shards == gateway_shards_of(body@),
        r.total == gateway_total_of(body@),
        r.remaining == gateway_remaining_of(body@),
        r.reset_after == gateway_reset_after_of(body@),
{
    let v = serde_json::from_str::<serde_json::Value>(body).unwrap_or(serde_json::Value::Null);
    let lim = v.get("session_start_limit");
    GatewayFields {
        url: v.get("url").and_then(|x| x.as_str()).map(String::from),
        shards: v.get("shards").and_then(|x| x.as_u64()),
        total: lim.and_then(|l| l.get("total")).and_then(|x| x.as_u64()),
        remaining: lim.and_then(|l| l.get("remaining")).and_then(|x| x.as_u64()),
        reset_after: lim.and_then(|l| l.get("reset_after")).and_then(|x| x.as_u64()),
    }
}

/// The rows of a channel-listing body: for each element of the JSON array
/// its `type` tag, `id`, `name` and optional `last_message_id`, in order;
/// `None` when the body is not an array of objects with those required
/// fields.
pub uninterp spec fn channel_rows_of(s: Seq<char>) -> Option<
    Seq<(u64, Seq<char>, Seq<char>, Option<Seq<char>>)>,
>;

/// The model of one extracted channel row.
pub open spec fn channel_row_view(t: (u64, String, String, Option<String>)) -> (
    u64,
    Seq<char>,
    Seq<char>,
    Option<Seq<char>>,
) {
    (t.0, t.1@, t.2@, view_of_opt_string(t.3))
}

/// Relies on serde_json (from_str, Value::as_array, Value::get,
/// Value::as_u64, Value::as_str): extracts a channel listing's rows as plain
/// values, in order; a function of the text alone, recorded by
/// `channel_rows_of`.
#[verifier::external_body]
pub fn extract_channel_rows(body: &str) -> (r: Option<Vec<(u64, String, String, Option<String>)>>)
    ensures
        r is Some <==> channel_rows_of(body@) is Some,
        r matches Some(v) ==> Some(v@.map_values(|t| channel_row_view(t))) == channel_rows_of(
            body@,
        ),
{
    let doc: serde_json::Value = serde_json::from_str(body).ok()?;
    let arr = doc.as_array()?;
    let mut out = Vec::with_capacity(arr.len());
    for x in arr {
        out.push((
            x.get("type")?.as_u64()?,
            x.get("id")?.as_str()?.to_string(),
            x.get("name")?.as_str()?.to_string(),
            x.get("last_message_id").and_then(|v| v.as_str()).map(String::from),
        ));
    }
    Some(out)
}

/// The rows of a message-batch body: for each element of the JSON array its
/// `id`, `channel_id` and `content`, in order; `None` when the body is not
/// an array of objects with those fields.
pub uninterp spec fn message_rows_of(s: Seq<char>) -> Option<Seq<(Seq<char>, Seq<char>, Seq<char>)>>;

/// The model of one extracted message row.
pub open spec fn message_row_view(t: (String, String, String)) -> (Seq<char>, Seq<char>, Seq<char>) {
    (t.0@, t.1@, t.2@)
}

/// Relies on serde_json (from_str, Value::as_array, Value::get,
/// Value::as_str): extracts a message batch's rows as plain values, in
/// order; a function of the text alone, recorded by `message_rows_of`.
#[verifier::external_body]
pub fn extract_message_rows(body: &str) -> (r: Option<Vec<(String, String, String)>>)
    ensures
        r is Some <==> message_rows_of(body@) is Some,
        r matches Some(v) ==> Some(v@.map_values(|t| message_row_view(t))) == message_rows_of(
            body@,
        ),
{
    let doc: serde_json::Value = serde_json::from_str(body).ok()?;
    let arr = doc.as_array()?;
    let mut out = Vec::with_capacity(arr.len());
    for x in arr {
        out.push((
            x.get("id")?.as_str()?.to_string(),
            x.get("channel_id")?.as_str()?.to_string(),
            x.get("content")?.as_str()?.to_string(),
        ));
    }
    Some(out)
}

} // verus!
