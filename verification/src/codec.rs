//! Envelope codec for the opcode-tagged wire format. A frame is a JSON
//! object `{"op": <opcode>, "d": <payload>, "s": <sequence>, "t": <event
//! name>}`; the opcode is read first and decides how the payload is
//! interpreted. Unknown opcodes are reported to the caller, never fatal.
//! Decoding splits in two: the trusted JSON boundary extracts plain values,
//! and `classify_envelope` — fully verified, with an exact contract — turns
//! them into a typed envelope or a decode error.

use vstd::prelude::*;
use crate::jsonval::{
    extract_envelope_fields, envelope_op_of, envelope_seq_of, envelope_event_of,
    envelope_payload_of, envelope_hello_of,
};
use crate::strutil::{dec_digits, push_char, view_of_opt_string};

verus! {

/// Dispatch-class envelope: carries an application event and a sequence
/// number.
pub const OP_DISPATCH: u64 = 0;

/// Client-to-server keepalive.
pub const OP_HEARTBEAT: u64 = 1;

/// Client's fresh handshake reply.
pub const OP_IDENTIFY: u64 = 2;

/// Client's resume reply: replays session id and last sequence.
pub const OP_RESUME: u64 = 6;

/// Server refuses a resume: the session must re-identify afresh.
pub const OP_INVALID_SESSION: u64 = 9;

/// Server's handshake envelope: carries the heartbeat interval.
pub const OP_HELLO: u64 = 10;

/// Server's acknowledgement of a heartbeat.
pub const OP_HEARTBEAT_ACK: u64 = 11;

/// The opcode-specific payload of a decoded envelope: one variant per known
/// opcode.
pub enum EnvelopePayload {
    /// Handshake: the interval, in milliseconds, at which the client must
    /// send heartbeats.
    Hello { heartbeat_interval_ms: u64 },
    /// An application event; the payload is carried through as JSON text,
    /// opaque to the session core.
    Dispatch { payload_json: String },
    /// The server acknowledged the most recent heartbeat.
    HeartbeatAck,
    /// The server refused to resume the session: identify afresh.
    ResumeRejected,
}

/// A decoded envelope. The sequence number is present exactly on
/// dispatch-class envelopes.
pub struct Envelope {
    pub opcode: u64,
    pub sequence: Option<u64>,
    pub event_name: Option<String>,
    pub payload: EnvelopePayload,
}

/// Why a frame could not be decoded. All decode errors are recoverable: the
/// caller decides whether one matters.
pub enum DecodeError {
    /// The opcode is none of the known ones; carries the opcode so the
    /// caller can decide.
    UnknownOpcode(u64),
    /// The opcode is known but its payload does not have the required shape.
    MalformedPayload { opcode: u64, cause: String },
    /// The frame is not a JSON object with an unsigned integer `op` field.
    MalformedEnvelope,
}

/// The plain values extracted from a frame by the JSON boundary, before the
/// opcode decides what they mean.
pub struct RawEnvelope {
    pub opcode: u64,
    pub sequence: Option<u64>,
    pub event_name: Option<String>,
    /// The `d` field as JSON text; empty when the frame has no `d`.
    pub payload_json: String,
}

/// Structural facts that hold of every decoded envelope: the payload variant
/// matches the opcode, and a sequence number is present exactly on
/// dispatch-class envelopes.
pub open spec fn envelope_wf(e: Envelope) -> bool {
    &&& (e.sequence is Some <==> e.opcode == OP_DISPATCH)
    &&& (e.payload matches EnvelopePayload::Hello { .. } <==> e.opcode == OP_HELLO)
    &&& (e.payload matches EnvelopePayload::Dispatch { .. } <==> e.opcode == OP_DISPATCH)
    &&& (e.payload is HeartbeatAck <==> e.opcode == OP_HEARTBEAT_ACK)
    &&& (e.payload is ResumeRejected <==> e.opcode == OP_INVALID_SESSION)
}

/// Turns the plain values of a raw envelope into a typed envelope, branching
/// on the opcode. `hello_interval` is the `heartbeat_interval` field that the
/// JSON boundary found inside the payload, when the opcode called for one.
pub fn classify_envelope(raw: RawEnvelope, hello_interval: Option<u64>) -> (r: Result<
    Envelope,
    DecodeError,
>)
    ensures
        raw.opcode == OP_HELLO && hello_interval is Some ==> (r matches Ok(e) && {
            &&& e.opcode == OP_HELLO
            &&& e.payload == (EnvelopePayload::Hello {
                heartbeat_interval_ms: hello_interval->Some_0,
            })
            &&& e.sequence is None
            &&& e.event_name is None
        }),
        raw.opcode == OP_HELLO && hello_interval is None ==> (r matches Err(e) && e matches
            DecodeError::MalformedPayload { opcode, cause } && opcode == OP_HELLO && cause@
            == "missing heartbeat_interval"@),
        raw.opcode == OP_DISPATCH && raw.sequence is Some ==> (r matches Ok(e) && {
            &&& e.opcode == OP_DISPATCH
            &&& e.sequence == raw.sequence
            &&& e.event_name == raw.event_name
            &&& e.payload matches EnvelopePayload::Dispatch { payload_json } && payload_json@
                == raw.payload_json@
        }),
        raw.opcode == OP_DISPATCH && raw.sequence is None ==> (r matches Err(e) && e matches
            DecodeError::MalformedPayload { opcode, cause } && opcode == OP_DISPATCH && cause@
            == "missing sequence"@),
        raw.opcode == OP_HEARTBEAT_ACK ==> (r matches Ok(e) && {
            &&& e.opcode == OP_HEARTBEAT_ACK
            &&& e.payload is HeartbeatAck
            &&& e.sequence is None
            &&& e.event_name is None
        }),
        raw.opcode == OP_INVALID_SESSION ==> (r matches Ok(e) && {
            &&& e.opcode == OP_INVALID_SESSION
            &&& e.payload is ResumeRejected
            &&& e.sequence is None
            &&& e.event_name is None
        }),
        !(raw.opcode == OP_HELLO || raw.opcode == OP_DISPATCH || raw.opcode == OP_HEARTBEAT_ACK
            || raw.opcode == OP_INVALID_SESSION) ==> r == Err::<Envelope, DecodeError>(
            DecodeError::UnknownOpcode(raw.opcode),
        ),
        r matches Ok(e) ==> envelope_wf(e),
{
    if raw.opcode == OP_HELLO {
        match hello_interval {
            Some(h) => Ok(
                Envelope {
                    opcode: OP_HELLO,
                    sequence: None,
                    event_name: None,
                    payload: EnvelopePayload::Hello { heartbeat_interval_ms: h },
                },
            ),
            None => Err(
                DecodeError::MalformedPayload {
                    opcode: OP_HELLO,
                    cause: String::from_str("missing heartbeat_interval"),
                },
            ),
        }
    } else if raw.opcode == OP_DISPATCH {
        match raw.sequence {
            Some(s) => Ok(
                Envelope {
                    opcode: OP_DISPATCH,
                    sequence: Some(s),
                    event_name: raw.event_name,
                    payload: EnvelopePayload::Dispatch { payload_json: raw.payload_json },
                },
            ),
            None => Err(
                DecodeError::MalformedPayload {
                    opcode: OP_DISPATCH,
                    cause: String::from_str("missing sequence"),
                },
            ),
        }
    } else if raw.opcode == OP_HEARTBEAT_ACK {
        Ok(
            Envelope {
                opcode: OP_HEARTBEAT_ACK,
                sequence: None,
                event_name: None,
                payload: EnvelopePayload::HeartbeatAck,
            },
        )
    } else if raw.opcode == OP_INVALID_SESSION {
        Ok(
            Envelope {
                opcode: OP_INVALID_SESSION,
                sequence: None,
                event_name: None,
                payload: EnvelopePayload::ResumeRejected,
            },
        )
    } else {
        Err(DecodeError::UnknownOpcode(raw.opcode))
    }
}

/// Every opcode the codec knows.
pub open spec fn known_opcode(op: u64) -> bool {
    op == OP_HELLO || op == OP_DISPATCH || op == OP_HEARTBEAT_ACK || op == OP_INVALID_SESSION
}

/// Decodes one frame of text. The JSON boundary extracts the opcode,
/// sequence, event name and payload as plain values — each a named function
/// of the text — and `classify_envelope` decides what they mean. The
/// contract fixes the result for every input text: no unsigned `op` field
/// means a malformed envelope, an unknown opcode is reported as itself, and
/// a known opcode yields exactly the envelope, or the error, that its named
/// fields dictate.
pub fn decode(raw: &str) -> (r: Result<Envelope, DecodeError>)
    ensures
        envelope_op_of(raw@) is None ==> r == Err::<Envelope, DecodeError>(
            DecodeError::MalformedEnvelope,
        ),
        envelope_op_of(raw@) matches Some(op) ==> match r {
            Ok(e) => {
                &&& envelope_wf(e)
                &&& e.opcode == op
                &&& (op == OP_HELLO ==> envelope_hello_of(raw@) is Some && e.payload == (
                    EnvelopePayload::Hello {
                        heartbeat_interval_ms: envelope_hello_of(raw@)->Some_0,
                    }
                ))
                &&& (op == OP_DISPATCH ==> {
                    &&& envelope_seq_of(raw@) is Some
                    &&& e.sequence == envelope_seq_of(raw@)
                    &&& view_of_opt_string(e.event_name) == envelope_event_of(raw@)
                    &&& (e.payload matches EnvelopePayload::Dispatch { payload_json }
                        && payload_json@ == envelope_payload_of(raw@))
                })
                &&& (op == OP_HEARTBEAT_ACK ==> e.payload is HeartbeatAck)
                &&& (op == OP_INVALID_SESSION ==> e.payload is ResumeRejected)
            },
            Err(err) => match err {
                DecodeError::UnknownOpcode(c) => c == op && !known_opcode(op),
                DecodeError::MalformedPayload { opcode, cause } => opcode == op && {
                    ||| op == OP_HELLO && envelope_hello_of(raw@) is None && cause@
                        == "missing heartbeat_interval"@
                    ||| op == OP_DISPATCH && envelope_seq_of(raw@) is None && cause@
                        == "missing sequence"@
                },
                DecodeError::MalformedEnvelope => false,
            },
        },
{
    let fields = extract_envelope_fields(raw);
    let op: u64 = match fields.opcode {
        Some(o) => o,
        None => {
            return Err(DecodeError::MalformedEnvelope);
        }
    };
    classify_envelope(
        RawEnvelope {
            opcode: op,
            sequence: fields.sequence,
            event_name: fields.event_name,
            payload_json: fields.payload_json,
        },
        fields.hello_interval,
    )
}

/// The character for one hexadecimal digit (lower case).
pub open spec fn hex_digit(d: nat) -> char {
    if d == 0 {
        '0'
    } else if d == 1 {
        '1'
    } else if d == 2 {
        '2'
    } else if d == 3 {
        '3'
    } else if d == 4 {
        '4'
    } else if d == 5 {
        '5'
    } else if d == 6 {
        '6'
    } else if d == 7 {
        '7'
    } else if d == 8 {
        '8'
    } else if d == 9 {
        '9'
    } else if d == 10 {
        'a'
    } else if d == 11 {
        'b'
    } else if d == 12 {
        'c'
    } else if d == 13 {
        'd'
    } else if d == 14 {
        'e'
    } else {
        'f'
    }
}

/// One character as it stands inside a JSON string literal: quote and
/// backslash take a backslash escape, a control character becomes `\u00XX`,
/// and every other character stands as itself.
pub open spec fn json_escaped_char(c: char) -> Seq<char> {
    if c == '"' {
        seq!['\\', '"']
    } else if c == '\\' {
        seq!['\\', '\\']
    } else if (c as u32) < 32 {
        seq![
            '\\',
            'u',
            '0',
            '0',
            hex_digit(((c as u32) / 16) as nat),
            hex_digit(((c as u32) % 16) as nat),
        ]
    } else {
        seq![c]
    }
}

/// A sequence of characters as it stands inside a JSON string literal.
pub open spec fn json_escaped(s: Seq<char>) -> Seq<char>
    decreases s.len(),
{
    if s.len() == 0 {
        Seq::<char>::empty()
    } else {
        json_escaped_char(s[0]) + json_escaped(s.drop_first())
    }
}

/// Escaping one more character appends that character's escape.
proof fn lemma_json_escaped_push(s: Seq<char>, c: char)
    ensures
        json_escaped(s.push(c)) == json_escaped(s) + json_escaped_char(c),
    decreases s.len(),
{
    if s.len() == 0 {
        assert(s.push(c).drop_first() =~= Seq::<char>::empty());
        assert(s.push(c)[0] == c);
        assert(json_escaped(Seq::<char>::empty()) =~= Seq::<char>::empty());
        assert(json_escaped(s.push(c)) =~= json_escaped_char(c) + json_escaped(
            s.push(c).drop_first(),
        ));
        assert(json_escaped(s.push(c)) =~= json_escaped_char(c));
        assert(json_escaped(s) + json_escaped_char(c) =~= json_escaped_char(c));
    } else {
        assert(s.push(c).drop_first() =~= s.drop_first().push(c));
        lemma_json_escaped_push(s.drop_first(), c);
        assert(s.push(c)[0] == s[0]);
        assert(json_escaped(s.push(c)) =~= json_escaped_char(s[0]) + (json_escaped(s.drop_first())
            + json_escaped_char(c)));
        assert(json_escaped_char(s[0]) + (json_escaped(s.drop_first()) + json_escaped_char(c)) =~= (
        json_escaped_char(s[0]) + json_escaped(s.drop_first())) + json_escaped_char(c));
    }
}

/// The character for one hexadecimal digit (lower case).
fn hex_char(d: u8) -> (r: char)
    requires
        d < 16,
    ensures
        r == hex_digit(d as nat),
{
    if d == 0 {
        '0'
    } else if d == 1 {
        '1'
    } else if d == 2 {
        '2'
    } else if d == 3 {
        '3'
    } else if d == 4 {
        '4'
    } else if d == 5 {
        '5'
    } else if d == 6 {
        '6'
    } else if d == 7 {
        '7'
    } else if d == 8 {
        '8'
    } else if d == 9 {
        '9'
    } else if d == 10 {
        'a'
    } else if d == 11 {
        'b'
    } else if d == 12 {
        'c'
    } else if d == 13 {
        'd'
    } else if d == 14 {
        'e'
    } else {
        'f'
    }
}

/// Appends `s` to `out` as JSON string-literal content, escaping quote,
/// backslash and control characters.
fn append_json_escaped(out: &mut String, s: &str)
    ensures
        final(out)@ == old(out)@ + json_escaped(s@),
{
    let len = s.unicode_len();
    let mut i: usize = 0;
    proof {
        assert(s@.take(0) =~= Seq::<char>::empty());
        assert(json_escaped(Seq::<char>::empty()) =~= Seq::<char>::empty());
        assert(out@ =~= old(out)@ + json_escaped(s@.take(0)));
    }
    while i < len
        invariant
            i <= len,
            len == s@.len(),
            out@ == old(out)@ + json_escaped(s@.take(i as int)),
        decreases len - i,
    {
        let c = s.get_char(i);
        if c == '"' {
            out.append("\\\"");
            proof {
                reveal_strlit("\\\"");
            }
        } else if c == '\\' {
            out.append("\\\\");
            proof {
                reveal_strlit("\\\\");
            }
        } else if (c as u32) < 32 {
            out.append("\\u00");
            push_char(out, hex_char(((c as u32) / 16) as u8));
            push_char(out, hex_char(((c as u32) % 16) as u8));
            proof {
                reveal_strlit("\\u00");
            }
        } else {
            push_char(out, c);
        }
        proof {
            lemma_json_escaped_push(s@.take(i as int), s@[i as int]);
            assert(s@.take(i + 1) =~= s@.take(i as int).push(s@[i as int]));
            assert(out@ =~= old(out)@ + json_escaped(s@.take(i + 1)));
        }
        i += 1;
    }
    proof {
        assert(s@.take(len as int) =~= s@);
    }
}

/// The text of a heartbeat frame: opcode 1, the last seen sequence number as
/// payload, `null` when none has been seen.
pub open spec fn heartbeat_frame(last_sequence: Option<u64>) -> Seq<char> {
    "{\"op\":1,\"d\":"@ + (match last_sequence {
        Some(n) => dec_digits(n as nat),
        None => "null"@,
    }) + "}"@
}

/// Encodes a heartbeat frame carrying the last seen sequence number.
pub fn encode_heartbeat(last_sequence: Option<u64>) -> (r: String)
    ensures
        r@ == heartbeat_frame(last_sequence),
{
    let mut s = String::from_str("{\"op\":1,\"d\":");
    match last_sequence {
        Some(n) => {
            let digits = crate::strutil::u64_to_string(n);
            s.append(digits.as_str());
        }
        None => {
            s.append("null");
        }
    }
    s.append("}");
    s
}

/// The text of a frame with the given opcode and payload text.
pub open spec fn envelope_frame(opcode: u64, payload_json: Seq<char>) -> Seq<char> {
    "{\"op\":"@ + dec_digits(opcode as nat) + ",\"d\":"@ + payload_json + "}"@
}

/// Encodes a frame with the given opcode around already-encoded payload
/// text.
pub fn encode_envelope(opcode: u64, payload_json: &str) -> (r: String)
    ensures
        r@ == envelope_frame(opcode, payload_json@),
{
    let mut s = String::from_str("{\"op\":");
    let digits = crate::strutil::u64_to_string(opcode);
    s.append(digits.as_str());
    s.append(",\"d\":");
    s.append(payload_json);
    s.append("}");
    s
}

/// The text of a resume frame: opcode 6, replaying the session id (escaped
/// for JSON) and the last seen sequence number.
pub open spec fn resume_frame(session_id: Seq<char>, last_sequence: u64) -> Seq<char> {
    "{\"op\":6,\"d\":{\"session_id\":\""@ + json_escaped(session_id) + "\",\"seq\":"@ + dec_digits(
        last_sequence as nat,
    ) + "}}"@
}

/// Encodes a resume frame replaying the session id and last sequence
/// number; the session id is escaped for JSON.
pub fn encode_resume(session_id: &str, last_sequence: u64) -> (r: String)
    ensures
        r@ == resume_frame(session_id@, last_sequence),
{
    let mut s = String::from_str("{\"op\":6,\"d\":{\"session_id\":\"");
    append_json_escaped(&mut s, session_id);
    s.append("\",\"seq\":");
    let digits = crate::strutil::u64_to_string(last_sequence);
    s.append(digits.as_str());
    s.append("}}");
    s
}

/// The text of a fresh-handshake frame: opcode 2, carrying the
/// authentication token, escaped for JSON.
pub open spec fn identify_frame(token: Seq<char>) -> Seq<char> {
    "{\"op\":2,\"d\":{\"token\":\""@ + json_escaped(token) + "\"}}"@
}

/// Encodes a fresh-handshake frame carrying the authentication token; the
/// token is escaped for JSON.
pub fn encode_identify(token: &str) -> (r: String)
    ensures
        r@ == identify_frame(token@),
{
    let mut s = String::from_str("{\"op\":2,\"d\":{\"token\":\"");
    append_json_escaped(&mut s, token);
    s.append("\"}}");
    s
}

} // verus!
