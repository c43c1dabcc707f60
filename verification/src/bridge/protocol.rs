//! NDJSON wire envelope and framing rules.
//!
//! Each line on the bridge child's stdin or stdout is one JSON object: an
//! envelope whose `type` names the command or event and whose `payload`
//! carries its body. A line may hold at most `MAX_LINE_BYTES` bytes and an
//! envelope must speak `PROTOCOL_VERSION`.
use vstd::prelude::*;
use vstd::string::StringSliceAdditionalSpecFns;
use crate::text::{in_class, is_ws, trail_len, trim_end, CharClass};

verus! {

/// A JSON value of `serde_json`, carried through unread.
#[verifier::external_type_specification]
#[verifier::external_body]
pub struct ExJsonValue(serde_json::Value);

/// An error reported by `serde_json`.
#[verifier::external_type_specification]
#[verifier::external_body]
pub struct ExJsonError(serde_json::Error);

pub const PROTOCOL_VERSION: u8 = 1;

pub const MAX_LINE_BYTES: usize = 1048576;

/// Why a protocol line was refused.
#[allow(inconsistent_fields)]
#[derive(Debug)]
pub enum ProtocolError {
    LineTooLong { got: usize, max: usize },
    Decode(serde_json::Error),
    UnsupportedVersion { got: u8, expected: u8 },
    UnknownCommand(String),
    UnknownEvent(String),
}

/// One protocol line: a command or event of kind `kind` for run `run_id`
/// (and tab `tab_id`), stamped `ts`, with body `payload`.
#[derive(Debug, Clone, PartialEq, Eq)]
pub struct Envelope<P> {
    pub v: u8,
    pub kind: String,
    pub id: Option<String>,
    pub correlation_id: Option<String>,
    pub run_id: String,
    pub tab_id: Option<u16>,
    pub ts: String,
    pub payload: P,
}

impl Envelope<serde_json::Value> {
    /// A current-version envelope with no id, correlation id or tab.
    pub fn new(kind: String, run_id: String, ts: String, payload: serde_json::Value) -> (r: Self)
        ensures
            r.v == PROTOCOL_VERSION,
            r.kind == kind,
            r.id is None,
            r.correlation_id is None,
            r.run_id == run_id,
            r.tab_id is None,
            r.ts == ts,
            r.payload == payload,
    {
        Envelope {
            v: PROTOCOL_VERSION,
            kind,
            id: None,
            correlation_id: None,
            run_id,
            tab_id: None,
            ts,
            payload,
        }
    }
}

impl<P> Envelope<P> {
    pub fn with_tab(self, tab_id: u16) -> (r: Self)
        ensures
            r == (Envelope { tab_id: Some(tab_id), ..self }),
    {
        Envelope { tab_id: Some(tab_id), ..self }
    }

    pub fn with_id(self, id: String) -> (r: Self)
        ensures
            r == (Envelope { id: Some(id), ..self }),
    {
        Envelope { id: Some(id), ..self }
    }
}

/// Number of bytes of the UTF-8 encoding of `s`.
pub open spec fn byte_len(s: Seq<char>) -> nat {
    vstd::utf8::encode_utf8(s).len()
}

/// A line of `got` bytes is accepted when it is at most `MAX_LINE_BYTES`.
pub fn check_line_length(got: usize) -> (r: Result<(), ProtocolError>)
    ensures
        r is Ok <==> got <= MAX_LINE_BYTES,
        r matches Err(e) ==> e == (ProtocolError::LineTooLong { got, max: MAX_LINE_BYTES }),
{
    if got > MAX_LINE_BYTES {
        Err(ProtocolError::LineTooLong { got, max: MAX_LINE_BYTES })
    } else {
        Ok(())
    }
}

/// Frames the JSON text of one envelope as a protocol line: the text and a
/// newline, refused when the text exceeds the line limit.
pub fn frame_line(text: String) -> (r: Result<String, ProtocolError>)
    requires
        byte_len(text@) <= usize::MAX,
    ensures
        r is Ok <==> byte_len(text@) <= MAX_LINE_BYTES,
        r matches Ok(line) ==> line@ == text@.push('\n'),
        r matches Err(e) ==> e == (ProtocolError::LineTooLong {
            got: byte_len(text@) as usize,
            max: MAX_LINE_BYTES,
        }),
{
    let got = text.as_str().len();
    check_line_length(got)?;
    let mut line = text;
    line.append("\n");
    proof {
        reveal_strlit("\n");
    }
    Ok(line)
}

/// What the reader takes of a protocol line: the line without its trailing
/// whitespace.
pub open spec fn line_body(line: Seq<char>) -> Seq<char> {
    trim_end(line, CharClass::Whitespace)
}

/// A line framed by the writer reads back as the text it framed, and the
/// reader's length check accepts it, for any text that does not itself end
/// in whitespace (JSON text never does).
pub proof fn lemma_framed_line_reads_back(text: Seq<char>)
    requires
        byte_len(text) <= MAX_LINE_BYTES,
        text.len() == 0 || !is_ws(text.last()),
    ensures
        line_body(text.push('\n')) == text,
        byte_len(line_body(text.push('\n'))) <= MAX_LINE_BYTES,
{
    let line = text.push('\n');
    assert(in_class(line.last(), CharClass::Whitespace));
    assert(line.drop_last() =~= text);
    assert(trail_len(text, CharClass::Whitespace, true) == 0);
    assert(trail_len(line, CharClass::Whitespace, true) == 1);
    assert(line.take(line.len() - 1) =~= text);
}

/// Accepts a decoded envelope only when it speaks this protocol version.
pub fn check_envelope_version<P>(envelope: Envelope<P>) -> (r: Result<Envelope<P>, ProtocolError>)
    ensures
        r is Ok <==> envelope.v == PROTOCOL_VERSION,
        r matches Ok(e) ==> e == envelope,
        r matches Err(e) ==> e == (ProtocolError::UnsupportedVersion {
            got: envelope.v,
            expected: PROTOCOL_VERSION,
        }),
{
    if envelope.v != PROTOCOL_VERSION {
        Err(ProtocolError::UnsupportedVersion { got: envelope.v, expected: PROTOCOL_VERSION })
    } else {
        Ok(envelope)
    }
}

} // verus!
