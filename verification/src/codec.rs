//! The message codec: bytes of one read to text, and text to an envelope.
//!
//! The JSON grammar itself belongs to the parser that the caller runs on the
//! text; the codec takes its verdict and keeps the pristine text beside the
//! decoded structure.

use vstd::prelude::*;
use vstd::string::*;
use vstd::utf8::*;
use crate::message::LogMessage;

verus! {

/// Why bytes did not become an envelope.
#[derive(Debug, Clone)]
pub enum CodecError {
    /// The bytes are not UTF-8.
    InvalidUtf8,
    /// The text is not a JSON envelope; the parser's message is kept.
    InvalidJson(String),
}

/// A decoded event together with the exact text it was decoded from.
#[derive(Debug, Clone)]
pub struct Envelope {
    pub message: LogMessage,
    pub raw: String,
}

/// What the reply to undecodable bytes says when they were not even text.
pub open spec fn utf8_diagnostic() -> Seq<char> {
    "input is not valid UTF-8"@
}

pub open spec fn diagnostic_text(e: CodecError) -> Seq<char> {
    match e {
        CodecError::InvalidUtf8 => utf8_diagnostic(),
        CodecError::InvalidJson(d) => d@,
    }
}

/// `std::str::from_utf8`.
///
/// Trusted: the call succeeds exactly on well-formed UTF-8, and the string it
/// gives then has the very bytes it was given.
#[verifier::external_body]
fn utf8_str(bytes: &[u8]) -> (r: Option<&str>)
    ensures
        r is Some <==> valid_utf8(bytes@),
        r matches Some(s) ==> s.spec_bytes() == bytes@,
{
    match std::str::from_utf8(bytes) {
        Ok(s) => Some(s),
        Err(_) => None,
    }
}

/// Interprets the bytes of one read as text.
///
/// The text, where there is one, encodes to exactly the bytes received.
pub fn decode_text(bytes: &[u8]) -> (r: Result<String, CodecError>)
    ensures
        r is Ok <==> valid_utf8(bytes@),
        r matches Ok(text) ==> text@ == decode_utf8(bytes@) && encode_utf8(text@) == bytes@,
        r matches Err(e) ==> e is InvalidUtf8,
{
    match utf8_str(bytes) {
        Some(s) => {
            proof {
                encode_utf8_decode_utf8(s@);
            }
            Ok(s.to_owned())
        },
        None => Err(CodecError::InvalidUtf8),
    }
}

/// Joins the parser's verdict on `raw` with `raw` itself.
pub fn finish_decode(raw: String, parsed: Result<LogMessage, String>) -> (r: Result<
    Envelope,
    CodecError,
>)
    ensures
        match parsed {
            Ok(m) => r == Ok::<Envelope, CodecError>(Envelope { message: m, raw }),
            Err(d) => r == Err::<Envelope, CodecError>(CodecError::InvalidJson(d)),
        },
{
    match parsed {
        Ok(message) => Ok(Envelope { message, raw }),
        Err(d) => Err(CodecError::InvalidJson(d)),
    }
}

impl CodecError {
    /// The words that the error reply carries after its prefix.
    pub fn diagnostic(&self) -> (text: String)
        ensures
            text@ == diagnostic_text(*self),
    {
        match self {
            CodecError::InvalidUtf8 => String::from_str("input is not valid UTF-8"),
            CodecError::InvalidJson(d) => d.clone(),
        }
    }
}

} // verus!
