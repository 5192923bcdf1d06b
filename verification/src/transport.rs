//! Reply handling of the socket transport.
//!
//! Each command opens a fresh connection, writes one framed request and reads
//! back at most one reply line (the bytes before the delimiter, or before the
//! peer closes the stream).  The embedding application performs the socket
//! I/O and hands the accumulated reply bytes to [`classify_reply`], which
//! decides between implicit success, a parsed payload, and a protocol error.

use vstd::prelude::*;
use crate::errors::MpvError;

verus! {

/// Whether a byte string parses as exactly one well-formed JSON value.  This
/// names the outcome of the outside parser, which depends on the bytes alone.
pub uninterp spec fn json_accepts(bytes: Seq<u8>) -> bool;

#[verifier::external_type_specification]
#[verifier::external_body]
pub struct ExValue(serde_json::Value);

/// Relies on `serde_json::from_slice::<serde_json::Value>`: it returns `Ok`
/// exactly when the buffer holds one well-formed JSON value, and `Err` with
/// the parser's error text otherwise.
#[verifier::external_body]
fn parse_json_value(buf: &Vec<u8>) -> (r: Result<serde_json::Value, String>)
    ensures
        r is Ok <==> json_accepts(buf@),
{
    match serde_json::from_slice::<serde_json::Value>(buf) {
        Ok(v) => Ok(v),
        Err(e) => Err(e.to_string()),
    }
}

/// What a command received back over the wire.
#[derive(Debug)]
pub enum Reply {
    /// The peer closed the stream without sending a reply line; many control
    /// commands produce no acknowledgement, so this counts as success.
    ImplicitOk,
    /// Exactly one JSON value was read back.
    Payload(serde_json::Value),
}

/// Decides what a reply line means.  An empty buffer is an implicit success;
/// a well-formed JSON value is a payload; anything else is a protocol error
/// carrying the parser's text, never a panic.
pub fn classify_reply(buf: &Vec<u8>) -> (r: Result<Reply, MpvError>)
    ensures
        r is Ok <==> (buf@.len() == 0 || json_accepts(buf@)),
        buf@.len() == 0 ==> r matches Ok(Reply::ImplicitOk),
        buf@.len() > 0 && json_accepts(buf@) ==> r matches Ok(Reply::Payload(_)),
        buf@.len() > 0 && !json_accepts(buf@) ==> r matches Err(MpvError::ProtocolError(_)),
{
    if buf.len() == 0 {
        return Ok(Reply::ImplicitOk);
    }
    match parse_json_value(buf) {
        Ok(v) => Ok(Reply::Payload(v)),
        Err(text) => Err(MpvError::ProtocolError(text)),
    }
}

} // verus!
