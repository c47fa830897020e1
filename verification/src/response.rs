//! Reading the executor's response.

use crate::error::ErrorKind;
use crate::operation::OperationType;
use vstd::prelude::*;
use vstd::utf8::{decode_utf8, valid_utf8};

verus! {

/// The size of the receive buffer, in bytes.
pub const RESPONSE_LIMIT: usize = 512;

/// What to do with a payload that does not fit the receive buffer.
#[derive(Clone, Copy, Debug, PartialEq, Eq, Structural)]
pub enum Framing {
    /// Keep what fits and drop the rest.
    Truncate,
    /// Refuse the payload.
    Reject,
}

/// The part of a payload that fits the receive buffer.
pub open spec fn buffered(payload: Seq<u8>) -> Seq<u8> {
    if payload.len() <= RESPONSE_LIMIT {
        payload
    } else {
        payload.take(RESPONSE_LIMIT as int)
    }
}

/// The text of a response, if the payload is acceptable: it fits the buffer
/// or may be cut to fit, and what is kept of it is well-formed UTF-8.
pub open spec fn response_text(payload: Seq<u8>, framing: Framing) -> Option<Seq<char>> {
    if framing == Framing::Reject && payload.len() > RESPONSE_LIMIT {
        None
    } else if valid_utf8(buffered(payload)) {
        Some(decode_utf8(buffered(payload)))
    } else {
        None
    }
}

/// `std::str::from_utf8`. The call succeeds exactly on well-formed UTF-8, and
/// then gives the text that the bytes encode.
#[verifier::external_body]
fn utf8_text(bytes: &[u8]) -> (r: Option<&str>)
    ensures
        r is Some <==> valid_utf8(bytes@),
        r matches Some(s) ==> s@ == decode_utf8(bytes@),
{
    match std::str::from_utf8(bytes) {
        Ok(s) => Some(s),
        Err(_) => None,
    }
}

/// Decodes a response payload as text. Under `Framing::Truncate` only the
/// first `RESPONSE_LIMIT` bytes count; under `Framing::Reject` a longer
/// payload is a protocol error. Bytes that are not UTF-8 are one as well.
pub fn decode_response(payload: &[u8], framing: Framing) -> (r: Result<String, ErrorKind>)
    ensures
        match response_text(payload@, framing) {
            Some(text) => r matches Ok(s) && s@ == text,
            None => r == Err::<String, ErrorKind>(ErrorKind::Protocol),
        },
{
    let kept = if payload.len() <= RESPONSE_LIMIT {
        payload
    } else {
        match framing {
            Framing::Reject => {
                return Err(ErrorKind::Protocol);
            },
            Framing::Truncate => vstd::slice::slice_subrange(payload, 0, RESPONSE_LIMIT),
        }
    };
    match utf8_text(kept) {
        Some(text) => Ok(String::from_str(text)),
        None => Err(ErrorKind::Protocol),
    }
}

/// The answer to an action as shown to the user: a sum and a count are put
/// into a sentence that ends the line, anything else is shown as it came.
pub open spec fn result_line(kind: OperationType, column: Seq<char>, response: Seq<char>) -> Seq<
    char,
> {
    match kind {
        OperationType::Sum => "Sum of collumn "@ + column + ": "@ + response + "\n"@,
        OperationType::Count => "Counted "@ + response + " total rows\n"@,
        _ => response,
    }
}

/// Writes the answer to an action as shown to the user. `column` is the
/// summed column, and is read for a sum only.
pub fn render_result(kind: OperationType, column: &str, response: &str) -> (line: String)
    ensures
        line@ == result_line(kind, column@, response@),
{
    match kind {
        OperationType::Sum => {
            let mut line = String::from_str("Sum of collumn ");
            line.append(column);
            line.append(": ");
            line.append(response);
            line.append("\n");
            line
        },
        OperationType::Count => {
            let mut line = String::from_str("Counted ");
            line.append(response);
            line.append(" total rows\n");
            line
        },
        _ => String::from_str(response),
    }
}

} // verus!
