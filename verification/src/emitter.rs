//! The Result Emitter: frames one result code as the exact byte sequence the
//! client receives. Every result line is `<body>\r\n`, optionally preceded by
//! a bare `\r\n`; the body is the long text from the table in verbose mode,
//! the short code's own bytes otherwise. The host program only writes the
//! returned bytes to the client socket.

use crate::bytes::ascii_bytes;
use crate::codes::{long_for, long_text};
use vstd::prelude::*;

verus! {

/// Carriage return, the command terminator of the wire protocol.
pub const CR: u8 = 13;

/// Line feed; paired with `CR` it ends every result line.
pub const LF: u8 = 10;

/// The `\r\n` pair ending every result line.
pub open spec fn crlf() -> Seq<u8> {
    seq![13u8, 10u8]
}

/// The exact bytes that emitting `code` puts on the wire.
pub open spec fn frame_bytes(code: Seq<u8>, verbose: bool, leading_blank: bool) -> Seq<u8> {
    let lead = if leading_blank {
        crlf()
    } else {
        Seq::<u8>::empty()
    };
    let body = if verbose {
        long_text(code)
    } else {
        code
    };
    lead + body + crlf()
}

/// Frame one result code for the client: optional leading blank line, then
/// the verbose text or the short code, then `\r\n`.
pub fn frame_result(code: &[u8], verbose: bool, leading_blank: bool) -> (r: Vec<u8>)
    ensures
        r@ == frame_bytes(code@, verbose, leading_blank),
{
    let mut out: Vec<u8> = Vec::new();
    if leading_blank {
        out.push(CR);
        out.push(LF);
    }
    if verbose {
        let mut body = long_for(code);
        out.append(&mut body);
    } else {
        out.extend_from_slice(code);
    }
    out.push(CR);
    out.push(LF);
    proof {
        assert(out@ =~= frame_bytes(code@, verbose, leading_blank));
    }
    out
}

} // verus!
