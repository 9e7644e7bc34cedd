//! Line-oriented reads and status-coded writes on a control or data
//! stream. The streams themselves are reached through two trusted
//! wrappers; everything the library puts on or takes off the wire is
//! assembled and checked here, in verified code.
use vstd::prelude::*;
use vstd::std_specs::iter::IteratorSpec;
use vstd::string::StringSliceAdditionalSpecFns;

use crate::numbers::{dec_bytes, push_dec_u64};
use crate::status::Status;

verus! {

/// The error type of the standard streams, held opaquely.
#[verifier::external_type_specification]
#[verifier::external_body]
pub struct ExIoError(std::io::Error);

/// Why a wire operation failed.
#[derive(Debug)]
pub enum WireError {
    /// An outgoing message carried a carriage return or line feed.
    InvalidOutput,
    /// The stream failed.
    Io(std::io::Error),
}

/// Relies on `std::io::Read::read`: at most `max` bytes arrive, and the
/// count the stream reports bounds what lands in the buffer. An empty
/// result means the stream had nothing more to give.
#[verifier::external_body]
fn read_some<R: std::io::Read>(in_: &mut R, max: usize) -> (r: Result<Vec<u8>, std::io::Error>)
    ensures
        r matches Ok(v) ==> v@.len() <= max,
{
    let mut buf = vec![0u8; max];
    match in_.read(&mut buf) {
        Ok(n) => {
            buf.truncate(n);
            Ok(buf)
        },
        Err(e) => Err(e),
    }
}

/// Relies on `std::io::Write::write_all`: the whole buffer is written,
/// or an error comes back.
#[verifier::external_body]
pub(crate) fn write_all_bytes<W: std::io::Write>(out: &mut W, buf: &[u8]) -> (r: Result<(), std::io::Error>) {
    out.write_all(buf)
}

/// Reads bytes until a line feed arrives, inclusively; the stream ending
/// also ends the line. Reading stops one byte past the line cap, so an
/// overlong line comes back whole enough for the parser to reject it.
pub fn read_line<R: std::io::Read>(in_: &mut R) -> (r: Result<Vec<u8>, WireError>)
    ensures
        r matches Ok(buf) ==> buf@.len() <= crate::config::MAX_LINE_LENGTH + 1 && forall|i: int|
            0 <= i < buf@.len() - 1 ==> #[trigger] buf@[i] != 10,
{
    let mut buf: Vec<u8> = Vec::new();
    while buf.len() <= crate::config::MAX_LINE_LENGTH
        invariant
            buf@.len() <= crate::config::MAX_LINE_LENGTH + 1,
            forall|i: int| 0 <= i < buf@.len() ==> #[trigger] buf@[i] != 10,
        decreases crate::config::MAX_LINE_LENGTH + 1 - buf@.len(),
    {
        let chunk = match read_some(in_, 1) {
            Ok(chunk) => chunk,
            Err(e) => {
                return Err(WireError::Io(e));
            },
        };
        if chunk.len() == 0 {
            return Ok(buf);
        }
        let c = chunk[0];
        buf.push(c);
        if c == 10 {
            return Ok(buf);
        }
    }
    Ok(buf)
}

/// Reads whatever the stream has ready, up to one line's worth.
pub fn read<R: std::io::Read>(in_: &mut R) -> (r: Result<Vec<u8>, WireError>)
    ensures
        r matches Ok(v) ==> v@.len() <= crate::config::MAX_LINE_LENGTH,
{
    match read_some(in_, crate::config::MAX_LINE_LENGTH) {
        Ok(v) => Ok(v),
        Err(e) => Err(WireError::Io(e)),
    }
}

/// A text that may stand in a reply line: free of carriage returns and
/// line feeds.
pub open spec fn message_line_ok(m: Seq<char>) -> bool {
    forall|i: int| 0 <= i < m.len() ==> m[i] != '\r' && m[i] != '\n'
}

/// Checks a reply text for stray line endings.
pub fn validate_outgoing_message(msg: &str) -> (r: Result<(), WireError>)
    ensures
        r is Ok <==> message_line_ok(msg@),
        r matches Err(e) ==> e is InvalidOutput,
{
    broadcast use vstd::string::next_postcondition, vstd::string::axiom_spec_iter;

    let mut it = msg.chars();
    let ghost mut seen: int = 0;
    loop
        invariant
            0 <= seen <= msg@.len(),
            it.remaining() == msg@.skip(seen),
            forall|i: int| 0 <= i < seen ==> msg@[i] != '\r' && #[trigger] msg@[i] != '\n',
        decreases msg@.len() - seen,
    {
        match it.next() {
            Some(c) => {
                proof {
                    assert(c == msg@[seen]);
                    assert(it.remaining() =~= msg@.skip(seen + 1));
                    seen = seen + 1;
                }
                if c == '\r' || c == '\n' {
                    return Err(WireError::InvalidOutput);
                }
            },
            None => {
                proof {
                    assert(msg@.skip(seen).len() == 0);
                }
                return Ok(());
            },
        }
    }
}

/// One rendered reply line: the status in decimal, a space on the final
/// line of a reply and a dash on every other, the text, then CRLF.
pub open spec fn spec_reply_line(status: Status, line: &str, last: bool) -> Seq<u8> {
    dec_bytes(status as int) + seq![if last {
        32u8
    } else {
        45u8
    }] + line.spec_bytes() + seq![13u8, 10u8]
}

/// Renders one reply line.
pub fn render_reply_line(status: Status, line: &str, last: bool) -> (r: Vec<u8>)
    ensures
        r@ == spec_reply_line(status, line, last),
{
    let mut out: Vec<u8> = Vec::new();
    push_dec_u64(status as u64, &mut out);
    out.push(if last {
        32
    } else {
        45
    });
    out.extend_from_slice(line.as_bytes());
    out.push(13);
    out.push(10);
    proof {
        assert(out@ =~= spec_reply_line(status, line, last));
    }
    out
}

/// Writes `"<status> <message>"` and a line ending to the stream. The
/// count of bytes handed to the stream comes back.
pub fn write<W: std::io::Write>(out: &mut W, status: Status, msg: &str) -> (r: Result<
    usize,
    WireError,
>)
    ensures
        !message_line_ok(msg@) <==> (r matches Err(e) && e is InvalidOutput),
        r matches Ok(n) ==> n == spec_reply_line(status, msg, true).len(),
{
    if let Err(e) = validate_outgoing_message(msg) {
        return Err(e);
    }
    let line = render_reply_line(status, msg, true);
    match write_all_bytes(out, line.as_slice()) {
        Ok(()) => Ok(line.len()),
        Err(e) => Err(WireError::Io(e)),
    }
}

/// Writes a reply of several lines: every line but the last takes a dash
/// after the status, the last a space. An empty reply writes nothing.
pub fn write_multiline<W: std::io::Write>(out: &mut W, status: Status, msg: &[&str]) -> (r: Result<
    Vec<usize>,
    WireError,
>)
    ensures
        (exists|i: int| 0 <= i < msg@.len() && !message_line_ok(#[trigger] msg@[i]@)) <==> (
        r matches Err(e) && e is InvalidOutput),
        r matches Ok(v) ==> v@.len() == msg@.len() && forall|i: int| 0 <= i < v@.len()
            ==> #[trigger] v@[i] == spec_reply_line(status, msg@[i], i == msg@.len() - 1).len(),
        msg@.len() == 0 ==> (r matches Ok(v) && v@.len() == 0),
{
    let mut i: usize = 0;
    while i < msg.len()
        invariant
            i <= msg@.len(),
            forall|j: int| 0 <= j < i ==> message_line_ok(#[trigger] msg@[j]@),
        decreases msg@.len() - i,
    {
        if let Err(e) = validate_outgoing_message(msg[i]) {
            return Err(e);
        }
        i = i + 1;
    }
    let mut result: Vec<usize> = Vec::new();
    let mut k: usize = 0;
    while k < msg.len()
        invariant
            k <= msg@.len(),
            result@.len() == k,
            forall|j: int| 0 <= j < msg@.len() ==> message_line_ok(#[trigger] msg@[j]@),
            forall|j: int| 0 <= j < k ==> #[trigger] result@[j] == spec_reply_line(
                status,
                msg@[j],
                j == msg@.len() - 1,
            ).len(),
        decreases msg@.len() - k,
    {
        let last = k == msg.len() - 1;
        let line = render_reply_line(status, msg[k], last);
        match write_all_bytes(out, line.as_slice()) {
            Ok(()) => {
                result.push(line.len());
            },
            Err(e) => {
                return Err(WireError::Io(e));
            },
        }
        k = k + 1;
    }
    Ok(result)
}

} // verus!
