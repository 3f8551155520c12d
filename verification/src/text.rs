//! Text and framing rules: the newline framing every outgoing line gets, the
//! terminator strip every incoming line gets, and the exact error and
//! greeting messages the operations return.

use vstd::prelude::*;
use vstd::string::StrSliceExecFns;
use vstd::string::StringExecFns;
use vstd::string::StringSliceAdditionalSpecFns;

verus! {

/// `data` with every trailing newline byte removed.
pub open spec fn strip_trailing_newlines(data: Seq<u8>) -> Seq<u8>
    decreases data.len(),
{
    if data.len() > 0 && data.last() == 10u8 {
        strip_trailing_newlines(data.drop_last())
    } else {
        data
    }
}

/// The bytes a transport writes for `data`: the UTF-8 bytes of `data`,
/// normalized to end in exactly one newline terminator — whatever trailing
/// newlines the caller's input carried, one stands on the wire.
pub open spec fn framed_bytes(data: Seq<u8>) -> Seq<u8> {
    strip_trailing_newlines(data).push(10u8)
}

/// Frame one outgoing line: terminate the UTF-8 bytes of `data` with exactly
/// one trailing newline, whether or not `data` already ends in one.
pub fn frame_line(data: &str) -> (r: Vec<u8>)
    ensures
        r@ == framed_bytes(data.spec_bytes()),
{
    let mut bytes = data.as_bytes_vec();
    loop
        invariant
            strip_trailing_newlines(data.spec_bytes()) == strip_trailing_newlines(bytes@),
        ensures
            bytes@ == strip_trailing_newlines(data.spec_bytes()),
        decreases bytes@.len(),
    {
        if bytes.len() == 0 {
            break;
        }
        let last = bytes[bytes.len() - 1];
        if last != 10u8 {
            break;
        }
        bytes.pop();
    }
    bytes.push(10u8);
    bytes
}

/// Every framed line is terminated with exactly one trailing newline: the
/// last byte is a newline, the byte before it (if any) is not, and what
/// stands before the terminator is the caller's data with its own trailing
/// newlines removed — a prefix of the data.
pub proof fn lemma_frame_single_trailing_newline(data: Seq<u8>)
    ensures
        framed_bytes(data).len() >= 1,
        framed_bytes(data).last() == 10u8,
        framed_bytes(data).drop_last() == strip_trailing_newlines(data),
        framed_bytes(data).len() >= 2 ==> framed_bytes(data)[framed_bytes(data).len() - 2]
            != 10u8,
        strip_trailing_newlines(data) == data.take(strip_trailing_newlines(data).len() as int),
{
    lemma_strip_trailing_newlines_prefix(data);
    assert(framed_bytes(data).drop_last() =~= strip_trailing_newlines(data));
    let stripped = strip_trailing_newlines(data);
    if stripped.len() > 0 {
        assert(framed_bytes(data)[framed_bytes(data).len() - 2] == stripped.last());
    }
}

/// Stripping trailing newlines leaves a prefix of the data that does not end
/// in a newline.
pub proof fn lemma_strip_trailing_newlines_prefix(data: Seq<u8>)
    ensures
        strip_trailing_newlines(data).len() <= data.len(),
        strip_trailing_newlines(data) == data.take(strip_trailing_newlines(data).len() as int),
        strip_trailing_newlines(data).len() > 0 ==> strip_trailing_newlines(data).last() != 10u8,
    decreases data.len(),
{
    if data.len() > 0 && data.last() == 10u8 {
        lemma_strip_trailing_newlines_prefix(data.drop_last());
        assert(data.drop_last().take(strip_trailing_newlines(data).len() as int)
            =~= data.take(strip_trailing_newlines(data).len() as int));
    } else {
        assert(data.take(data.len() as int) =~= data);
    }
}

/// An incoming line with its terminator stripped: one trailing newline is
/// removed, and the carriage return of a `\r\n` ending with it. Nothing else
/// is touched; trailing blanks that are part of the payload stay.
pub open spec fn trim_line_spec(s: Seq<char>) -> Seq<char> {
    let without_newline = if s.len() > 0 && s.last() == '\n' {
        s.drop_last()
    } else {
        s
    };
    if without_newline.len() > 0 && without_newline.last() == '\r' {
        without_newline.drop_last()
    } else {
        without_newline
    }
}

/// Strip the trailing line terminator from one incoming line, as the reader
/// loop does before emitting it.
pub fn trim_line_end(s: &str) -> (r: String)
    ensures
        r@ == trim_line_spec(s@),
{
    let len = s.unicode_len();
    let mut end = len;
    if end > 0 && s.get_char(end - 1) == '\n' {
        end = end - 1;
        proof {
            assert(s@.drop_last() =~= s@.take(end as int));
        }
    }
    if end > 0 && s.get_char(end - 1) == '\r' {
        proof {
            assert(s@.take(end as int).last() == s@[end - 1]);
            assert(s@.take(end as int).drop_last() =~= s@.take(end - 1 as int));
        }
        end = end - 1;
    }
    proof {
        assert(s@.take(len as int) =~= s@);
    }
    let trimmed = s.substring_char(0, end);
    trimmed.to_owned()
}

/// The error returned when an operation names an identifier with no registry
/// entry: `Connection <id> not found`.
pub open spec fn not_found_text(id: Seq<char>) -> Seq<char> {
    "Connection "@ + id + " not found"@
}

/// Build the "not found" error message for `connection_id`.
pub fn not_found_message(connection_id: &str) -> (r: String)
    ensures
        r@ == not_found_text(connection_id@),
{
    let mut s = String::from_str("Connection ");
    s.append(connection_id);
    s.append(" not found");
    s
}

/// An operation-tagged error message: `<prefix><detail>`.
pub fn tagged_message(prefix: &str, detail: &str) -> (r: String)
    ensures
        r@ == prefix@ + detail@,
{
    let mut s = String::from_str(prefix);
    s.append(detail);
    s
}

/// The error returned when a serial device cannot be opened:
/// `Failed to open serial port <address>: <cause>`.
pub open spec fn serial_open_error_text(address: Seq<char>, cause: Seq<char>) -> Seq<char> {
    "Failed to open serial port "@ + address + ": "@ + cause
}

/// Build the serial-open error message.
pub fn serial_open_error_message(address: &str, cause: &str) -> (r: String)
    ensures
        r@ == serial_open_error_text(address@, cause@),
{
    let mut s = String::from_str("Failed to open serial port ");
    s.append(address);
    s.append(": ");
    s.append(cause);
    s
}

/// The greeting the host can request: a fixed salutation around the caller's
/// name.
pub open spec fn greeting_text(name: Seq<char>) -> Seq<char> {
    "Hello, "@ + name + "! You've been greeted from Rust!"@
}

/// Greet `name`.
pub fn greet(name: &str) -> (r: String)
    ensures
        r@ == greeting_text(name@),
{
    let mut s = String::from_str("Hello, ");
    s.append(name);
    s.append("! You've been greeted from Rust!");
    s
}

} // verus!
