//! Line framing of protocol messages: one JSON object per line.
use vstd::prelude::*;
use crate::json::parsed_json;
use crate::process::chars_of;
use crate::protocol::{JsonRpcMessage, MessageError, message_ok, message_read_from};

verus! {

/// Unicode's White_Space set, the whitespace that `str::trim` removes.
pub open spec fn is_white_space(c: char) -> bool {
    let v = c as u32;
    (0x9 <= v && v <= 0xD) || v == 0x20 || v == 0x85 || v == 0xA0 || v == 0x1680 || (0x2000 <= v && v <= 0x200A)
        || v == 0x2028 || v == 0x2029 || v == 0x202F || v == 0x205F || v == 0x3000
}

pub open spec fn trim_start(s: Seq<char>) -> Seq<char>
    decreases s.len(),
{
    if s.len() > 0 && is_white_space(s[0]) {
        trim_start(s.drop_first())
    } else {
        s
    }
}

pub open spec fn trim_end(s: Seq<char>) -> Seq<char>
    decreases s.len(),
{
    if s.len() > 0 && is_white_space(s.last()) {
        trim_end(s.drop_last())
    } else {
        s
    }
}

/// The text with leading and trailing whitespace removed.
pub open spec fn trimmed(s: Seq<char>) -> Seq<char> {
    trim_end(trim_start(s))
}

fn white_space(c: char) -> (r: bool)
    ensures
        r == is_white_space(c),
{
    let v = c as u32;
    (0x9 <= v && v <= 0xD) || v == 0x20 || v == 0x85 || v == 0xA0 || v == 0x1680 || (0x2000 <= v && v <= 0x200A)
        || v == 0x2028 || v == 0x2029 || v == 0x202F || v == 0x205F || v == 0x3000
}

/// The line without surrounding whitespace (the newline that ends it
/// included).
fn trim_line(s: &str) -> (r: &str)
    ensures
        r@ == trimmed(s@),
{
    let t = chars_of(s);
    let n = t.len();
    let mut i: usize = 0;
    assert(s@.subrange(0, n as int) =~= s@);
    while i < n && white_space(t[i])
        invariant
            t@ == s@,
            n == s@.len(),
            i <= n,
            trim_start(s@) == trim_start(s@.subrange(i as int, n as int)),
        decreases n - i,
    {
        proof {
            assert(s@.subrange(i as int, n as int).drop_first() =~= s@.subrange(i + 1, n as int));
        }
        i = i + 1;
    }
    proof {
        assert(trim_start(s@) == s@.subrange(i as int, n as int));
    }
    let mut j: usize = n;
    while j > i && white_space(t[j - 1])
        invariant
            t@ == s@,
            n == s@.len(),
            i <= j <= n,
            trimmed(s@) == trim_end(s@.subrange(i as int, j as int)),
        decreases j - i,
    {
        proof {
            assert(s@.subrange(i as int, j as int).drop_last() =~= s@.subrange(i as int, j - 1));
        }
        j = j - 1;
    }
    s.substring_char(i, j)
}

/// Why a message could not be read or written.
#[derive(Debug)]
pub enum CodecError {
    /// Reading or writing the pipe failed.
    Io(String),
    /// The line is not a message.
    Json(MessageError),
}

/// Reads one line as a message: `None` for a line that is blank once
/// trimmed, the message, or why it is not one.
pub fn decode_line(line: &str) -> (r: Result<Option<JsonRpcMessage>, CodecError>)
    ensures
        trimmed(line@).len() == 0 ==> r matches Ok(None),
        trimmed(line@).len() > 0 ==> match parsed_json(trimmed(line@)) {
            Some(m) => if message_ok(m) {
                r matches Ok(Some(msg)) && message_read_from(msg, m)
            } else {
                r matches Err(CodecError::Json(_))
            },
            None => r matches Err(CodecError::Json(MessageError::Malformed(_))),
        },
{
    let text = trim_line(line);
    if text.unicode_len() == 0 {
        return Ok(None);
    }
    match JsonRpcMessage::parse(text) {
        Ok(msg) => Ok(Some(msg)),
        Err(e) => Err(CodecError::Json(e)),
    }
}

/// The bytes written for one message: its text and a newline.
pub fn frame_line(text: &str) -> (r: String)
    ensures
        r@ == text@ + seq!['\n'],
{
    let mut out = String::from_str(text);
    out.append("\n");
    proof {
        reveal_strlit("\n");
    }
    out
}

} // verus!
