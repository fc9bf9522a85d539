//! Sanitizing user input before logging: control characters are escaped so a
//! client cannot forge log lines, and long input is truncated.

use vstd::prelude::*;
use vstd::string::StringSliceAdditionalSpecFns;
use vstd::utf8::encode_utf8;

verus! {

/// Maximum allowed message length in bytes.
pub const MAX_MESSAGE_LENGTH: usize = 4096;

/// Maximum allowed line length when reading from a socket.
pub const MAX_LINE_LENGTH: usize = 4096;

/// Read timeout for socket operations, in seconds.
pub const READ_TIMEOUT_SECS: u64 = 30;

/// Maximum concurrent connections the server will accept.
pub const MAX_CONNECTIONS: usize = 10000;

/// Rate limit: maximum messages per second per user.
pub const MAX_MESSAGES_PER_SECOND: u32 = 10;

/// Rate limit: burst capacity for message rate limiting.
pub const MESSAGE_BURST_CAPACITY: u32 = 20;

/// Whether a codepoint is a control code: the ranges U+0000 to U+001F and
/// U+007F to U+009F.
pub open spec fn control_char(c: char) -> bool {
    c < ' ' || ('\u{7f}' <= c && c <= '\u{9f}')
}

/// Whether a codepoint is a control code.
pub fn is_control_char(c: char) -> (r: bool)
    ensures
        r == control_char(c),
{
    c < ' ' || ('\u{7f}' <= c && c <= '\u{9f}')
}

/// The lower-case hex digit for a value below 16.
pub open spec fn hex_digit_spec(n: int) -> char {
    if n == 0 {
        '0'
    } else if n == 1 {
        '1'
    } else if n == 2 {
        '2'
    } else if n == 3 {
        '3'
    } else if n == 4 {
        '4'
    } else if n == 5 {
        '5'
    } else if n == 6 {
        '6'
    } else if n == 7 {
        '7'
    } else if n == 8 {
        '8'
    } else if n == 9 {
        '9'
    } else if n == 10 {
        'a'
    } else if n == 11 {
        'b'
    } else if n == 12 {
        'c'
    } else if n == 13 {
        'd'
    } else if n == 14 {
        'e'
    } else {
        'f'
    }
}

fn hex_digit_char(n: u8) -> (r: char)
    requires
        n < 16,
    ensures
        r == hex_digit_spec(n as int),
{
    if n == 0 {
        '0'
    } else if n == 1 {
        '1'
    } else if n == 2 {
        '2'
    } else if n == 3 {
        '3'
    } else if n == 4 {
        '4'
    } else if n == 5 {
        '5'
    } else if n == 6 {
        '6'
    } else if n == 7 {
        '7'
    } else if n == 8 {
        '8'
    } else if n == 9 {
        '9'
    } else if n == 10 {
        'a'
    } else if n == 11 {
        'b'
    } else if n == 12 {
        'c'
    } else if n == 13 {
        'd'
    } else if n == 14 {
        'e'
    } else {
        'f'
    }
}

/// What one codepoint contributes to the sanitized log text: named escapes
/// for newline, carriage return, tab and NUL; a `\xNN` escape per UTF-8 byte
/// for the other control codes; the codepoint itself otherwise.
pub open spec fn escape_char(c: char) -> Seq<char> {
    if c == '\n' {
        "\\n"@
    } else if c == '\r' {
        "\\r"@
    } else if c == '\t' {
        "\\t"@
    } else if c == '\0' {
        "\\0"@
    } else if control_char(c) {
        if c <= '\u{7f}' {
            seq!['\\', 'x', hex_digit_spec(c as u32 as int / 16), hex_digit_spec(c as u32 as int % 16)]
        } else {
            seq!['\\', 'x', 'c', '2', '\\', 'x', hex_digit_spec(c as u32 as int / 16), hex_digit_spec(c as u32 as int % 16)]
        }
    } else {
        seq![c]
    }
}

/// The sanitized form of a whole string, codepoint by codepoint.
pub open spec fn sanitize_spec(s: Seq<char>) -> Seq<char>
    decreases s.len(),
{
    if s.len() == 0 {
        Seq::empty()
    } else {
        sanitize_spec(s.drop_last()) + escape_char(s[s.len() - 1])
    }
}

/// Relies on `alloc::string::String::push`: appends one codepoint.
#[verifier::external_body]
fn push_char(s: &mut String, c: char)
    ensures
        final(s)@ == old(s)@.push(c),
{
    s.push(c)
}

/// Escapes control characters so logged user input cannot forge log lines.
pub fn sanitize_for_log(s: &str) -> (r: String)
    ensures
        r@ == sanitize_spec(s@),
{
    let n = s.unicode_len();
    let mut result = String::new();
    let mut i: usize = 0;
    while i < n
        invariant
            0 <= i <= n,
            n == s@.len(),
            result@ == sanitize_spec(s@.subrange(0, i as int)),
        decreases n - i,
    {
        let c = s.get_char(i);
        if c == '\n' {
            result.append("\\n");
        } else if c == '\r' {
            result.append("\\r");
        } else if c == '\t' {
            result.append("\\t");
        } else if c == '\0' {
            result.append("\\0");
        } else if is_control_char(c) {
            if c <= '\u{7f}' {
                result.append("\\x");
                push_char(&mut result, hex_digit_char((c as u32 / 16) as u8));
                push_char(&mut result, hex_digit_char((c as u32 % 16) as u8));
            } else {
                result.append("\\xc2\\x");
                push_char(&mut result, hex_digit_char((c as u32 / 16) as u8));
                push_char(&mut result, hex_digit_char((c as u32 % 16) as u8));
            }
        } else {
            push_char(&mut result, c);
        }
        proof {
            reveal_strlit("\\n");
            reveal_strlit("\\r");
            reveal_strlit("\\t");
            reveal_strlit("\\0");
            reveal_strlit("\\x");
            reveal_strlit("\\xc2\\x");
            assert(s@.subrange(0, i + 1).drop_last() =~= s@.subrange(0, i as int));
            assert(s@.subrange(0, i + 1)[i as int] == s@[i as int]);
            assert(result@ =~= sanitize_spec(s@.subrange(0, i as int)) + escape_char(s@[i as int]));
        }
        i += 1;
    }
    proof {
        assert(s@.subrange(0, n as int) =~= s@);
    }
    result
}

/// What truncation keeps: the whole string when its UTF-8 length fits, else
/// its first `max - 3` codepoints (never fewer than zero) followed by `...`.
pub open spec fn truncate_spec(s: Seq<char>, max: int) -> Seq<char> {
    if encode_utf8(s).len() <= max {
        s
    } else {
        let keep = if max >= 3 {
            max - 3
        } else {
            0
        };
        if keep <= s.len() {
            s.subrange(0, keep) + "..."@
        } else {
            s + "..."@
        }
    }
}

/// Truncates a string for logging, appending `...` when it was cut.
pub fn truncate_for_log(s: &str, max_len: usize) -> (r: String)
    ensures
        r@ == truncate_spec(s@, max_len as int),
{
    broadcast use vstd::slice::axiom_spec_len;

    if s.as_bytes().len() <= max_len {
        return s.to_owned();
    }
    let keep: usize = if max_len >= 3 {
        max_len - 3
    } else {
        0
    };
    let n = s.unicode_len();
    let k = if keep <= n {
        keep
    } else {
        n
    };
    let head = s.substring_char(0, k);
    proof {
        if keep > n {
            assert(s@.subrange(0, n as int) =~= s@);
        }
    }
    head.to_owned().concat("...")
}

} // verus!
