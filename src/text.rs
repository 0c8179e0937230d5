use vstd::prelude::*;
use vstd::string::StrSliceExecFns;
use vstd::string::StringExecFns;

use crate::gate::{clamped_level, MAX_LEVEL};

verus! {

/// The character of a decimal digit `d < 10`.
pub open spec fn digit_char(d: nat) -> char {
    (d + 48) as char
}

/// The decimal numeral of `n`, without leading zeros.
pub open spec fn decimal(n: nat) -> Seq<char>
    decreases n,
{
    if n < 10 {
        seq![digit_char(n)]
    } else {
        decimal(n / 10) + seq![digit_char(n % 10)]
    }
}

/// The one-character string of the digit `d`.
fn digit_str(d: u32) -> (r: &'static str)
    requires
        d < 10,
    ensures
        r@ == seq![digit_char(d as nat)],
{
    let digits = "0123456789";
    proof {
        reveal_strlit("0123456789");
    }
    let r = digits.substring_char(d as usize, d as usize + 1);
    assert(r@ =~= seq![digit_char(d as nat)]);
    r
}

/// Appends the decimal numeral of `n` to `s`.
pub fn push_decimal(s: &mut String, n: u32)
    ensures
        final(s)@ == old(s)@ + decimal(n as nat),
    decreases n,
{
    if n >= 10 {
        push_decimal(s, n / 10);
    }
    s.append(digit_str(n % 10));
    assert(s@ =~= old(s)@ + decimal(n as nat));
}

/// `n` copies of the two-space indent.
pub open spec fn indent(n: nat) -> Seq<char>
    decreases n,
{
    if n == 0 {
        Seq::empty()
    } else {
        indent((n - 1) as nat) + seq![' ', ' ']
    }
}

/// The trace line of a message at level `l <= 9`: the level, a colon and a
/// space, one indent for each step below 9, the message, a line feed.
pub open spec fn trace_text(l: u8, message: Seq<char>) -> Seq<char> {
    decimal(l as nat) + seq![':', ' '] + indent((MAX_LEVEL - l) as nat) + message + seq!['\n']
}

/// The trace line for `message` at `level`, the level clamped to 9 first.
pub fn trace_line(level: u8, message: &str) -> (r: String)
    ensures
        r@ == trace_text(clamped_level(level), message@),
{
    let level = if level > MAX_LEVEL {
        MAX_LEVEL
    } else {
        level
    };
    let mut r = String::new();
    push_decimal(&mut r, level as u32);
    proof {
        reveal_strlit(": ");
        reveal_strlit("\n");
    }
    r.append(": ");
    let ghost head = r@;
    let mut i: u8 = level;
    while i < MAX_LEVEL
        invariant
            level <= i <= MAX_LEVEL,
            r@ == head + indent((i - level) as nat),
        decreases MAX_LEVEL - i,
    {
        proof {
            reveal_strlit("  ");
        }
        r.append("  ");
        i = i + 1;
        assert(r@ =~= head + indent((i - level) as nat));
    }
    r.append(message);
    r.append("\n");
    assert(r@ =~= trace_text(level, message@));
    r
}

/// The text that clears the current terminal line and returns to its start.
pub const CLEAR_LINE: &'static str = "\r\x1B[2K";

/// The tail of the status line, after the thresholds and the sentinel name.
pub const KEY_HELP: &'static str = ": Keys [0-9] set limit, \u{21E7}[0-9] set pause limit, 'q' quits, ' ' continues ";

/// The status line shown while paused: a carriage return, the two thresholds
/// and the sentinel name separated by commas, then the key help.
pub open spec fn status_text(t: (u8, u8), sentinel: Seq<char>) -> Seq<char> {
    seq!['\r'] + decimal(t.0 as nat) + seq![','] + decimal(t.1 as nat) + seq![','] + sentinel
        + KEY_HELP@
}

/// The status line for thresholds `t` and the sentinel file name `sentinel`.
pub fn status_line(t: (u8, u8), sentinel: &str) -> (r: String)
    ensures
        r@ == status_text(t, sentinel@),
{
    proof {
        reveal_strlit("\r");
        reveal_strlit(",");
    }
    let mut r = String::new();
    r.append("\r");
    push_decimal(&mut r, t.0 as u32);
    r.append(",");
    push_decimal(&mut r, t.1 as u32);
    r.append(",");
    r.append(sentinel);
    r.append(KEY_HELP);
    assert(r@ =~= status_text(t, sentinel@));
    r
}

/// The prefix of a sentinel file name; the process id follows it.
pub const SENTINEL_PREFIX: &'static str = "dbg_step_";

/// The name of the sentinel file of the process `pid`.
pub open spec fn sentinel_text(pid: u32) -> Seq<char> {
    SENTINEL_PREFIX@ + decimal(pid as nat)
}

/// The name of the sentinel file of the process `pid`: `dbg_step_` then the
/// process id in decimal.
pub fn sentinel_name(pid: u32) -> (r: String)
    ensures
        r@ == sentinel_text(pid),
{
    let mut r = String::from_str(SENTINEL_PREFIX);
    push_decimal(&mut r, pid);
    r
}

/// The text before the sentinel name in the notice of a found sentinel.
pub const NOTICE_HEAD: &'static str = "{*}: On because '";

/// The text after the sentinel name in the notice of a found sentinel.
pub const NOTICE_TAIL: &'static str = "' was found in the current working directory.";

/// The one-line notice printed when the sentinel file `sentinel` was found.
pub fn sentinel_notice(sentinel: &str) -> (r: String)
    ensures
        r@ == NOTICE_HEAD@ + sentinel@ + NOTICE_TAIL@,
{
    let mut r = String::from_str(NOTICE_HEAD);
    r.append(sentinel);
    r.append(NOTICE_TAIL);
    r
}

/// `bytes` with each line feed (10) replaced by a carriage return (13) and a
/// line feed; every other byte kept as it is.
pub open spec fn crlf(bytes: Seq<u8>) -> Seq<u8>
    decreases bytes.len(),
{
    if bytes.len() == 0 {
        Seq::empty()
    } else {
        let last = bytes.last();
        crlf(bytes.drop_last()) + if last == 10 {
            seq![13u8, 10u8]
        } else {
            seq![last]
        }
    }
}

/// The bytes to send to a raw-mode terminal for `buf`: each line feed becomes
/// a carriage return and a line feed.
pub fn expand_line_endings(buf: &[u8]) -> (r: Vec<u8>)
    ensures
        r@ == crlf(buf@),
{
    let mut r: Vec<u8> = Vec::new();
    let mut i: usize = 0;
    while i < buf.len()
        invariant
            i <= buf@.len(),
            r@ == crlf(buf@.subrange(0, i as int)),
        decreases buf@.len() - i,
    {
        let b = buf[i];
        if b == 10 {
            r.push(13);
            r.push(10);
        } else {
            r.push(b);
        }
        assert(buf@.subrange(0, i + 1).drop_last() =~= buf@.subrange(0, i as int));
        i = i + 1;
    }
    assert(buf@.subrange(0, buf@.len() as int) =~= buf@);
    r
}

} // verus!
