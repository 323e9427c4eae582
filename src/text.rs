//! Text helpers: whitespace trimming of queue files and the byte strings
//! that are written to the shell.

use vstd::prelude::*;

verus! {

/// The characters that carry the Unicode `White_Space` property.
pub open spec fn is_white_space(c: char) -> bool {
    let u = c as u32;
    (0x09 <= u && u <= 0x0D) || u == 0x20 || u == 0x85 || u == 0xA0 || u == 0x1680
        || (0x2000 <= u && u <= 0x200A) || u == 0x2028 || u == 0x2029 || u == 0x202F
        || u == 0x205F || u == 0x3000
}

/// `s` without its leading whitespace.
pub open spec fn trim_leading(s: Seq<char>) -> Seq<char>
    decreases s.len(),
{
    if s.len() > 0 && is_white_space(s[0]) {
        trim_leading(s.drop_first())
    } else {
        s
    }
}

/// `s` without its trailing whitespace.
pub open spec fn trim_trailing(s: Seq<char>) -> Seq<char>
    decreases s.len(),
{
    if s.len() > 0 && is_white_space(s.last()) {
        trim_trailing(s.drop_last())
    } else {
        s
    }
}

/// `s` without leading and trailing whitespace.
pub open spec fn trim_ws(s: Seq<char>) -> Seq<char> {
    trim_trailing(trim_leading(s))
}

/// Whether `c` has the Unicode `White_Space` property.
pub fn is_white_space_char(c: char) -> (r: bool)
    ensures
        r == is_white_space(c),
{
    let u = c as u32;
    (0x09 <= u && u <= 0x0D) || u == 0x20 || u == 0x85 || u == 0xA0 || u == 0x1680 || (0x2000 <= u && u
        <= 0x200A) || u == 0x2028 || u == 0x2029 || u == 0x202F || u == 0x205F || u == 0x3000
}

/// The command that a queue file holds: its content with surrounding
/// whitespace removed, and nothing else changed.
pub fn queue_command(content: &str) -> (r: String)
    ensures
        r@ == trim_ws(content@),
{
    let n = content.unicode_len();
    let ghost text = content@;
    let mut start: usize = 0;
    assert(text.subrange(0, n as int) == text);
    while start < n && is_white_space_char(content.get_char(start))
        invariant
            start <= n,
            n == text.len(),
            text == content@,
            trim_leading(text) == trim_leading(text.subrange(start as int, n as int)),
        decreases n - start,
    {
        assert(text.subrange(start as int, n as int).drop_first() == text.subrange(start + 1, n as int));
        start += 1;
    }
    let ghost lead = text.subrange(start as int, n as int);
    assert(trim_leading(lead) == lead);
    let mut end: usize = n;
    while end > start && is_white_space_char(content.get_char(end - 1))
        invariant
            start <= end <= n,
            n == text.len(),
            text == content@,
            lead == text.subrange(start as int, n as int),
            trim_trailing(lead) == trim_trailing(text.subrange(start as int, end as int)),
        decreases end - start,
    {
        assert(text.subrange(start as int, end as int).drop_last() == text.subrange(start as int, end - 1));
        end -= 1;
    }
    let ghost kept = text.subrange(start as int, end as int);
    assert(trim_trailing(kept) == kept);
    String::from_str(content.substring_char(start, end))
}

/// The bytes injected for a queued command: the command followed by a
/// carriage return, the byte that an Enter keystroke sends.
pub fn injection_text(command: &str) -> (r: String)
    ensures
        r@ == command@.push('\r'),
{
    let mut r = String::from_str(command);
    proof {
        reveal_strlit("\r");
    }
    r.append("\r");
    assert(r@ =~= command@.push('\r'));
    r
}

/// A command as a line of input: the command followed by a line feed.
pub fn line_text(command: &str) -> (r: String)
    ensures
        r@ == command@.push('\n'),
{
    let mut r = String::from_str(command);
    proof {
        reveal_strlit("\n");
    }
    r.append("\n");
    assert(r@ =~= command@.push('\n'));
    r
}

/// Whether two strings hold the same characters.
pub fn text_equals(a: &str, b: &str) -> (r: bool)
    ensures
        r == (a@ == b@),
{
    let n = a.unicode_len();
    if n != b.unicode_len() {
        return false;
    }
    let mut i: usize = 0;
    while i < n
        invariant
            i <= n,
            n == a@.len(),
            n == b@.len(),
            forall|j: int| 0 <= j < i ==> a@[j] == b@[j],
        decreases n - i,
    {
        if a.get_char(i) != b.get_char(i) {
            return false;
        }
        i += 1;
    }
    assert(a@ =~= b@);
    true
}

} // verus!
