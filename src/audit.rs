//! Audit log lines: `[YYYY-MM-DD HH:MM:SS UTC] <message>`.

use vstd::prelude::*;

verus! {

/// A decimal digit.
pub open spec fn is_digit(c: char) -> bool {
    '0' <= c && c <= '9'
}

/// A year as `%Y` writes it: four digits, or a sign and at least four digits.
pub open spec fn is_year_text(y: Seq<char>) -> bool {
    ||| y.len() == 4 && forall|i: int| 0 <= i < 4 ==> is_digit(#[trigger] y[i])
    ||| y.len() >= 5 && (y[0] == '+' || y[0] == '-') && forall|i: int| 1 <= i < y.len() ==> is_digit(#[trigger] y[i])
}

/// The text after the year: `-MM-DD HH:MM:SS UTC`, digits in the places of
/// the letters.
pub open spec fn is_stamp_tail(t: Seq<char>) -> bool {
    &&& t.len() == 19
    &&& t[0] == '-' && is_digit(t[1]) && is_digit(t[2])
    &&& t[3] == '-' && is_digit(t[4]) && is_digit(t[5])
    &&& t[6] == ' ' && is_digit(t[7]) && is_digit(t[8])
    &&& t[9] == ':' && is_digit(t[10]) && is_digit(t[11])
    &&& t[12] == ':' && is_digit(t[13]) && is_digit(t[14])
    &&& t.subrange(15, 19) == " UTC"@
}

/// A stamp of the form `YYYY-MM-DD HH:MM:SS UTC`.
pub open spec fn is_utc_stamp(s: Seq<char>) -> bool {
    &&& s.len() >= 23
    &&& is_year_text(s.subrange(0, s.len() - 19))
    &&& is_stamp_tail(s.subrange(s.len() - 19, s.len() as int))
}

/// Relies on `chrono::Utc::now`, formatted by `chrono::DateTime::format`
/// with `%Y-%m-%d %H:%M:%S UTC`: the year (four digits, signed outside
/// 0 to 9999), then month, day, hour, minute and second as two zero-padded
/// digits each, with the pattern's separators and ` UTC`.
#[verifier::external_body]
fn utc_stamp() -> (r: String)
    ensures
        is_utc_stamp(r@),
{
    chrono::Utc::now().format("%Y-%m-%d %H:%M:%S UTC").to_string()
}

/// The audit line for `message` stamped with `stamp`.
pub open spec fn log_line(stamp: Seq<char>, message: Seq<char>) -> Seq<char> {
    "["@ + stamp + "] "@ + message + "\n"@
}

/// Formats one audit line: the stamp in brackets, a space, the message and
/// a line feed.
pub fn format_log_entry(stamp: &str, message: &str) -> (r: String)
    ensures
        r@ == log_line(stamp@, message@),
{
    let mut r = String::from_str("[");
    r.append(stamp);
    r.append("] ");
    r.append(message);
    r.append("\n");
    r
}

/// The audit line for `message`, stamped with the current UTC time in the
/// form `YYYY-MM-DD HH:MM:SS UTC`.
pub fn log_entry(message: &str) -> (r: String)
    ensures
        exists|stamp: Seq<char>|
            #![trigger log_line(stamp, message@)]
            r@ == log_line(stamp, message@) && is_utc_stamp(stamp),
{
    let stamp = utc_stamp();
    format_log_entry(stamp.as_str(), message)
}

} // verus!
