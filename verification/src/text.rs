//! Reading one answer typed at the terminal.

use vstd::prelude::*;
use vstd::string::*;

verus! {

/// `s` without its last character when that character is `c`; otherwise `s`.
pub open spec fn strip_last(s: Seq<char>, c: char) -> Seq<char> {
    if s.len() > 0 && s.last() == c {
        s.drop_last()
    } else {
        s
    }
}

/// A line without its ending: one trailing line feed is removed, then one
/// trailing carriage return.
pub open spec fn clean(line: Seq<char>) -> Seq<char> {
    strip_last(strip_last(line, '\n'), '\r')
}

/// The answer that a line stands for: the cleaned line, or `fallback` when
/// nothing was typed.
pub open spec fn answer(line: Seq<char>, fallback: Seq<char>) -> Seq<char> {
    if clean(line).len() == 0 {
        fallback
    } else {
        clean(line)
    }
}

/// Whether a cleaned answer means yes: the single letter `y`, in either case.
pub open spec fn means_yes(cleaned: Seq<char>) -> bool {
    cleaned.len() == 1 && (cleaned[0] == 'y' || cleaned[0] == 'Y')
}

pub open spec fn is_digit(c: char) -> bool {
    '0' <= c && c <= '9'
}

pub open spec fn all_digits(s: Seq<char>) -> bool {
    forall|i: int| 0 <= i < s.len() ==> is_digit(#[trigger] s[i])
}

/// The number that a sequence of decimal digits writes.
pub open spec fn decimal_value(s: Seq<char>) -> nat
    decreases s.len(),
{
    if s.len() == 0 {
        0
    } else {
        decimal_value(s.drop_last()) * 10 + ((s.last() as u32 - '0' as u32) as nat)
    }
}

/// The digits of an unsigned decimal numeral: the text after one optional
/// leading plus sign.
pub open spec fn numeral_digits(s: Seq<char>) -> Seq<char> {
    if s.len() > 0 && s[0] == '+' {
        s.subrange(1, s.len() as int)
    } else {
        s
    }
}

/// The `usize` that a text writes in decimal, if it writes one: an optional
/// plus sign, then at least one digit and nothing else, with a value that
/// fits.
pub open spec fn decimal_usize(s: Seq<char>) -> Option<usize> {
    let digits = numeral_digits(s);
    if digits.len() > 0 && all_digits(digits) && decimal_value(digits) <= usize::MAX {
        Some(decimal_value(digits) as usize)
    } else {
        None
    }
}

/// The index that a cleaned answer selects: the number it writes, or 0 when
/// it writes none.
pub open spec fn choice_of(cleaned: Seq<char>) -> usize {
    match decimal_usize(cleaned) {
        Some(n) => n,
        None => 0,
    }
}

fn strip_trailing<'a>(s: &'a str, c: char) -> (stripped: &'a str)
    ensures
        stripped@ == strip_last(s@, c),
{
    let n: usize = s.unicode_len();
    if n > 0 && s.get_char(n - 1) == c {
        s.substring_char(0, n - 1)
    } else {
        s
    }
}

/// Removes the line ending that a terminal leaves on a line it has read.
pub fn clean_string(string: String) -> (cleaned: String)
    ensures
        cleaned@ == clean(string@),
{
    let without_lf = strip_trailing(string.as_str(), '\n');
    let without_cr = strip_trailing(without_lf, '\r');
    without_cr.to_owned()
}

/// Cleans a line and puts `fallback` in its place when nothing was typed.
pub fn answer_or(line: String, fallback: &str) -> (given: String)
    ensures
        given@ == answer(line@, fallback@),
{
    let cleaned = clean_string(line);
    if cleaned.as_str().is_empty() {
        fallback.to_owned()
    } else {
        cleaned
    }
}

/// Tells whether a cleaned answer to a yes/no question means yes.
pub fn is_yes(cleaned: &str) -> (yes: bool)
    ensures
        yes == means_yes(cleaned@),
{
    if cleaned.unicode_len() == 1 {
        let c = cleaned.get_char(0);
        c == 'y' || c == 'Y'
    } else {
        false
    }
}

/// The value of a numeral's leading digits is at most the value of the
/// whole numeral.
proof fn lemma_prefix_value(s: Seq<char>, k: int)
    requires
        0 <= k <= s.len(),
    ensures
        decimal_value(s.subrange(0, k)) <= decimal_value(s),
    decreases s.len() - k,
{
    if k < s.len() {
        lemma_prefix_value(s.drop_last(), k);
        assert(s.drop_last().subrange(0, k) =~= s.subrange(0, k));
    } else {
        assert(s.subrange(0, k) =~= s);
    }
}

/// A text with a character outside ASCII writes no number.
proof fn lemma_not_ascii_is_no_numeral(s: Seq<char>)
    requires
        !vstd::utf8::is_ascii_chars(s),
    ensures
        decimal_usize(s) is None,
{
    let i = choose|i: int| 0 <= i < s.len() && !('\0' <= #[trigger] s[i] <= '\u{7f}');
    let digits = numeral_digits(s);
    if s.len() > 0 && s[0] == '+' {
        assert(digits[i - 1] == s[i]);
        assert(!is_digit(digits[i - 1]));
    } else {
        assert(!is_digit(digits[i]));
    }
}

/// Reads the `usize` that a text writes in decimal, as `str::parse` does:
/// an optional plus sign, then digits only, at least one, with a value that
/// fits.
pub fn parse_usize(s: &str) -> (parsed: Option<usize>)
    ensures
        parsed == decimal_usize(s@),
{
    broadcast use is_ascii_spec_bytes;

    if !s.is_ascii() {
        proof {
            lemma_not_ascii_is_no_numeral(s@);
        }
        return None;
    }
    let bytes = s.as_bytes();
    let n: usize = bytes.len();
    let start: usize = if n > 0 && bytes[0] == 43u8 {
        1
    } else {
        0
    };
    let ghost digits = numeral_digits(s@);
    assert(digits =~= s@.subrange(start as int, n as int));
    if start == n {
        return None;
    }
    let mut acc: usize = 0;
    let mut i: usize = start;
    while i < n
        invariant
            start <= i <= n,
            n == bytes@.len(),
            n == s@.len(),
            digits == numeral_digits(s@),
            digits == s@.subrange(start as int, n as int),
            vstd::utf8::is_ascii_chars(s@),
            forall|j: int| 0 <= j < n ==> bytes@[j] == s@[j] as u8,
            all_digits(digits.subrange(0, i - start)),
            acc as nat == decimal_value(digits.subrange(0, i - start)),
        decreases n - i,
    {
        let b: u8 = bytes[i];
        assert(digits[i - start] == s@[i as int]);
        if b < 48u8 || b > 57u8 {
            assert(!is_digit(digits[i - start]));
            return None;
        }
        let d: usize = (b - 48u8) as usize;
        let ghost next = digits.subrange(0, i - start + 1);
        proof {
            assert(next.drop_last() =~= digits.subrange(0, i - start));
            assert(next.last() == s@[i as int]);
            assert(decimal_value(next) == acc * 10 + d);
            lemma_prefix_value(digits, i - start + 1);
            assert forall|j: int| 0 <= j < next.len() implies is_digit(#[trigger] next[j]) by {
                if j < i - start {
                    assert(digits.subrange(0, i - start)[j] == next[j]);
                }
            }
        }
        if acc > (usize::MAX - d) / 10 {
            return None;
        }
        acc = acc * 10 + d;
        i += 1;
    }
    assert(digits.subrange(0, n - start) =~= digits);
    Some(acc)
}

/// Reads the index that a cleaned answer selects; an answer that is no
/// number selects 0.
pub fn parse_choice(cleaned: &str) -> (choice: usize)
    ensures
        choice == choice_of(cleaned@),
{
    match parse_usize(cleaned) {
        Some(n) => n,
        None => 0,
    }
}

/// Cleaning removes the ending of a line and nothing else: a carriage
/// return and line feed, a line feed alone, or a carriage return alone
/// after text that does not itself end in one; a text without any of them
/// stays as it is.
pub proof fn ending_is_removed(body: Seq<char>)
    ensures
        clean(body + seq!['\r', '\n']) == body,
        body.len() == 0 || body.last() != '\r' ==> clean(body + seq!['\n']) == body,
        body.len() == 0 || (body.last() != '\r' && body.last() != '\n') ==> clean(
            body + seq!['\r'],
        ) == body,
        body.len() == 0 || (body.last() != '\r' && body.last() != '\n') ==> clean(body) == body,
{
    let crlf = body + seq!['\r', '\n'];
    assert(crlf.drop_last() =~= body + seq!['\r']);
    assert((body + seq!['\r']).drop_last() =~= body);
    assert((body + seq!['\n']).drop_last() =~= body);
}

} // verus!
