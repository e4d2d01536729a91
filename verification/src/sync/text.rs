//! Text handling for the answers of the version-control client: lines,
//! decimal numbers, and matches of regular expressions.

use regex::Regex;
use vstd::prelude::*;

verus! {

/// The index of the first line feed in `text`, or its length if it has none.
pub open spec fn first_line_feed(text: Seq<char>) -> int
    decreases text.len(),
{
    if text.len() == 0 || text[0] == '\n' {
        0
    } else {
        1 + first_line_feed(text.skip(1))
    }
}

/// The pieces of `text` between its line feeds: one more piece than there
/// are line feeds, so text without any is one piece, and two line feeds in
/// a row have an empty piece between them.
pub open spec fn lines_of(text: Seq<char>) -> Seq<Seq<char>>
    decreases text.len(),
{
    let end = first_line_feed(text);
    if 0 <= end < text.len() {
        seq![text.take(end)] + lines_of(text.skip(end + 1))
    } else {
        seq![text]
    }
}

/// The texts of `strings`, in order.
pub open spec fn texts_of(strings: Seq<String>) -> Seq<Seq<char>> {
    strings.map_values(|s: String| s@)
}

/// Where the first line feed of a text is, given that it is not before
/// `k` and that the text ends or has a line feed at `k`.
proof fn lemma_first_line_feed(text: Seq<char>, k: int)
    requires
        0 <= k <= text.len(),
        forall|j: int| 0 <= j < k ==> text[j] != '\n',
        k < text.len() ==> text[k] == '\n',
    ensures
        first_line_feed(text) == k,
    decreases k,
{
    if k > 0 {
        let rest = text.skip(1);
        assert forall|j: int| 0 <= j < k - 1 implies rest[j] != '\n' by {
            assert(rest[j] == text[j + 1]);
        }
        lemma_first_line_feed(rest, k - 1);
    }
}

/// Cuts `text` at every line feed.
pub fn split_lines(text: &str) -> (lines: Vec<String>)
    ensures
        texts_of(lines@) == lines_of(text@),
{
    let mut lines: Vec<String> = Vec::new();
    let mut start: usize = 0;
    let mut at: usize = 0;
    let len = text.unicode_len();
    proof {
        assert(text@.skip(0) =~= text@);
        assert(texts_of(lines@) =~= Seq::<Seq<char>>::empty());
    }
    for c in chars: text.chars()
        invariant
            len == text@.len(),
            at == chars.index(),
            chars.seq() == text@,
            0 <= start <= at <= len,
            forall|j: int| start <= j < at ==> text@[j] != '\n',
            texts_of(lines@) + lines_of(text@.skip(start as int)) == lines_of(text@),
    {
        if c == '\n' {
            let ghost rest = text@.skip(start as int);
            let ghost before = texts_of(lines@);
            proof {
                assert forall|j: int| 0 <= j < at - start implies rest[j] != '\n' by {
                    assert(rest[j] == text@[start + j]);
                }
                lemma_first_line_feed(rest, at - start);
                assert(rest.take(at - start) =~= text@.subrange(start as int, at as int));
                assert(rest.skip(at - start + 1) =~= text@.skip(at + 1));
            }
            let line = String::from_str(text.substring_char(start, at));
            lines.push(line);
            proof {
                assert(texts_of(lines@) =~= before.push(line@));
                assert(before + (seq![line@] + lines_of(text@.skip(at + 1))) =~= before.push(
                    line@,
                ) + lines_of(text@.skip(at + 1)));
            }
            start = at + 1;
        }
        at = at + 1;
    }
    let ghost rest = text@.skip(start as int);
    let ghost before = texts_of(lines@);
    proof {
        assert forall|j: int| 0 <= j < rest.len() implies rest[j] != '\n' by {
            assert(rest[j] == text@[start + j]);
        }
        lemma_first_line_feed(rest, rest.len() as int);
        assert(rest =~= text@.subrange(start as int, len as int));
    }
    let line = String::from_str(text.substring_char(start, len));
    lines.push(line);
    proof {
        assert(texts_of(lines@) =~= before.push(line@));
        assert(before + seq![rest] =~= before.push(line@));
    }
    lines
}

/// What `Regex::captures` finds for capture group `group` when the regular
/// expression `pattern` is searched in `haystack`: the text of that group in
/// the leftmost match, or `None` if there is no match, if the group took no
/// part in it, or if `pattern` is no regular expression.
pub uninterp spec fn regex_capture(pattern: Seq<char>, haystack: Seq<char>, group: nat) -> Option<
    Seq<char>,
>;

/// `Regex::new` on `pattern`, then `Regex::captures` on `haystack`, then the
/// text of group `group`. The result depends on the three arguments alone.
#[verifier::external_body]
pub(crate) fn capture(pattern: &str, haystack: &str, group: usize) -> (found: Option<String>)
    ensures
        found is Some == regex_capture(pattern@, haystack@, group as nat) is Some,
        found matches Some(text) ==> Some(text@) == regex_capture(
            pattern@,
            haystack@,
            group as nat,
        ),
{
    match Regex::new(pattern) {
        Ok(regex) => match regex.captures(haystack) {
            Some(groups) => groups.get(group).map(|found| found.as_str().to_string()),
            None => None,
        },
        Err(_) => None,
    }
}

/// Whether `c` is one of the ten ASCII digits.
pub open spec fn is_digit(c: char) -> bool {
    '0' <= c <= '9'
}

/// The value of the ASCII digit `c`.
pub open spec fn digit_value(c: char) -> nat
    recommends
        is_digit(c),
{
    (c as u32 - '0' as u32) as nat
}

/// Whether `text` is made of ASCII digits alone, and of at least one.
pub open spec fn is_decimal(text: Seq<char>) -> bool {
    text.len() > 0 && forall|i: int| 0 <= i < text.len() ==> is_digit(#[trigger] text[i])
}

/// The number that the digits of `text` write in base ten.
pub open spec fn decimal_value(text: Seq<char>) -> nat
    decreases text.len(),
{
    if text.len() == 0 {
        0
    } else {
        10 * decimal_value(text.drop_last()) + digit_value(text.last())
    }
}

/// The number that `text` writes, if it is a decimal number that fits in
/// 32 bits.
pub open spec fn parse_u32(text: Seq<char>) -> Option<u32> {
    if is_decimal(text) && decimal_value(text) <= u32::MAX {
        Some(decimal_value(text) as u32)
    } else {
        None
    }
}

/// The ASCII digit for `d`.
pub open spec fn digit_char(d: nat) -> char
    recommends
        d < 10,
{
    (d + '0' as u32) as char
}

/// `n` written in base ten, without leading zeros.
pub open spec fn decimal_digits(n: nat) -> Seq<char>
    decreases n,
{
    if n < 10 {
        seq![digit_char(n)]
    } else {
        decimal_digits(n / 10).push(digit_char(n % 10))
    }
}

/// Adding digits to a number cannot make it smaller.
pub proof fn lemma_decimal_value_grows(text: Seq<char>, k: int)
    requires
        0 <= k <= text.len(),
    ensures
        decimal_value(text.take(k)) <= decimal_value(text),
    decreases text.len() - k,
{
    if k < text.len() {
        lemma_decimal_value_grows(text, k + 1);
        assert(text.take(k + 1).drop_last() =~= text.take(k));
    } else {
        assert(text.take(k) =~= text);
    }
}

/// A number that is written in base ten reads back as itself.
pub proof fn lemma_written_number_reads_back(n: nat)
    ensures
        is_decimal(decimal_digits(n)),
        decimal_value(decimal_digits(n)) == n,
        n <= u32::MAX ==> parse_u32(decimal_digits(n)) == Some(n as u32),
    decreases n,
{
    if n < 10 {
        let digits = decimal_digits(n);
        assert(digits.drop_last() =~= Seq::<char>::empty());
        assert(decimal_value(digits.drop_last()) == 0);
        assert(digit_value(digit_char(n)) == n);
    } else {
        lemma_written_number_reads_back(n / 10);
        let front = decimal_digits(n / 10);
        let digits = front.push(digit_char(n % 10));
        assert(digits.drop_last() =~= front);
        assert(digit_value(digit_char(n % 10)) == n % 10);
        assert forall|i: int| 0 <= i < digits.len() implies is_digit(#[trigger] digits[i]) by {
            if i < front.len() {
                assert(digits[i] == front[i]);
            }
        }
    }
}

/// Reads `text` as a decimal number of at most 32 bits.
pub fn read_u32(text: &str) -> (number: Option<u32>)
    ensures
        number == parse_u32(text@),
{
    let len = text.unicode_len();
    if len == 0 {
        return None;
    }
    let mut value: u32 = 0;
    let mut i: usize = 0;
    while i < len
        invariant
            0 <= i <= len,
            len == text@.len(),
            forall|j: int| 0 <= j < i ==> is_digit(#[trigger] text@[j]),
            value == decimal_value(text@.take(i as int)),
        decreases len - i,
    {
        let c = text.get_char(i);
        if c < '0' || c > '9' {
            return None;
        }
        let digit: u32 = c as u32 - '0' as u32;
        proof {
            assert(text@.take(i + 1).drop_last() =~= text@.take(i as int));
            assert(text@.take(i + 1).last() == c);
            lemma_decimal_value_grows(text@, i + 1);
        }
        if value > (u32::MAX - digit) / 10 {
            proof {
                assert(decimal_value(text@.take(i + 1)) > u32::MAX);
            }
            return None;
        }
        value = value * 10 + digit;
        i = i + 1;
    }
    proof {
        assert(text@.take(len as int) =~= text@);
    }
    Some(value)
}

/// The text of one ASCII digit.
fn digit_text(d: u32) -> (text: &'static str)
    requires
        d < 10,
    ensures
        text@ == seq![digit_char(d as nat)],
{
    proof {
        reveal_strlit("0");
        reveal_strlit("1");
        reveal_strlit("2");
        reveal_strlit("3");
        reveal_strlit("4");
        reveal_strlit("5");
        reveal_strlit("6");
        reveal_strlit("7");
        reveal_strlit("8");
        reveal_strlit("9");
    }
    let text = if d == 0 {
        "0"
    } else if d == 1 {
        "1"
    } else if d == 2 {
        "2"
    } else if d == 3 {
        "3"
    } else if d == 4 {
        "4"
    } else if d == 5 {
        "5"
    } else if d == 6 {
        "6"
    } else if d == 7 {
        "7"
    } else if d == 8 {
        "8"
    } else {
        "9"
    };
    assert(text@ =~= seq![digit_char(d as nat)]);
    text
}

/// Writes `n` in base ten.
pub fn write_u32(n: u32) -> (text: String)
    ensures
        text@ == decimal_digits(n as nat),
    decreases n,
{
    if n < 10 {
        String::from_str(digit_text(n))
    } else {
        let mut text = write_u32(n / 10);
        text.append(digit_text(n % 10));
        assert(text@ =~= decimal_digits(n as nat));
        text
    }
}

} // verus!
