//! Operations on text: trimming, splitting at a delimiter and decimal numbers.
use vstd::prelude::*;

verus! {

/// `text` without the copies of `suffix` at its end.
pub open spec fn trimmed_end(text: Seq<char>, suffix: Seq<char>) -> Seq<char>
    decreases text.len(),
{
    if suffix.len() > 0 && suffix.is_suffix_of(text) {
        trimmed_end(text.take(text.len() - suffix.len()), suffix)
    } else {
        text
    }
}

/// The parts of `text` before and after the first `delimiter`.
pub open spec fn split_once_at(text: Seq<char>, delimiter: char) -> Option<(Seq<char>, Seq<char>)> {
    match text.index_of_first(delimiter) {
        Some(at) => Some((text.take(at), text.skip(at + 1))),
        None => None,
    }
}

/// The contents of texts, in their order.
pub open spec fn texts_view(texts: Seq<String>) -> Seq<Seq<char>> {
    Seq::new(texts.len(), |i: int| texts[i]@)
}

/// The character of a decimal digit.
pub open spec fn digit_char(digit: int) -> char
    recommends
        0 <= digit < 10,
{
    ('0' as int + digit) as char
}

/// The decimal digits of `number`, the most significant one first.
pub open spec fn decimal_digits(number: nat) -> Seq<char>
    decreases number,
{
    if number < 10 {
        seq![digit_char(number as int)]
    } else {
        decimal_digits(number / 10).push(digit_char((number % 10) as int))
    }
}

/// Whether `text` ends with `suffix`.
pub fn ends_with(text: &str, suffix: &str) -> (found: bool)
    ensures
        found == suffix@.is_suffix_of(text@),
{
    let text_len: usize = text.unicode_len();
    let suffix_len: usize = suffix.unicode_len();
    if suffix_len > text_len {
        return false;
    }
    let start: usize = text_len - suffix_len;
    let mut at: usize = 0;
    while at < suffix_len
        invariant
            at <= suffix_len,
            suffix_len == suffix@.len(),
            start + suffix_len == text@.len(),
            text@.len() <= usize::MAX,
            forall|i: int| 0 <= i < at ==> suffix@[i] == text@[start + i],
        decreases suffix_len - at,
    {
        if text.get_char(start + at) != suffix.get_char(at) {
            assert(text@.subrange(text@.len() - suffix@.len(), text@.len() as int)[at as int] == text@[start + at]);
            return false;
        }
        at = at + 1;
    }
    assert(suffix@ =~= text@.subrange(text@.len() - suffix@.len(), text@.len() as int));
    true
}

/// Removes every copy of `suffix` from the end of `text`.
pub fn trim_end_matches(text: &str, suffix: &str) -> (trimmed: String)
    requires
        suffix@.len() > 0,
    ensures
        trimmed@ == trimmed_end(text@, suffix@),
{
    let mut rest: &str = text;
    while ends_with(rest, suffix)
        invariant
            suffix@.len() > 0,
            trimmed_end(rest@, suffix@) == trimmed_end(text@, suffix@),
        decreases rest@.len(),
    {
        let end: usize = rest.unicode_len() - suffix.unicode_len();
        assert(rest@.subrange(0, end as int) == rest@.take(end as int));
        rest = rest.substring_char(0, end);
    }
    rest.to_owned()
}

/// Splits `text` at the first `delimiter`, which belongs to neither part.
pub fn split_once(text: &str, delimiter: char) -> (parts: Option<(String, String)>)
    ensures
        parts is Some == split_once_at(text@, delimiter) is Some,
        parts matches Some(pair) ==> split_once_at(text@, delimiter) == Some((pair.0@, pair.1@)),
{
    let len: usize = text.unicode_len();
    let mut at: usize = 0;
    while at < len
        invariant
            at <= len,
            len == text@.len(),
            forall|i: int| 0 <= i < at ==> text@[i] != delimiter,
        decreases len - at,
    {
        if text.get_char(at) == delimiter {
            proof {
                text@.index_of_first_ensures(delimiter);
            }
            assert(text@.subrange(0, at as int) == text@.take(at as int));
            assert(text@.subrange(at + 1, len as int) == text@.skip(at + 1));
            return Some(
                (text.substring_char(0, at).to_owned(), text.substring_char(at + 1, len).to_owned()),
            );
        }
        at = at + 1;
    }
    proof {
        text@.index_of_first_ensures(delimiter);
    }
    None
}

/// The text of one decimal digit.
fn digit(value: u64) -> (text: &'static str)
    requires
        value < 10,
    ensures
        text@ == seq![digit_char(value as int)],
{
    proof {
        reveal_strlit("0");
        reveal_strlit("1");
        reveal_strlit("2");
        reveal_strlit("3");
        reveal_strlit("4");
        reveal_strlit("5");
        reveal_strlit("6");
        reveal_strlit("7");
        reveal_strlit("8");
        reveal_strlit("9");
    }
    match value {
        0 => "0",
        1 => "1",
        2 => "2",
        3 => "3",
        4 => "4",
        5 => "5",
        6 => "6",
        7 => "7",
        8 => "8",
        _ => "9",
    }
}

/// `number` in decimal notation.
pub fn decimal(number: u64) -> (text: String)
    ensures
        text@ == decimal_digits(number as nat),
    decreases number,
{
    let mut text: String = if number < 10 { String::new() } else { decimal(number / 10) };
    text.append(digit(number % 10));
    text
}

/// Puts a line behind others.
pub(crate) fn push_line(lines: &mut Vec<String>, line: String)
    ensures
        texts_view(final(lines)@) == texts_view(old(lines)@).push(line@),
{
    lines.push(line);
    assert(texts_view(lines@) =~= texts_view(old(lines)@).push(line@));
}

} // verus!
