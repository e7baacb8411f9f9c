//! Text: how numbers and bytes are written out, and how typed text is read.

use vstd::prelude::*;
use vstd::string::*;

verus! {

/// `String::push` appends one character.
pub assume_specification[ String::push ](string: &mut String, ch: char)
    ensures
        final(string)@ == old(string)@.push(ch),
;

/// `String::pop` takes the last character away and returns it; an empty string stays
/// empty and gives `None`.
pub assume_specification[ String::pop ](string: &mut String) -> (last: Option<char>)
    ensures
        old(string)@.len() == 0 ==> last is None && final(string)@ == old(string)@,
        old(string)@.len() > 0 ==> last == Some(old(string)@.last()) && final(string)@ == old(
            string,
        )@.drop_last(),
;

/// The views of a list of strings.
pub open spec fn texts(strings: Seq<String>) -> Seq<Seq<char>> {
    strings.map_values(|string: String| string@)
}

/// The characters with the Unicode property `White_Space`.
pub open spec fn is_white_space(c: char) -> bool {
    let code = c as u32;
    ||| 0x9 <= code <= 0xd
    ||| code == 0x20
    ||| code == 0x85
    ||| code == 0xa0
    ||| code == 0x1680
    ||| 0x2000 <= code <= 0x200a
    ||| code == 0x2028
    ||| code == 0x2029
    ||| code == 0x202f
    ||| code == 0x205f
    ||| code == 0x3000
}

/// A text without its leading white space.
pub open spec fn without_leading_space(text: Seq<char>) -> Seq<char>
    decreases text.len(),
{
    if text.len() > 0 && is_white_space(text.first()) {
        without_leading_space(text.drop_first())
    } else {
        text
    }
}

/// A text without its trailing white space.
pub open spec fn without_trailing_space(text: Seq<char>) -> Seq<char>
    decreases text.len(),
{
    if text.len() > 0 && is_white_space(text.last()) {
        without_trailing_space(text.drop_last())
    } else {
        text
    }
}

/// A text without the white space around it.
pub open spec fn trimmed(text: Seq<char>) -> Seq<char> {
    without_trailing_space(without_leading_space(text))
}

/// What is left of a text when `prefix` is taken off its front for as long as it
/// stands there.
pub open spec fn without_prefixes(text: Seq<char>, prefix: Seq<char>) -> Seq<char>
    decreases text.len(),
{
    if prefix.len() > 0 && prefix.is_prefix_of(text) {
        without_prefixes(text.skip(prefix.len() as int), prefix)
    } else {
        text
    }
}

/// Calls `str::starts_with` with a string pattern: whether `prefix` stands at the front
/// of `text`.
#[verifier::external_body]
pub(crate) fn starts_with(text: &str, prefix: &str) -> (found: bool)
    ensures
        found == prefix@.is_prefix_of(text@),
{
    text.starts_with(prefix)
}

/// Calls `str::trim_start_matches` with a string pattern: every occurrence of `prefix`
/// at the front of `text` is removed, again and again.
#[verifier::external_body]
pub(crate) fn strip_prefixes<'a>(text: &'a str, prefix: &str) -> (rest: &'a str)
    requires
        prefix@.len() > 0,
    ensures
        rest@ == without_prefixes(text@, prefix@),
{
    text.trim_start_matches(prefix)
}

/// Calls `str::trim`: leading and trailing characters with the Unicode property
/// `White_Space` are removed.
#[verifier::external_body]
pub(crate) fn trim(text: &str) -> (rest: &str)
    ensures
        rest@ == trimmed(text@),
{
    text.trim()
}

/// `first` followed by `second`.
pub fn join(first: &str, second: &str) -> (both: String)
    ensures
        both@ == first@ + second@,
{
    let mut both = first.to_owned();
    both.append(second);
    both
}

/// The character for a digit below sixteen, letters in lower case.
pub open spec fn digit_char(digit: int) -> char {
    if digit < 10 {
        ('0' as int + digit) as char
    } else {
        ('a' as int + digit - 10) as char
    }
}

/// A number in decimal, without leading zeros.
pub open spec fn decimal_text(number: nat) -> Seq<char>
    decreases number,
{
    if number < 10 {
        seq![digit_char(number as int)]
    } else {
        decimal_text(number / 10).push(digit_char((number % 10) as int))
    }
}

/// Bytes in hexadecimal, two lower case digits to a byte.
pub open spec fn hex_text(bytes: Seq<u8>) -> Seq<char> {
    Seq::new(
        2 * bytes.len(),
        |i: int|
            if i % 2 == 0 {
                digit_char(bytes[i / 2] as int / 16)
            } else {
                digit_char(bytes[i / 2] as int % 16)
            },
    )
}

fn digit(value: u8) -> (c: char)
    requires
        value < 16,
    ensures
        c == digit_char(value as int),
{
    match value {
        0 => '0',
        1 => '1',
        2 => '2',
        3 => '3',
        4 => '4',
        5 => '5',
        6 => '6',
        7 => '7',
        8 => '8',
        9 => '9',
        10 => 'a',
        11 => 'b',
        12 => 'c',
        13 => 'd',
        14 => 'e',
        _ => 'f',
    }
}

/// Writes a number in decimal.
pub fn decimal(number: u64) -> (written: String)
    ensures
        written@ == decimal_text(number as nat),
    decreases number,
{
    if number < 10 {
        let mut written = String::new();
        written.push(digit(number as u8));
        assert(written@ =~= decimal_text(number as nat));
        written
    } else {
        let mut written = decimal(number / 10);
        written.push(digit((number % 10) as u8));
        written
    }
}

/// Writes bytes in hexadecimal.
pub fn hex(bytes: &Vec<u8>) -> (written: String)
    ensures
        written@ == hex_text(bytes@),
{
    let mut written = String::new();
    let mut i: usize = 0;
    assert(written@ =~= hex_text(bytes@.take(0)));
    while i < bytes.len()
        invariant
            i <= bytes.len(),
            written@ == hex_text(bytes@.take(i as int)),
        decreases bytes.len() - i,
    {
        let byte: u8 = bytes[i];
        written.push(digit(byte / 16));
        written.push(digit(byte % 16));
        i += 1;
        assert(written@ =~= hex_text(bytes@.take(i as int)));
    }
    assert(bytes@.take(i as int) =~= bytes@);
    written
}

/// `count` copies of `c`.
pub fn repeated(c: char, count: usize) -> (written: String)
    ensures
        written@ == Seq::new(count as nat, |i: int| c),
{
    let mut written = String::new();
    let mut i: usize = 0;
    while i < count
        invariant
            i <= count,
            written@ =~= Seq::new(i as nat, |k: int| c),
        decreases count - i,
    {
        written.push(c);
        i += 1;
    }
    written
}

} // verus!
