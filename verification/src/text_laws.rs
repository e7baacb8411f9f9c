//! Laws of numbers, bytes and paths as text, and of what the single commands print.

use crate::command::{print_data, read_outcome, report_created, report_written, ReadOutcome};
use crate::payload::{contents, payload, payload_bytes, payload_text, text_payload};
use crate::step::{describe_read, upload_path_of};
use crate::text::{
    decimal, decimal_text, digit_char, hex, hex_text, is_white_space, join, repeated, trimmed,
    without_leading_space, without_prefixes, without_trailing_space,
};
use bytes::Bytes;
use vstd::prelude::*;
use vstd::utf8::{encode_utf8, valid_utf8};

verus! {

/// What a digit stands for, letters in lower case.
pub open spec fn digit_value(c: char) -> int {
    match c {
        '0' => 0,
        '1' => 1,
        '2' => 2,
        '3' => 3,
        '4' => 4,
        '5' => 5,
        '6' => 6,
        '7' => 7,
        '8' => 8,
        '9' => 9,
        'a' => 10,
        'b' => 11,
        'c' => 12,
        'd' => 13,
        'e' => 14,
        'f' => 15,
        _ => -1,
    }
}

/// The number that decimal digits stand for.
pub open spec fn decimal_value(digits: Seq<char>) -> int
    decreases digits.len(),
{
    if digits.len() == 0 {
        0
    } else {
        decimal_value(digits.drop_last()) * 10 + digit_value(digits.last())
    }
}

/// Whether a text is a number in decimal: digits that stand for it, no zero in front.
pub open spec fn is_decimal(text: Seq<char>, number: int) -> bool {
    &&& text.len() > 0
    &&& forall|i: int| #![trigger text[i]] 0 <= i < text.len() ==> 0 <= digit_value(text[i]) < 10
    &&& decimal_value(text) == number
    &&& text.len() > 1 ==> text[0] != '0'
}

/// Whether a text is bytes in hexadecimal: two digits to a byte, the high one first.
pub open spec fn is_hex(text: Seq<char>, bytes: Seq<u8>) -> bool {
    &&& text.len() == 2 * bytes.len()
    &&& forall|i: int|
        #![trigger bytes[i]]
        0 <= i < bytes.len() ==> digit_value(text[2 * i]) == bytes[i] as int / 16 && digit_value(
            text[2 * i + 1],
        ) == bytes[i] as int % 16
}

proof fn lemma_digit(value: int)
    requires
        0 <= value < 16,
    ensures
        digit_value(digit_char(value)) == value,
        digit_char(value) == '0' <==> value == 0,
{
}

proof fn lemma_decimal(number: nat)
    ensures
        is_decimal(decimal_text(number), number as int),
        number > 0 ==> decimal_text(number)[0] != '0',
    decreases number,
{
    let text = decimal_text(number);
    lemma_digit((number % 10) as int);
    if number < 10 {
        assert(text.drop_last() =~= Seq::empty());
        assert(decimal_value(text.drop_last()) == 0);
    } else {
        let front = decimal_text(number / 10);
        lemma_decimal(number / 10);
        assert(text.drop_last() =~= front);
        assert(text[0] == front[0]);
        assert forall|i: int| #![trigger text[i]] 0 <= i < text.len() implies 0 <= digit_value(
            text[i],
        ) < 10 by {
            if i < front.len() {
                assert(text[i] == front[i]);
            }
        }
    }
}

/// Law: the decimal digits of a number stand for it.
pub proof fn decimals_read_back(number: nat)
    ensures
        is_decimal(decimal_text(number), number as int),
{
    lemma_decimal(number);
}

/// Law: a number is written as the decimal digits that stand for it.
pub proof fn numbers_are_written_in_decimal(number: u64, written: String)
    requires
        call_ensures(decimal, (number,), written),
    ensures
        is_decimal(written@, number as int),
{
    lemma_decimal(number as nat);
}

proof fn lemma_hex(bytes: Seq<u8>)
    ensures
        is_hex(hex_text(bytes), bytes),
{
    let text = hex_text(bytes);
    assert forall|i: int| #![trigger bytes[i]] 0 <= i < bytes.len() implies digit_value(text[2 * i])
        == bytes[i] as int / 16 && digit_value(text[2 * i + 1]) == bytes[i] as int % 16 by {
        lemma_digit(bytes[i] as int / 16);
        lemma_digit(bytes[i] as int % 16);
        assert(text[2 * i] == digit_char(bytes[i] as int / 16));
        assert(text[2 * i + 1] == digit_char(bytes[i] as int % 16));
    }
}

/// Law: bytes are written as two hexadecimal digits each.
pub proof fn bytes_are_written_in_hexadecimal(bytes: &Vec<u8>, written: String)
    requires
        call_ensures(hex, (bytes,), written),
    ensures
        is_hex(written@, bytes@),
{
    lemma_hex(bytes@);
}

/// Law: joining puts one text behind the other.
pub proof fn joined_texts_follow_one_another(first: &str, second: &str, both: String, i: int)
    requires
        call_ensures(join, (first, second), both),
    ensures
        both@.len() == first@.len() + second@.len(),
        0 <= i < first@.len() ==> both@[i] == first@[i],
        0 <= i < second@.len() ==> both@[first@.len() + i] == second@[i],
{
}

/// Law: a repeated character stands there as often as asked, and nothing else does.
pub proof fn repetition_is_exact(c: char, count: usize, written: String, i: int)
    requires
        call_ensures(repeated, (c, count), written),
    ensures
        written@.len() == count,
        0 <= i < count ==> written@[i] == c,
{
}

/// Law: a payload keeps the bytes it was made of.
pub proof fn payloads_keep_their_bytes(bytes: Vec<u8>, data: Bytes, back: Vec<u8>)
    requires
        call_ensures(payload, (bytes,), data),
        call_ensures(payload_bytes, (&data,), back),
    ensures
        back@ == bytes@,
        contents(data) == bytes@,
{
}

/// Law: a text that travels as a payload is read as the same text.
pub proof fn texts_travel_as_payloads(text: &str, data: Bytes, back: Option<String>)
    requires
        call_ensures(text_payload, (text,), data),
        call_ensures(payload_text, (&data,), back),
    ensures
        contents(data) == encode_utf8(text@),
        back matches Some(string) && string@ == text@,
{
    vstd::utf8::encode_utf8_valid_utf8(text@);
    vstd::utf8::encode_utf8_decode_utf8(text@);
}

/// Law: a payload is read as the text of which it is the encoding, and not at all where it
/// is the encoding of none.
pub proof fn payloads_are_read_as_text(data: &Bytes, text: Option<String>, any: Seq<char>)
    requires
        call_ensures(payload_text, (data,), text),
    ensures
        text matches Some(string) ==> encode_utf8(string@) == contents(*data),
        text is None ==> encode_utf8(any) != contents(*data),
{
    vstd::utf8::encode_utf8_valid_utf8(any);
    if valid_utf8(contents(*data)) {
        vstd::utf8::decode_utf8_encode_utf8(contents(*data));
    }
}

/// Law: data is printed as the text of which it is the encoding; data that is no text is
/// printed in hexadecimal, every byte of it.
pub proof fn data_is_printed_in_full(data: &Bytes, text: String)
    requires
        call_ensures(print_data, (data,), text),
    ensures
        valid_utf8(contents(*data)) ==> encode_utf8(text@) == contents(*data),
        !valid_utf8(contents(*data)) ==> is_hex(text@, contents(*data)),
{
    lemma_hex(contents(*data));
    if valid_utf8(contents(*data)) {
        vstd::utf8::decode_utf8_encode_utf8(contents(*data));
    }
}

/// Law: without a file, what was read is printed in full.
pub proof fn read_data_is_shown(
    data: &Bytes,
    position: usize,
    length: usize,
    outcome: ReadOutcome,
)
    requires
        call_ensures(read_outcome, (false, data, position, length), outcome),
    ensures
        outcome matches ReadOutcome::Show { text } && if valid_utf8(contents(*data)) {
            encode_utf8(text@) == contents(*data)
        } else {
            is_hex(text@, contents(*data))
        },
{
    lemma_hex(contents(*data));
    if valid_utf8(contents(*data)) {
        vstd::utf8::decode_utf8_encode_utf8(contents(*data));
    }
}

/// Law: with a file, the report names the length and the position that were asked for,
/// whatever was read.
pub proof fn read_to_a_file_is_reported(
    data: &Bytes,
    position: usize,
    length: usize,
    outcome: ReadOutcome,
)
    requires
        call_ensures(read_outcome, (true, data, position, length), outcome),
    ensures
        exists|asked: Seq<char>, place: Seq<char>|
            {
                &&& #[trigger] is_decimal(asked, length as int)
                &&& #[trigger] is_decimal(place, position as int)
                &&& outcome matches ReadOutcome::Save { line } && line@ == "Read "@ + asked
                    + " bytes from position "@ + place + " and wrote to file"@
            },
{
    lemma_decimal(length as nat);
    lemma_decimal(position as nat);
}

/// Law: the report of a created stream names it.
pub proof fn creation_is_reported(stream_id: &str, line: String)
    requires
        call_ensures(report_created, (stream_id,), line),
    ensures
        line@ == "Created stream: "@ + stream_id@,
{
}

/// Law: the report of written data names the number of its bytes, the stream and the
/// position.
pub proof fn writing_is_reported(data: &Bytes, stream_id: &str, position: u64, line: String)
    requires
        call_ensures(report_written, (data, stream_id, position), line),
    ensures
        exists|length: Seq<char>, place: Seq<char>|
            {
                &&& #[trigger] is_decimal(length, contents(*data).len() as int)
                &&& #[trigger] is_decimal(place, position as int)
                &&& line@ == "Wrote "@ + length + " bytes to stream "@ + stream_id@
                    + " at position "@ + place
            },
{
    lemma_decimal(contents(*data).len());
    lemma_decimal(position as nat);
}

/// Law: data read from a stream is shown as the text of which it is the encoding; of other
/// data the number of bytes is told.
pub proof fn read_data_is_told(data: &Bytes, message: String, text: Seq<char>)
    requires
        call_ensures(describe_read, (data,), message),
    ensures
        encode_utf8(text) == contents(*data) ==> message@ == "Read: "@ + text,
        !valid_utf8(contents(*data)) ==> exists|length: Seq<char>| #[trigger]
            is_decimal(length, contents(*data).len() as int) && message@ == "Read "@ + length
                + " bytes of binary data"@,
{
    lemma_decimal(contents(*data).len());
    vstd::utf8::encode_utf8_valid_utf8(text);
    vstd::utf8::encode_utf8_decode_utf8(text);
}

/// The mark `file:` so many times.
pub open spec fn marks(count: nat) -> Seq<char>
    decreases count,
{
    if count == 0 {
        Seq::empty()
    } else {
        "file:"@ + marks((count - 1) as nat)
    }
}

/// Whether a text is all white space.
pub open spec fn is_blank(text: Seq<char>) -> bool {
    forall|i: int| #![trigger text[i]] 0 <= i < text.len() ==> is_white_space(text[i])
}

/// Whether a typed text names a path for upload: it is the path with the mark `file:` in
/// front, any number of times, and white space before and behind it.
pub open spec fn names_path(
    typed: Seq<char>,
    count: nat,
    before: Seq<char>,
    path: Seq<char>,
    behind: Seq<char>,
) -> bool {
    &&& typed == marks(count) + before + path + behind
    &&& is_blank(before) && is_blank(behind)
    &&& path.len() > 0 ==> !is_white_space(path.first()) && !is_white_space(path.last())
    &&& before.len() == 0 ==> !"file:"@.is_prefix_of(path + behind)
}

proof fn lemma_marks_go(count: nat, rest: Seq<char>)
    requires
        !"file:"@.is_prefix_of(rest),
    ensures
        without_prefixes(marks(count) + rest, "file:"@) == rest,
    decreases count,
{
    reveal_strlit("file:");
    if count == 0 {
        assert(marks(count) + rest =~= rest);
    } else {
        let next = marks((count - 1) as nat) + rest;
        let text = marks(count) + rest;
        assert(text =~= "file:"@ + next);
        assert(text.take(5) =~= "file:"@);
        assert(text.skip(5) =~= next);
        lemma_marks_go((count - 1) as nat, rest);
    }
}

proof fn lemma_leading_goes(blank: Seq<char>, rest: Seq<char>)
    requires
        is_blank(blank),
        rest.len() > 0 ==> !is_white_space(rest.first()),
    ensures
        without_leading_space(blank + rest) == rest,
    decreases blank.len(),
{
    if blank.len() == 0 {
        assert(blank + rest =~= rest);
    } else {
        assert(blank[0] == (blank + rest)[0]);
        assert((blank + rest).drop_first() =~= blank.drop_first() + rest);
        lemma_leading_goes(blank.drop_first(), rest);
    }
}

proof fn lemma_trailing_goes(rest: Seq<char>, blank: Seq<char>)
    requires
        is_blank(blank),
        rest.len() > 0 ==> !is_white_space(rest.last()),
    ensures
        without_trailing_space(rest + blank) == rest,
    decreases blank.len(),
{
    if blank.len() == 0 {
        assert(rest + blank =~= rest);
    } else {
        assert(blank[blank.len() - 1] == (rest + blank).last());
        assert((rest + blank).drop_last() =~= rest + blank.drop_last());
        lemma_trailing_goes(rest, blank.drop_last());
    }
}

/// Law: a path is found between marks and white space.
pub proof fn named_path_is_found(
    typed: &str,
    found: String,
    count: nat,
    before: Seq<char>,
    path: Seq<char>,
    behind: Seq<char>,
)
    requires
        call_ensures(upload_path_of, (typed,), found),
        names_path(typed@, count, before, path, behind),
    ensures
        found@ == path,
{
    lemma_named_path(typed@, count, before, path, behind);
}

/// A path is found between marks and white space.
pub(crate) proof fn lemma_named_path(
    typed: Seq<char>,
    count: nat,
    before: Seq<char>,
    path: Seq<char>,
    behind: Seq<char>,
)
    requires
        names_path(typed, count, before, path, behind),
    ensures
        crate::transition::upload_path(typed) == path,
{
    reveal_strlit("file:");
    let rest = before + path + behind;
    assert(typed =~= marks(count) + rest);
    if before.len() == 0 {
        assert(rest =~= path + behind);
    } else {
        assert(rest[0] == before[0]);
        assert(is_white_space(before[0]));
        assert("file:"@[0] == 'f');
        if "file:"@.is_prefix_of(rest) {
            assert(rest.take(5)[0] == rest[0]);
            assert(false);
        }
    }
    lemma_marks_go(count, rest);
    if path.len() == 0 {
        let none = Seq::<char>::empty();
        assert(rest =~= (before + behind) + none);
        lemma_leading_goes(before + behind, none);
        assert(none =~= none + none);
        lemma_trailing_goes(none, none);
    } else {
        assert(rest =~= before + (path + behind));
        assert((path + behind).first() == path.first());
        lemma_leading_goes(before, path + behind);
        lemma_trailing_goes(path, behind);
    }
    assert(trimmed(rest) == path);
}

} // verus!
