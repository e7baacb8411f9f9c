//! Laws of what is shown and printed.

use crate::command::printed;
use crate::layout::{are_columns, are_rows, row_heights, Area, Panels};
use crate::screen::{metadata_text, percentage, progress_bar, stream_style};
use crate::state::AppView;
use crate::text::{decimal_text, digit_char, hex_text};
use vstd::arithmetic::div_mod::{lemma_div_is_ordered, lemma_div_multiples_vanish};
use vstd::prelude::*;
use vstd::utf8::encode_utf8;

verus! {

impl Area {
    /// Whether a cell belongs to the area.
    pub open spec fn has_cell(self, column: int, row: int) -> bool {
        self.x <= column < self.x + self.width && self.y <= row < self.y + self.height
    }
}

impl Panels {
    /// The panels that something is drawn in.
    pub open spec fn drawn(self) -> Seq<Area> {
        seq![self.title, self.input, self.streams, self.details, self.messages]
    }
}

/// Law: no cell of the screen belongs to two panels.
pub proof fn panels_do_not_overlap(
    panels: Panels,
    screen: Area,
    i: int,
    j: int,
    column: int,
    row: int,
)
    requires
        panels.fit(screen),
        0 <= i < panels.drawn().len(),
        0 <= j < panels.drawn().len(),
        panels.drawn()[i].has_cell(column, row),
        panels.drawn()[j].has_cell(column, row),
    ensures
        i == j,
{
    let rows = seq![panels.title, panels.input, panels.content, panels.messages];
    let columns = seq![panels.streams, panels.details];
    assert(are_rows(rows, screen.within_margin(2)));
    assert(are_columns(columns, panels.content));
    assert(rows[0] == panels.title && rows[1] == panels.input && rows[2] == panels.content
        && rows[3] == panels.messages);
    assert(columns[0] == panels.streams && columns[1] == panels.details);
}

/// Law: every cell inside the margin belongs to a panel.
pub proof fn panels_fill_the_screen(panels: Panels, screen: Area, column: int, row: int)
    requires
        panels.fit(screen),
        screen.within_margin(2).x <= column < screen.within_margin(2).right(),
        screen.within_margin(2).y <= row < screen.within_margin(2).bottom(),
    ensures
        exists|i: int|
            0 <= i < panels.drawn().len() && #[trigger] panels.drawn()[i].has_cell(column, row),
{
    let rows = seq![panels.title, panels.input, panels.content, panels.messages];
    let columns = seq![panels.streams, panels.details];
    assert(rows[0] == panels.title && rows[1] == panels.input && rows[2] == panels.content
        && rows[3] == panels.messages);
    assert(columns[0] == panels.streams && columns[1] == panels.details);
    let i: int = if row < panels.input.y {
        0
    } else if row < panels.content.y {
        1
    } else if row >= panels.messages.y {
        4
    } else if column < panels.details.x {
        2
    } else {
        3
    };
    assert(panels.drawn()[i].has_cell(column, row));
}

/// How much the heights of neighbouring rows differ, in all.
pub open spec fn unevenness(first: int, second: int, third: int, fourth: int) -> nat {
    vstd::math::abs(first - second) + vstd::math::abs(second - third) + vstd::math::abs(
        third - fourth,
    )
}

/// Law: rows that do not fit are shared out as evenly as can be. With heights in hundredths
/// of a row, let no row exceed its length and the third be met; then neighbours differ least
/// in exactly one way, and with the ends of the rows rounded to whole rows, halves
/// down the screen, that is [`row_heights`].
pub proof fn rows_differ_least(
    length: int,
    least: int,
    last: int,
    room: int,
    first: int,
    second: int,
    fourth: int,
)
    requires
        0 <= length <= least,
        0 <= last <= least <= room < 2 * length + least + last,
        0 <= first <= 100 * length,
        0 <= second <= 100 * length,
        0 <= fourth <= 100 * last,
        first + second + 100 * least + fourth == 100 * room,
    ensures
        ({
            let heights = row_heights(length, least, last, room);
            let half = 50 * (heights[0] + heights[1]);
            let below = 100 * heights[3];
            let best = unevenness(half, half, 100 * least, below);
            &&& half <= 100 * length && below <= 100 * last
            &&& 2 * half + 100 * least + below == 100 * room
            &&& best <= unevenness(first, second, 100 * least, fourth)
            &&& best == unevenness(first, second, 100 * least, fourth) ==> first == half && second
                == half && fourth == below
            &&& heights[0] == (half + 50) / 100
            &&& heights[0] + heights[1] == (2 * half + 50) / 100
            &&& heights[2] == least
        }),
{
}

/// Law: exactly the selected stream stands out in the list.
pub proof fn only_the_selected_stream_stands_out(state: AppView, i: int)
    requires
        0 <= i < state.streams.len(),
    ensures
        state.stream_labels().len() == state.streams.len(),
        state.stream_labels()[i].text == state.streams[i],
        state.stream_labels()[i].style == stream_style(true) <==> state.selected == Some(i),
{
}

/// Law: in a consistent state without an upload, the details of a selected stream are
/// those of its own metadata.
pub proof fn selected_stream_has_details(state: AppView)
    requires
        state.consistent(),
        state.upload_progress is None,
        state.selected is Some,
    ensures
        state.metadata[state.selected_id()->0].id == state.selected_id()->0,
        state.details() == metadata_text(state.metadata[state.selected_id()->0]),
{
    let stream_id = state.selected_id()->0;
    assert(state.streams.contains(stream_id));
    assert(state.metadata.contains_key(stream_id));
}

/// Law: the more of a file is through, the higher the percentage; nothing is nought, and a
/// hundred is reached exactly when all is through.
pub proof fn percentage_grows(less: int, more: int, total: int)
    requires
        0 <= less <= more,
        total > 0,
    ensures
        0 <= percentage(less, total) <= percentage(more, total),
        percentage(0, total) == 0,
        percentage(total, total) == 100,
        percentage(more, total) >= 100 <==> more >= total,
{
    lemma_div_is_ordered(0, less * 100, total);
    lemma_div_is_ordered(less * 100, more * 100, total);
    lemma_div_multiples_vanish(100, total);
    assert(total * 100 == 100 * total);
    assert(0int / total == 0) by (nonlinear_arith)
        requires
            total > 0,
    ;
    if more >= total {
        lemma_div_is_ordered(total * 100, more * 100, total);
    } else {
        assert((more * 100) / total < 100) by (nonlinear_arith)
            requires
                0 <= more < total,
        ;
    }
}

/// Law: the more of a file is through, the longer the bar, and it is full exactly when all
/// is through, as long as the percentage fits in a machine word.
pub proof fn bar_grows(less: int, more: int, total: int)
    requires
        0 <= less <= more,
        total > 0,
        percentage(more, total) <= usize::MAX,
    ensures
        progress_bar(percentage(less, total) as u64).len() <= progress_bar(
            percentage(more, total) as u64,
        ).len(),
        progress_bar(percentage(more, total) as u64).len() == 50 <==> more >= total,
{
    percentage_grows(less, more, total);
}

/// Law: the bar never exceeds fifty marks, and up to a hundred percent has one for every
/// two.
pub proof fn bar_is_bounded(percentage: u64)
    ensures
        progress_bar(percentage).len() <= 50,
        percentage <= 100 ==> progress_bar(percentage).len() == percentage as int / 2,
{
}

proof fn lemma_digits_differ(a: int, b: int)
    requires
        0 <= a < 16,
        0 <= b < 16,
        digit_char(a) == digit_char(b),
    ensures
        a == b,
{
}

proof fn lemma_decimal_not_empty(number: nat)
    ensures
        decimal_text(number).len() >= 1,
        number >= 10 ==> decimal_text(number).len() >= 2,
    decreases number,
{
    if number >= 10 {
        lemma_decimal_not_empty(number / 10);
    }
}

/// Law: different numbers are written differently.
pub proof fn decimals_differ(a: nat, b: nat)
    requires
        decimal_text(a) == decimal_text(b),
    ensures
        a == b,
    decreases a,
{
    lemma_decimal_not_empty(a);
    lemma_decimal_not_empty(b);
    let text = decimal_text(a);
    if a < 10 {
        assert(text.len() == 1);
        assert(b < 10);
        assert(text[0] == digit_char(a as int));
        assert(decimal_text(b)[0] == digit_char(b as int));
        lemma_digits_differ(a as int, b as int);
    } else {
        assert(b >= 10);
        assert(text.last() == digit_char((a % 10) as int));
        assert(decimal_text(b).last() == digit_char((b % 10) as int));
        lemma_digits_differ((a % 10) as int, (b % 10) as int);
        assert(text.drop_last() =~= decimal_text(a / 10));
        assert(decimal_text(b).drop_last() =~= decimal_text(b / 10));
        decimals_differ(a / 10, b / 10);
    }
}

/// Law: different bytes are written differently in hexadecimal, two digits to a byte.
pub proof fn hex_differs(a: Seq<u8>, b: Seq<u8>)
    requires
        hex_text(a) == hex_text(b),
    ensures
        a == b,
        hex_text(a).len() == 2 * a.len(),
{
    assert(hex_text(a).len() == 2 * a.len());
    assert(hex_text(b).len() == 2 * b.len());
    assert forall|i: int| 0 <= i < a.len() implies a[i] == b[i] by {
        assert(hex_text(a)[2 * i] == digit_char(a[i] as int / 16));
        assert(hex_text(b)[2 * i] == digit_char(b[i] as int / 16));
        assert(hex_text(a)[2 * i + 1] == digit_char(a[i] as int % 16));
        assert(hex_text(b)[2 * i + 1] == digit_char(b[i] as int % 16));
        lemma_digits_differ(a[i] as int / 16, b[i] as int / 16);
        lemma_digits_differ(a[i] as int % 16, b[i] as int % 16);
    }
    assert(a =~= b);
}

/// Law: a text that was stored is printed as it was.
pub proof fn stored_text_is_printed(text: Seq<char>)
    ensures
        printed(encode_utf8(text)) == text,
{
    vstd::utf8::encode_utf8_valid_utf8(text);
    vstd::utf8::encode_utf8_decode_utf8(text);
}

} // verus!
