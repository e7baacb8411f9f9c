//! Where the panels of the screen are.

use ratatui::layout::{Constraint, Direction, Layout, Rect};
use vstd::prelude::*;

verus! {

/// A rectangle of terminal cells.
#[derive(Clone, Copy, Debug, PartialEq, Eq, Structural)]
pub struct Area {
    pub x: u16,
    pub y: u16,
    pub width: u16,
    pub height: u16,
}

/// Along which axis an area is divided.
#[derive(Clone, Copy, Debug, PartialEq, Eq, Structural)]
pub enum Axis {
    Horizontal,
    Vertical,
}

/// How large a part should be along the axis: a number of cells, at least a number of
/// cells, or a percentage of the whole.
#[derive(Clone, Copy, Debug, PartialEq, Eq, Structural)]
pub enum Share {
    Length(u16),
    Min(u16),
    Percentage(u16),
}

impl Area {
    /// The first column to the right of the area.
    pub open spec fn right(self) -> int {
        vstd::math::min(self.x + self.width, u16::MAX as int)
    }

    /// The first row below the area.
    pub open spec fn bottom(self) -> int {
        vstd::math::min(self.y + self.height, u16::MAX as int)
    }

    /// The area without a margin all around; nothing where the margin leaves nothing.
    pub open spec fn within_margin(self, margin: u16) -> Area {
        let double = vstd::math::min(2 * margin, u16::MAX as int);
        if self.width < double || self.height < double {
            Area { x: 0, y: 0, width: 0, height: 0 }
        } else {
            Area {
                x: vstd::math::min(self.x + margin, u16::MAX as int) as u16,
                y: vstd::math::min(self.y + margin, u16::MAX as int) as u16,
                width: (self.width - double) as u16,
                height: (self.height - double) as u16,
            }
        }
    }
}

/// Whether `parts` lie side by side from left to right inside `whole`, each as high as it.
pub open spec fn are_columns(parts: Seq<Area>, whole: Area) -> bool {
    &&& forall|i: int|
        #![trigger parts[i]]
        0 <= i < parts.len() ==> {
            &&& parts[i].y == whole.y
            &&& parts[i].height == whole.height
            &&& whole.x <= parts[i].x
            &&& parts[i].x + parts[i].width <= whole.right()
        }
    &&& forall|i: int, j: int|
        #![trigger parts[i], parts[j]]
        0 <= i < j < parts.len() ==> parts[i].x + parts[i].width <= parts[j].x
}

/// Whether `parts` lie one below the other inside `whole`, each as wide as it.
pub open spec fn are_rows(parts: Seq<Area>, whole: Area) -> bool {
    &&& forall|i: int|
        #![trigger parts[i]]
        0 <= i < parts.len() ==> {
            &&& parts[i].x == whole.x
            &&& parts[i].width == whole.width
            &&& whole.y <= parts[i].y
            &&& parts[i].y + parts[i].height <= whole.bottom()
        }
    &&& forall|i: int, j: int|
        #![trigger parts[i], parts[j]]
        0 <= i < j < parts.len() ==> parts[i].y + parts[i].height <= parts[j].y
}

/// The number that a share names.
pub open spec fn asked(share: Share) -> int {
    match share {
        Share::Length(cells) => cells as int,
        Share::Min(cells) => cells as int,
        Share::Percentage(percent) => percent as int,
    }
}

/// Whether shares are those of rows: two equal lengths, a minimum and another length, no
/// length greater than the minimum.
pub open spec fn are_row_shares(shares: Seq<Share>) -> bool {
    &&& shares.len() == 4
    &&& shares[0] is Length && shares[1] == shares[0] && shares[2] is Min && shares[3] is Length
    &&& asked(shares[0]) <= asked(shares[2])
    &&& asked(shares[3]) <= asked(shares[2])
}

/// Whether shares are those of columns: two percentages that make a hundred.
pub open spec fn are_column_shares(shares: Seq<Share>) -> bool {
    &&& shares.len() == 2
    &&& shares[0] is Percentage && shares[1] is Percentage
    &&& asked(shares[0]) + asked(shares[1]) == 100
}

/// The heights of rows: two of the given length, one of at least `least`, one of length
/// `last`. Where there is room for all, the lengths are met and the rest goes to the
/// minimum. Where there is not, the minimum is met as far as the room goes, of what is left
/// the last row takes its length, and the first two share the rest, the odd row to the
/// first.
pub open spec fn row_heights(length: int, least: int, last: int, room: int) -> Seq<int> {
    if 2 * length + least + last <= room {
        seq![length, length, room - 2 * length - last, last]
    } else {
        let content = vstd::math::min(least, room);
        let below = vstd::math::min(last, room - content);
        let above = room - content - below;
        seq![(above + 1) / 2, above / 2, content, below]
    }
}

/// Whether `parts` follow one another without a gap from the top of `whole` to its bottom.
pub open spec fn fill_rows(parts: Seq<Area>, whole: Area) -> bool {
    &&& parts.first().y == whole.y
    &&& parts.last().y + parts.last().height == whole.bottom()
    &&& forall|i: int, j: int|
        #![trigger parts[i], parts[j]]
        0 <= i && j == i + 1 && j < parts.len() ==> parts[i].y + parts[i].height == parts[j].y
}

/// Whether rows fill the whole and have the heights that their shares come to.
pub open spec fn heights_met(parts: Seq<Area>, shares: Seq<Share>, whole: Area) -> bool {
    let heights = row_heights(
        asked(shares[0]),
        asked(shares[2]),
        asked(shares[3]),
        whole.bottom() - whole.y,
    );
    &&& fill_rows(parts, whole)
    &&& forall|i: int| #![trigger parts[i]] 0 <= i < parts.len() ==> parts[i].height == heights[i]
}

/// Whether columns divide the whole width, the first rounded to the nearest cell, halves
/// up.
pub open spec fn widths_met(parts: Seq<Area>, shares: Seq<Share>, whole: Area) -> bool {
    let width = whole.right() - whole.x;
    &&& parts[0].x == whole.x
    &&& parts[0].width == (asked(shares[0]) * width + 50) / 100
    &&& parts[1].x == parts[0].x + parts[0].width
    &&& parts[1].x + parts[1].width == whole.right()
}

/// Calls `Layout::split` of ratatui with the given direction, margin and constraints, for
/// the two kinds of shares in use: one part for each share, in order along the axis, filling
/// the area less its margin.
///
/// ratatui weighs a wish for a minimum ten times a wish for a length, a length far above
/// the wish of a minimum to grow, and least of all the wish that neighbours be of one size.
/// So where rows do not fit, the lengths give way to the minimum, and the difference between
/// neighbours decides how: exactly one way of sharing out the rest is best
/// (`rows_differ_least`). Ends are rounded to whole rows, halves down the screen.
/// Percentages that make a hundred can both be met.
#[verifier::external_body]
fn split(axis: Axis, margin: u16, shares: &Vec<Share>, area: Area) -> (parts: Vec<Area>)
    requires
        axis == Axis::Vertical ==> are_row_shares(shares@),
        axis == Axis::Horizontal ==> are_column_shares(shares@),
    ensures
        parts@.len() == shares@.len(),
        axis == Axis::Vertical ==> are_rows(parts@, area.within_margin(margin)),
        axis == Axis::Horizontal ==> are_columns(parts@, area.within_margin(margin)),
        axis == Axis::Vertical ==> heights_met(parts@, shares@, area.within_margin(margin)),
        axis == Axis::Horizontal ==> widths_met(parts@, shares@, area.within_margin(margin)),
{
    let Area { x, y, width, height } = area;
    let direction = match axis {
        Axis::Horizontal => Direction::Horizontal,
        Axis::Vertical => Direction::Vertical,
    };
    let constraints = shares.iter().map(|share| match *share {
        Share::Length(cells) => Constraint::Length(cells),
        Share::Min(cells) => Constraint::Min(cells),
        Share::Percentage(percent) => Constraint::Percentage(percent),
    });
    let layout = Layout::default().direction(direction).margin(margin);
    let parts = layout.constraints(constraints).split(Rect { x, y, width, height });
    parts.iter().map(|r| Area { x: r.x, y: r.y, width: r.width, height: r.height }).collect()
}

/// The areas of the panels; streams and details share the content.
pub struct Panels {
    pub title: Area,
    pub input: Area,
    pub content: Area,
    pub streams: Area,
    pub details: Area,
    pub messages: Area,
}

impl Panels {
    /// Whether title, input, content and messages lie one below the other inside the
    /// screen less a margin of two cells, and the streams to the left of the details
    /// inside the content.
    pub open spec fn placed(self, screen: Area) -> bool {
        &&& are_rows(
            seq![self.title, self.input, self.content, self.messages],
            screen.within_margin(2),
        )
        &&& are_columns(seq![self.streams, self.details], self.content)
    }

    /// Whether the rows inside the margin are shared out from top to bottom: three each for
    /// title and input, five for the messages, all others for the content; where these do
    /// not fit, ten for the content first, then the messages, then title and input alike.
    pub open spec fn rows_shared(self, screen: Area) -> bool {
        let inner = screen.within_margin(2);
        let heights = row_heights(3, 10, 5, inner.bottom() - inner.y);
        &&& self.title.y == inner.y
        &&& self.title.height == heights[0]
        &&& self.input.y == self.title.y + heights[0]
        &&& self.input.height == heights[1]
        &&& self.content.y == self.input.y + heights[1]
        &&& self.content.height == heights[2]
        &&& self.messages.y == self.content.y + heights[2]
        &&& self.messages.height == heights[3]
    }

    /// Whether the content is divided into three tenths for the streams, rounded to the
    /// nearest cell, and the rest for the details.
    pub open spec fn columns_shared(self) -> bool {
        &&& self.streams.x == self.content.x
        &&& self.streams.width == (3 * (self.content.right() - self.content.x) + 5) / 10
        &&& self.details.x == self.streams.x + self.streams.width
        &&& self.details.x + self.details.width == self.content.right()
    }

    /// Whether the panels divide the screen.
    pub open spec fn fit(self, screen: Area) -> bool {
        &&& self.placed(screen)
        &&& self.rows_shared(screen)
        &&& self.columns_shared()
    }
}

/// The heights asked for: title and input three rows each, messages five, and what is
/// between at least ten.
pub fn row_shares() -> (shares: Vec<Share>)
    ensures
        shares@ == seq![Share::Length(3), Share::Length(3), Share::Min(10), Share::Length(5)],
{
    let shares = vec![Share::Length(3), Share::Length(3), Share::Min(10), Share::Length(5)];
    assert(shares@ =~= seq![Share::Length(3), Share::Length(3), Share::Min(10), Share::Length(5)]);
    shares
}

/// The widths asked for: three tenths for the streams, the rest for the details.
pub fn column_shares() -> (shares: Vec<Share>)
    ensures
        shares@ == seq![Share::Percentage(30), Share::Percentage(70)],
{
    let shares = vec![Share::Percentage(30), Share::Percentage(70)];
    assert(shares@ =~= seq![Share::Percentage(30), Share::Percentage(70)]);
    shares
}

/// Divides the screen among the panels.
pub fn panels(screen: Area) -> (panels: Panels)
    ensures
        panels.fit(screen),
{
    let rows = split(Axis::Vertical, 2, &row_shares(), screen);
    let content = rows[2];
    let columns = split(Axis::Horizontal, 0, &column_shares(), content);
    let panels = Panels {
        title: rows[0],
        input: rows[1],
        content,
        streams: columns[0],
        details: columns[1],
        messages: rows[3],
    };
    proof {
        assert(seq![panels.title, panels.input, content, panels.messages] =~= rows@);
        assert(seq![panels.streams, panels.details] =~= columns@);
        assert(content.within_margin(0) == content);
        let width = content.right() - content.x;
        assert(panels.streams.width == (30 * width + 50) / 100);
    }
    panels
}

} // verus!
