//! Where the parts of the screen go.

use ratatui::layout::Constraint;
use ratatui::layout::Layout;
use ratatui::layout::Margin;
use ratatui::layout::Rect;
use vstd::prelude::*;

verus! {

/// A rectangle of the screen: its upper left corner and its size.
#[derive(Clone, Copy, Debug, PartialEq, Eq, Structural)]
pub struct Area {
    pub x: u16,
    pub y: u16,
    pub width: u16,
    pub height: u16,
}

/// How high a row of the screen is to be.
#[derive(Clone, Copy, Debug, PartialEq, Eq, Structural)]
pub enum Row {
    /// As many lines as this.
    Length(u16),
    /// At least as many lines as this, and all that are left.
    Min(u16),
}

/// Three things, one below the other.
#[derive(Debug)]
pub struct Stack<T> {
    pub top: T,
    pub middle: T,
    pub bottom: T,
}

/// The last line of the screen that a terminal can count stands at `u16::MAX`: how many lines of
/// `area` lie above it.
pub open spec fn lines_in_reach(area: Area) -> int {
    if area.y + area.height <= u16::MAX {
        area.height as int
    } else {
        u16::MAX - area.y
    }
}

/// The height of a row that takes what is left of `lines`: at least `least` where there are as
/// many, and all that two other rows of `others` lines together leave.
pub open spec fn stretched(lines: int, least: int, others: int) -> int {
    if lines <= least {
        lines
    } else if lines - others <= least {
        least
    } else {
        lines - others
    }
}

/// The height of the upper of two rows that share `lines`: half of them, rounded up, but no more
/// than it is to have, and no less than the lower one leaves.
pub open spec fn upper_share(lines: int, upper: int, lower: int) -> int {
    let half = (lines + 1) / 2;
    if half > upper {
        upper
    } else if half < lines - lower {
        lines - lower
    } else {
        half
    }
}

/// Two rows of a fixed height, below or above one that takes what is left and asks for no more
/// than an `i16` holds.
pub open spec fn stretches_at_an_end(rows: Stack<Row>) -> bool {
    match (rows.top, rows.middle, rows.bottom) {
        (Row::Min(least), Row::Length(_), Row::Length(_)) => least <= i16::MAX,
        (Row::Length(_), Row::Length(_), Row::Min(least)) => least <= i16::MAX,
        _ => false,
    }
}

/// The heights of three rows, of which the first or the last takes what is left. It comes first
/// where there are too few lines; the other two share the rest.
pub open spec fn heights(lines: int, rows: Stack<Row>) -> Stack<int> {
    match (rows.top, rows.middle, rows.bottom) {
        (Row::Min(least), Row::Length(upper), Row::Length(lower)) => {
            let top = stretched(lines, least as int, upper + lower);
            let middle = upper_share(lines - top, upper as int, lower as int);
            Stack { top, middle, bottom: lines - top - middle }
        },
        (Row::Length(upper), Row::Length(lower), Row::Min(least)) => {
            let bottom = stretched(lines, least as int, upper + lower);
            let top = upper_share(lines - bottom, upper as int, lower as int);
            Stack { top, middle: lines - bottom - top, bottom }
        },
        _ => Stack { top: 0, middle: 0, bottom: 0 },
    }
}

/// `height` lines of `area`, from `skipped` lines below its top.
pub open spec fn row_of(area: Area, skipped: int, height: int) -> Area {
    Area { y: (area.y + skipped) as u16, height: height as u16, ..area }
}

/// The three rows of `area`, one below the other from its top.
pub open spec fn rows_of(area: Area, rows: Stack<Row>) -> Stack<Area> {
    let high = heights(lines_in_reach(area), rows);
    Stack {
        top: row_of(area, 0, high.top),
        middle: row_of(area, high.top, high.middle),
        bottom: row_of(area, high.top + high.middle, high.bottom),
    }
}

/// A number no greater than a `u16` holds.
pub open spec fn capped(n: int) -> u16 {
    if n <= u16::MAX {
        n as u16
    } else {
        u16::MAX
    }
}

/// What is left of `area` without `horizontal` columns on either side and `vertical` lines above
/// and below; nothing, at the origin, where the margins do not fit.
pub open spec fn inner(area: Area, horizontal: u16, vertical: u16) -> Area {
    let across = capped(2 * horizontal);
    let down = capped(2 * vertical);
    if area.width < across || area.height < down {
        Area { x: 0, y: 0, width: 0, height: 0 }
    } else {
        Area {
            x: capped(area.x + horizontal),
            y: capped(area.y + vertical),
            width: (area.width - across) as u16,
            height: (area.height - down) as u16,
        }
    }
}

/// `Layout::vertical` and `Layout::areas` of ratatui: split an area into rows, by a solver that
/// weighs against each other what the rows ask for. For a `Min` row above or below two `Length`
/// rows its weights leave one best split:
///
/// * Each row is as wide as the area. The first begins at the top, and each of the others where
///   the one above it ends: no gap and no overlap weigh more than any height.
/// * The rows end at the bottom of the area, or at the last line that a `u16` counts. The `Min`
///   row grows until they do.
/// * Where there are too few lines, what the `Min` row asks for weighs more than what the
///   `Length` rows ask for.
/// * Lines too few for both `Length` rows weigh the same with either. What is left to decide is
///   the wish that each row be as high as its neighbour: the two are alike in height, as far as
///   neither gets more than it asks for. A half line between them rounds up, for the upper one.
///
/// A `Min` row between the two is not admitted: there several splits can weigh the same. Nor is
/// one that asks for more than an `i16` holds, as the solver takes its height for one.
#[verifier::external_body]
pub(crate) fn split_vertical(area: Area, rows: Stack<Row>) -> (parts: Stack<Area>)
    requires
        stretches_at_an_end(rows),
    ensures
        parts == rows_of(area, rows),
{
    let rect = Rect { x: area.x, y: area.y, width: area.width, height: area.height };
    let [top, middle, bottom] = Layout::vertical(
        [rows.top, rows.middle, rows.bottom].map(
            |row| match row {
                Row::Length(lines) => Constraint::Length(lines),
                Row::Min(lines) => Constraint::Min(lines),
            },
        ),
    ).areas(rect).map(|r| Area { x: r.x, y: r.y, width: r.width, height: r.height });
    Stack { top, middle, bottom }
}

/// `Rect::inner` of ratatui: an area without a margin. It computes with saturation, so that a
/// margin of more than half of what a `u16` holds counts double as the most that one holds.
#[verifier::external_body]
pub(crate) fn inner_area(area: Area, horizontal: u16, vertical: u16) -> (part: Area)
    ensures
        part == inner(area, horizontal, vertical),
{
    let rect = Rect { x: area.x, y: area.y, width: area.width, height: area.height };
    let part = rect.inner(Margin { horizontal, vertical });
    Area { x: part.x, y: part.y, width: part.width, height: part.height }
}

} // verus!
