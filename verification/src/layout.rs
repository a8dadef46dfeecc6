use vstd::prelude::*;

use ratatui::layout as tui;

verus! {

/// A rectangle of terminal cells: its top left corner and its size.
#[derive(Clone, Copy, Debug, PartialEq, Eq, Structural)]
pub struct Rect {
    pub x: u16,
    pub y: u16,
    pub width: u16,
    pub height: u16,
}

/// How much room a part of a layout asks for, in cells.
#[derive(Clone, Copy, Debug, PartialEq, Eq, Structural)]
pub enum Constraint {
    /// Exactly this many cells.
    Length(u16),
    /// At least this many cells.
    Min(u16),
    /// At most this many cells.
    Max(u16),
}

/// The first column to the right of `r`; ratatui caps it at the largest
/// coordinate.
pub open spec fn right_edge(r: Rect) -> int {
    if r.x + r.width <= u16::MAX {
        r.x + r.width
    } else {
        u16::MAX as int
    }
}

/// The first line below `r`; ratatui caps it at the largest coordinate.
pub open spec fn bottom_edge(r: Rect) -> int {
    if r.y + r.height <= u16::MAX {
        r.y + r.height
    } else {
        u16::MAX as int
    }
}

/// `part` lies within the lines of `area`.
pub open spec fn within_lines(part: Rect, area: Rect) -> bool {
    area.y <= part.y && part.y + part.height <= bottom_edge(area)
}

/// `part` lies within the columns of `area`.
pub open spec fn within_columns(part: Rect, area: Rect) -> bool {
    area.x <= part.x && part.x + part.width <= right_edge(area)
}

/// `part` is a band of `area` across its full width: a slice of its lines.
pub open spec fn is_band_of(part: Rect, area: Rect) -> bool {
    &&& part.x == area.x
    &&& part.width == area.width
    &&& within_lines(part, area)
}

/// `part` is a strip of `area` across its full height: a slice of its
/// columns.
pub open spec fn is_strip_of(part: Rect, area: Rect) -> bool {
    &&& part.y == area.y
    &&& part.height == area.height
    &&& within_columns(part, area)
}

/// The number of cells that `c` asks for exactly: `n` for `Length(n)`,
/// nothing for the others.
pub open spec fn fixed_length(c: Constraint) -> int {
    match c {
        Constraint::Length(n) => n as int,
        _ => 0,
    }
}

/// Every constraint asks for an exact number of cells.
pub open spec fn all_lengths(cs: Seq<Constraint>) -> bool {
    forall|i: int| 0 <= i < cs.len() ==> #[trigger] cs[i] is Length
}

/// The cells that the constraints ask for exactly, added up.
pub open spec fn total_length(cs: Seq<Constraint>) -> int
    decreases cs.len(),
{
    if cs.len() == 0 {
        0
    } else {
        total_length(cs.drop_last()) + fixed_length(cs.last())
    }
}

/// The constraints are a fixed number of lines followed by `Min(0)`: a
/// header and whatever is left below it.
pub open spec fn is_header_and_rest(cs: Seq<Constraint>) -> bool {
    &&& cs.len() == 2
    &&& cs[0] is Length
    &&& cs[1] == Constraint::Min(0)
}

/// The constraints are a header and the rest, and the header's lines fit in
/// `area`.
pub open spec fn header_fits(area: Rect, cs: Seq<Constraint>) -> bool {
    is_header_and_rest(cs) && area.y + fixed_length(cs[0]) <= bottom_edge(area)
}

/// The top `n` lines of `area`.
pub open spec fn header_part(area: Rect, n: int) -> Rect {
    Rect { x: area.x, y: area.y, width: area.width, height: n as u16 }
}

/// The lines of `area` below its top `n`, down to its capped bottom.
pub open spec fn rest_part(area: Rect, n: int) -> Rect {
    Rect {
        x: area.x,
        y: (area.y + n) as u16,
        width: area.width,
        height: (bottom_edge(area) - area.y - n) as u16,
    }
}

/// Divides `area` from top to bottom with `ratatui::layout::Layout::vertical`
/// and `Layout::split`, under the default `Flex::Start` and no spacing.
/// Claimed, for every outcome of ratatui's constraint solver:
/// - one part per constraint (the segment list of `Layout::try_split`);
/// - each part a band of the area across its full width
///   (`changes_to_rects` copies the area's `x` and `width` into every
///   vertical part) lying within the area's lines (the solver holds every
///   boundary between the area's first line and its capped bottom as a
///   required constraint, and a part whose end falls before its start gets
///   height zero).
///
/// Claimed for `[Length(n), Min(0)]` when `n` lines fit: the first part is
/// the top `n` lines and the second is everything below, as the doc example
/// of `Layout::split` shows and `Constraint::Length` documents ("the element
/// size is set to the specified amount"). In the solver, the empty first
/// spacer is all but required, the length holds at strength `STRONG * 10`,
/// and `Min(0)` grows to fill the area at `MEDIUM`, above the last spacer's
/// `MEDIUM / 10`, so that optimum is the only one.
///
/// Where the parts fall for other constraints is the solver's choice and is
/// not stated; nor is it claimed that the same input always gives the same
/// parts. The only required constraints are the area's bounds, which always
/// hold together, so `split` does not fail.
#[verifier::external_body]
pub(crate) fn split_vertical(area: Rect, constraints: &Vec<Constraint>) -> (parts: Vec<Rect>)
    ensures
        parts@.len() == constraints@.len(),
        forall|i: int| 0 <= i < parts@.len() ==> is_band_of(#[trigger] parts@[i], area),
        header_fits(area, constraints@) ==> parts@[0] == header_part(area, fixed_length(
            constraints@[0],
        )),
        header_fits(area, constraints@) ==> parts@[1] == rest_part(area, fixed_length(
            constraints@[0],
        )),
{
    let cs = constraints.iter().map(|c| match *c {
        Constraint::Length(n) => tui::Constraint::Length(n),
        Constraint::Min(n) => tui::Constraint::Min(n),
        Constraint::Max(n) => tui::Constraint::Max(n),
    });
    let r = tui::Rect { x: area.x, y: area.y, width: area.width, height: area.height };
    let parts = tui::Layout::vertical(cs).split(r);
    parts.iter().map(|p| Rect { x: p.x, y: p.y, width: p.width, height: p.height }).collect()
}

/// Divides `area` from left to right with
/// `ratatui::layout::Layout::horizontal` and `Layout::split`, under the
/// default `Flex::Start` and no spacing. Claimed, for every outcome of the
/// solver: one part per constraint, each a strip of the area across its full
/// height (`changes_to_rects` copies the area's `y` and `height`), lying
/// within the area's columns.
///
/// Claimed when every constraint is a `Length` and the lengths fit side by
/// side: each part is exactly its length wide, and the parts follow one
/// another from the area's left edge. `Constraint::Length` documents the
/// size and `Flex::Start` ("aligns items to the start of the container")
/// the placement; in the solver the lengths hold at `STRONG * 10`, the gaps
/// between parts are held empty at `REQUIRED / 10` and the first one all but
/// required, while only the last spacer, at `MEDIUM / 10`, and the equal-size
/// preference, at `WEAK`, pull elsewhere, so that optimum is the only one.
///
/// Where the parts fall for other constraints is not stated.
#[verifier::external_body]
pub(crate) fn split_horizontal(area: Rect, constraints: &Vec<Constraint>) -> (parts: Vec<Rect>)
    ensures
        parts@.len() == constraints@.len(),
        forall|i: int| 0 <= i < parts@.len() ==> is_strip_of(#[trigger] parts@[i], area),
        all_lengths(constraints@) && area.x + total_length(constraints@) <= right_edge(area)
            ==> forall|i: int|
            0 <= i < parts@.len() ==> {
                &&& (#[trigger] parts@[i]).x == area.x + total_length(constraints@.take(i))
                &&& parts@[i].width == fixed_length(constraints@[i])
            },
{
    let cs = constraints.iter().map(|c| match *c {
        Constraint::Length(n) => tui::Constraint::Length(n),
        Constraint::Min(n) => tui::Constraint::Min(n),
        Constraint::Max(n) => tui::Constraint::Max(n),
    });
    let r = tui::Rect { x: area.x, y: area.y, width: area.width, height: area.height };
    let parts = tui::Layout::horizontal(cs).split(r);
    parts.iter().map(|p| Rect { x: p.x, y: p.y, width: p.width, height: p.height }).collect()
}

/// `n` copies of the constraint `c`.
pub open spec fn repeated(c: Constraint, n: nat) -> Seq<Constraint> {
    Seq::new(n, |i: int| c)
}

pub(crate) fn repeat_constraint(c: Constraint, n: usize) -> (v: Vec<Constraint>)
    ensures
        v@ == repeated(c, n as nat),
{
    let mut v: Vec<Constraint> = Vec::new();
    for i in 0..n
        invariant
            v@ == repeated(c, i as nat),
    {
        v.push(c);
        proof {
            assert(v@ =~= repeated(c, (i + 1) as nat));
        }
    }
    v
}

/// `k` copies of `Length(n)` ask for `k * n` cells, and every prefix of
/// them is such a run of copies.
pub proof fn lemma_repeated_lengths(n: u16, k: nat)
    ensures
        all_lengths(repeated(Constraint::Length(n), k)),
        total_length(repeated(Constraint::Length(n), k)) == k * n,
        forall|j: int|
            0 <= j <= k ==> #[trigger] repeated(Constraint::Length(n), k).take(j) == repeated(
                Constraint::Length(n),
                j as nat,
            ),
    decreases k,
{
    let cs = repeated(Constraint::Length(n), k);
    assert forall|j: int| 0 <= j <= k implies #[trigger] cs.take(j) == repeated(
        Constraint::Length(n),
        j as nat,
    ) by {
        assert(cs.take(j) =~= repeated(Constraint::Length(n), j as nat));
    }
    if k > 0 {
        lemma_repeated_lengths(n, (k - 1) as nat);
        assert(cs.drop_last() =~= repeated(Constraint::Length(n), (k - 1) as nat));
        assert(total_length(cs) == total_length(cs.drop_last()) + n);
        assert((k - 1) * n + n == k * n) by (nonlinear_arith);
    }
}

} // verus!
