use vstd::prelude::*;
use crate::color::Color;
use crate::frame::{Frame, frame_entry, in_grid, refs_in_palette};
use crate::grid::cell_index;
use crate::palette::{Palette, palette_entry};

verus! {

/// A pointer position in whole screen pixels.
#[derive(Clone, Copy, Debug, PartialEq, Eq, Structural)]
pub struct Pos {
    pub x: i32,
    pub y: i32,
}

/// Where a drag began: over the frame, over the palette, or nowhere (no drag).
#[derive(Clone, Copy, Debug, PartialEq, Eq, Structural)]
pub enum Side {
    Frame,
    Palette,
    Idle,
}

/// What is known of the drag in progress. `reference` is the reference it carries: the
/// pressed palette cell, or what the pressed frame cell holds. `color` is the color it
/// carries for the preview.
#[derive(Clone, Copy, Debug, PartialEq, Eq)]
pub struct DragSession {
    pub start: Option<Pos>,
    pub end: Option<Pos>,
    pub active: bool,
    pub color: Option<Color>,
    pub reference: Option<(usize, usize)>,
    pub side: Side,
}

/// The pointer and the modifier keys, sampled once per tick.
#[derive(Clone, Copy, Debug, PartialEq, Eq, Structural)]
pub struct PointerInput {
    /// The pointer is held down and has moved far enough to count as a drag.
    pub dragging: bool,
    /// Where the button went down, while it is down.
    pub press_origin: Option<Pos>,
    /// The latest pointer position, if any.
    pub latest: Option<Pos>,
    /// A button went down during this tick.
    pub pressed: bool,
    pub shift: bool,
    pub ctrl: bool,
    pub command: bool,
}

/// What to draw over the grids while dragging: a swatch of the carried color under the
/// pointer, and a placeholder over the cell that a move empties.
#[derive(Clone, Copy, Debug, PartialEq, Eq)]
pub struct Preview {
    pub swatch: Option<(Pos, Color)>,
    pub covered: Option<(usize, usize)>,
}

/// A change to one frame.
#[derive(Clone, Copy, Debug, PartialEq, Eq)]
pub enum Edit {
    /// Cell `at` gets reference `reference`.
    Assign { at: (usize, usize), reference: (usize, usize) },
    /// Cell `at` is emptied.
    Clear { at: (usize, usize) },
    /// The reference at `from` goes to `to`, and `from` is emptied.
    Move { from: (usize, usize), to: (usize, usize) },
}

/// Left edge of the frame grid.
pub const FRAME_LEFT: i32 = 16;

/// Top edge of both grids.
pub const GRID_TOP: i32 = 32;

/// Left edge of the palette grid: a press at or right of this x starts a drag on the
/// palette side.
pub const PALETTE_LEFT: i32 = 288;

/// The cell under `p` in the 16 by 16 grid of 16-pixel cells whose top left corner is
/// `(left, GRID_TOP)`; `None` where `p` lies outside that grid.
pub open spec fn cell_at(p: Pos, left: int) -> Option<(usize, usize)> {
    let dx = p.x - left;
    let dy = p.y - GRID_TOP;
    if 0 <= dx < 256 && 0 <= dy < 256 {
        Some(((dx / 16) as usize, (dy / 16) as usize))
    } else {
        None
    }
}

pub open spec fn cell_in_grid(c: (usize, usize)) -> bool {
    in_grid(c.0 as int, c.1 as int)
}

pub open spec fn idle_session() -> DragSession {
    DragSession { start: None, end: None, active: false, color: None, reference: None, side: Side::Idle }
}

/// The session once the tick's pointer state is taken in.
pub open spec fn followed(s: DragSession, i: PointerInput) -> DragSession {
    if i.dragging && i.press_origin.is_some() {
        DragSession { start: i.press_origin, end: i.latest, active: true, ..s }
    } else {
        DragSession { active: false, side: Side::Idle, ..s }
    }
}

/// The session with the side of its press, the reference it carries and the carried
/// color. The side is fixed by the x of the press alone.
pub open spec fn classified(
    s: DragSession,
    f: Seq<Option<(usize, usize)>>,
    p: Seq<Option<Color>>,
) -> DragSession {
    match s.start {
        None => DragSession { color: None, side: Side::Idle, ..s },
        Some(q) => if q.x >= PALETTE_LEFT {
            let c = cell_at(q, PALETTE_LEFT as int);
            DragSession {
                side: Side::Palette,
                reference: c,
                color: match c {
                    Some(c) => palette_entry(p, c.0 as int, c.1 as int),
                    None => s.color,
                },
                ..s
            }
        } else {
            let held = match cell_at(q, FRAME_LEFT as int) {
                Some(c) => frame_entry(f, c.0 as int, c.1 as int),
                None => None,
            };
            DragSession {
                side: Side::Frame,
                reference: held,
                color: match held {
                    Some(r) => palette_entry(p, r.0 as int, r.1 as int),
                    None => s.color,
                },
                ..s
            }
        },
    }
}

/// The edit that a classified session makes on this tick.
/// - Released from a palette cell over a frame cell: the frame cell gets the palette cell.
/// - Dragging from the frame with shift held over a frame cell: that cell is emptied.
/// - Released with ctrl or command held, from a frame cell that holds a reference, over a
///   frame cell: the reference moves.
/// Anything else, and any position outside a grid, edits nothing.
pub open spec fn drag_edit(s: DragSession, i: PointerInput) -> Option<Edit> {
    match s.side {
        Side::Palette => if s.active {
            None
        } else {
            match (s.end, s.reference) {
                (Some(e), Some(r)) => match cell_at(e, FRAME_LEFT as int) {
                    Some(c) => Some(Edit::Assign { at: c, reference: r }),
                    None => None,
                },
                _ => None,
            }
        },
        Side::Frame => if s.active {
            match s.end {
                Some(e) => match cell_at(e, FRAME_LEFT as int) {
                    Some(c) => if i.shift {
                        Some(Edit::Clear { at: c })
                    } else {
                        None
                    },
                    None => None,
                },
                None => None,
            }
        } else if (i.ctrl || i.command) && s.reference.is_some() {
            match (s.start, s.end) {
                (Some(a), Some(b)) => match (cell_at(a, FRAME_LEFT as int), cell_at(b, FRAME_LEFT as int)) {
                    (Some(from), Some(to)) => Some(Edit::Move { from, to }),
                    _ => None,
                },
                _ => None,
            }
        } else {
            None
        },
        Side::Idle => None,
    }
}

/// A press with shift held over a frame cell empties it.
pub open spec fn eraser_edit(i: PointerInput) -> Option<Edit> {
    if i.pressed && i.shift {
        match i.latest {
            Some(q) => match cell_at(q, FRAME_LEFT as int) {
                Some(c) => Some(Edit::Clear { at: c }),
                None => None,
            },
            None => None,
        }
    } else {
        None
    }
}

/// The cells that an edit names lie in the grid, and so does a reference it writes.
pub open spec fn edit_in_grid(e: Option<Edit>) -> bool {
    match e {
        None => true,
        Some(Edit::Assign { at, reference }) => cell_in_grid(at) && cell_in_grid(reference),
        Some(Edit::Clear { at }) => cell_in_grid(at),
        Some(Edit::Move { from, to }) => cell_in_grid(from) && cell_in_grid(to),
    }
}

pub open spec fn at_cell(c: (usize, usize)) -> int {
    cell_index(c.0 as int, c.1 as int)
}

/// The frame after an edit.
pub open spec fn applied(f: Seq<Option<(usize, usize)>>, e: Option<Edit>) -> Seq<Option<(usize, usize)>> {
    match e {
        None => f,
        Some(Edit::Assign { at, reference }) => f.update(at_cell(at), Some(reference)),
        Some(Edit::Clear { at }) => f.update(at_cell(at), None),
        Some(Edit::Move { from, to }) => f.update(at_cell(to), f[at_cell(from)]).update(
            at_cell(from),
            None,
        ),
    }
}

/// The session kept for the next tick: a released drag is over.
pub open spec fn settled(s: DragSession) -> DragSession {
    if s.active {
        s
    } else {
        idle_session()
    }
}

/// What to draw this tick for a classified session.
pub open spec fn preview_of(s: DragSession, i: PointerInput) -> Preview {
    let swatch = match (s.color, s.end) {
        (Some(c), Some(e)) => Some((e, c)),
        _ => None,
    };
    let none = Preview { swatch: None, covered: None };
    if s.active && s.side == Side::Palette {
        Preview { swatch, covered: None }
    } else if s.active && s.side == Side::Frame && !i.shift && (i.ctrl || i.command) {
        match (s.start, s.end) {
            (Some(a), Some(e)) => if cell_at(e, FRAME_LEFT as int).is_some() {
                Preview { swatch, covered: cell_at(a, FRAME_LEFT as int) }
            } else {
                none
            },
            _ => none,
        }
    } else {
        none
    }
}

/// An edit whose cells and written reference lie in the grid keeps every reference of
/// the frame inside the palette.
pub proof fn lemma_applied_keeps_refs(f: Seq<Option<(usize, usize)>>, e: Option<Edit>)
    requires
        f.len() == 256,
        refs_in_palette(f),
        edit_in_grid(e),
    ensures
        applied(f, e).len() == 256,
        refs_in_palette(applied(f, e)),
{
    let g = applied(f, e);
    assert forall|i: int| 0 <= i < 256 && (#[trigger] g[i]).is_some() implies cell_in_grid(
        g[i].unwrap(),
    ) by {
        match e {
            Some(Edit::Move { from, to }) => {
                if i != at_cell(from) && i == at_cell(to) {
                    assert(0 <= at_cell(from) < 256);
                    assert(f[at_cell(from)].is_some());
                } else {
                    assert(f[i].is_some());
                }
            },
            Some(Edit::Assign { at, reference }) => {
                if i != at_cell(at) {
                    assert(f[i].is_some());
                }
            },
            _ => {
                assert(f[i].is_some());
            },
        }
    }
}

} // verus!

verus! {

/// The cell under `p` in the grid whose left edge is `left` (see `cell_at`).
pub fn cell_under(p: Pos, left: i32) -> (r: Option<(usize, usize)>)
    requires
        0 <= left <= PALETTE_LEFT,
    ensures
        r == cell_at(p, left as int),
        r matches Some(c) ==> cell_in_grid(c),
{
    let dx: i64 = p.x as i64 - left as i64;
    let dy: i64 = p.y as i64 - GRID_TOP as i64;
    if 0 <= dx && dx < 256 && 0 <= dy && dy < 256 {
        Some(((dx / 16) as usize, (dy / 16) as usize))
    } else {
        None
    }
}

/// Takes in the tick's pointer state: a drag in progress records its press and its
/// latest position; otherwise the session is marked as not dragging.
pub fn follow(s: DragSession, i: &PointerInput) -> (r: DragSession)
    ensures
        r == followed(s, *i),
{
    if i.dragging && i.press_origin.is_some() {
        DragSession { start: i.press_origin, end: i.latest, active: true, ..s }
    } else {
        DragSession { active: false, side: Side::Idle, ..s }
    }
}

/// Sets the side, the carried reference and the carried color from the press position.
pub fn classify(s: DragSession, frame: &Frame, palette: &Palette) -> (r: DragSession)
    requires
        frame.wf(),
        palette.wf(),
    ensures
        r == classified(s, frame@, palette@),
        r.side == Side::Palette ==> (r.reference matches Some(c) ==> cell_in_grid(c)),
{
    match s.start {
        None => DragSession { color: None, side: Side::Idle, ..s },
        Some(q) => {
            if q.x >= PALETTE_LEFT {
                let c = cell_under(q, PALETTE_LEFT);
                let color = match c {
                    Some(c) => palette.get(c.0, c.1),
                    None => s.color,
                };
                DragSession { side: Side::Palette, reference: c, color, ..s }
            } else {
                let held = match cell_under(q, FRAME_LEFT) {
                    Some(c) => frame.get(c.0, c.1),
                    None => None,
                };
                let color = match held {
                    Some(r) => palette.get(r.0, r.1),
                    None => s.color,
                };
                DragSession { side: Side::Frame, reference: held, color, ..s }
            }
        },
    }
}

/// The edit that a classified session makes on this tick (see `drag_edit`).
pub fn edit_for(s: &DragSession, i: &PointerInput) -> (r: Option<Edit>)
    requires
        s.side == Side::Palette ==> (s.reference matches Some(c) ==> cell_in_grid(c)),
    ensures
        r == drag_edit(*s, *i),
        edit_in_grid(r),
{
    match s.side {
        Side::Palette => {
            if s.active {
                None
            } else {
                match (s.end, s.reference) {
                    (Some(e), Some(r)) => match cell_under(e, FRAME_LEFT) {
                        Some(c) => Some(Edit::Assign { at: c, reference: r }),
                        None => None,
                    },
                    _ => None,
                }
            }
        },
        Side::Frame => {
            if s.active {
                match s.end {
                    Some(e) => match cell_under(e, FRAME_LEFT) {
                        Some(c) => {
                            if i.shift {
                                Some(Edit::Clear { at: c })
                            } else {
                                None
                            }
                        },
                        None => None,
                    },
                    None => None,
                }
            } else if (i.ctrl || i.command) && s.reference.is_some() {
                match (s.start, s.end) {
                    (Some(a), Some(b)) => match (cell_under(a, FRAME_LEFT), cell_under(b, FRAME_LEFT)) {
                        (Some(from), Some(to)) => Some(Edit::Move { from, to }),
                        _ => None,
                    },
                    _ => None,
                }
            } else {
                None
            }
        },
        Side::Idle => None,
    }
}

/// The eraser's edit: a press with shift held over a frame cell empties it.
pub fn eraser(i: &PointerInput) -> (r: Option<Edit>)
    ensures
        r == eraser_edit(*i),
        edit_in_grid(r),
{
    if i.pressed && i.shift {
        match i.latest {
            Some(q) => match cell_under(q, FRAME_LEFT) {
                Some(c) => Some(Edit::Clear { at: c }),
                None => None,
            },
            None => None,
        }
    } else {
        None
    }
}

/// Applies an edit to a frame.
pub fn apply_edit(frame: &mut Frame, e: Option<Edit>)
    requires
        old(frame).wf(),
        edit_in_grid(e),
    ensures
        final(frame).wf(),
        final(frame)@ == applied(old(frame)@, e),
{
    match e {
        None => {},
        Some(Edit::Assign { at, reference }) => frame.set(at.0, at.1, Some(reference)),
        Some(Edit::Clear { at }) => frame.set(at.0, at.1, None),
        Some(Edit::Move { from, to }) => {
            let moved = frame.get(from.0, from.1);
            frame.set(to.0, to.1, moved);
            frame.set(from.0, from.1, None);
        },
    }
}

/// The session kept for the next tick.
pub fn settle(s: DragSession) -> (r: DragSession)
    ensures
        r == settled(s),
{
    if s.active {
        s
    } else {
        DragSession {
            start: None,
            end: None,
            active: false,
            color: None,
            reference: None,
            side: Side::Idle,
        }
    }
}

/// What to draw this tick for a classified session.
pub fn preview(s: &DragSession, i: &PointerInput) -> (r: Preview)
    ensures
        r == preview_of(*s, *i),
{
    let swatch = match (s.color, s.end) {
        (Some(c), Some(e)) => Some((e, c)),
        _ => None,
    };
    let none = Preview { swatch: None, covered: None };
    let on_palette = match s.side {
        Side::Palette => true,
        _ => false,
    };
    let on_frame = match s.side {
        Side::Frame => true,
        _ => false,
    };
    if s.active && on_palette {
        Preview { swatch, covered: None }
    } else if s.active && on_frame && !i.shift && (i.ctrl || i.command) {
        match (s.start, s.end) {
            (Some(a), Some(e)) => {
                if cell_under(e, FRAME_LEFT).is_some() {
                    Preview { swatch, covered: cell_under(a, FRAME_LEFT) }
                } else {
                    none
                }
            },
            _ => none,
        }
    } else {
        none
    }
}

} // verus!
