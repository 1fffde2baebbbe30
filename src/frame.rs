use vstd::prelude::*;
use crate::color::Color;
use crate::grid::{GRID, cell_index};
use crate::palette::{Palette, palette_entry};

verus! {

/// One frame of the animation: a 16 by 16 grid of optional references, stored column by
/// column. A reference `(px, py)` names a palette cell, not a color.
pub struct Frame {
    pub cells: Vec<Option<(usize, usize)>>,
}

impl View for Frame {
    type V = Seq<Option<(usize, usize)>>;

    open spec fn view(&self) -> Seq<Option<(usize, usize)>> {
        self.cells@
    }
}

pub open spec fn in_grid(x: int, y: int) -> bool {
    0 <= x < 16 && 0 <= y < 16
}

/// Entry `(x, y)` of a frame; empty outside the grid.
pub open spec fn frame_entry(f: Seq<Option<(usize, usize)>>, x: int, y: int) -> Option<(usize, usize)> {
    if in_grid(x, y) {
        f[cell_index(x, y)]
    } else {
        None
    }
}

/// The color shown at `(x, y)`: the palette entry that the cell refers to. An empty cell,
/// and a reference to an empty or missing palette cell, show nothing.
pub open spec fn resolved(f: Seq<Option<(usize, usize)>>, p: Seq<Option<Color>>, x: int, y: int) -> Option<Color> {
    match frame_entry(f, x, y) {
        None => None,
        Some(r) => palette_entry(p, r.0 as int, r.1 as int),
    }
}

/// The 1-based number written on a cell that refers to palette cell `r`.
pub open spec fn label_of(r: (usize, usize)) -> int {
    r.1 * 16 + r.0 + 1
}

/// Every reference of the frame names a cell of the 16 by 16 palette.
pub open spec fn refs_in_palette(f: Seq<Option<(usize, usize)>>) -> bool {
    forall|i: int|
        0 <= i < f.len() && (#[trigger] f[i]).is_some() ==> in_grid(
            f[i].unwrap().0 as int,
            f[i].unwrap().1 as int,
        )
}

/// A frame whose every cell is empty.
pub open spec fn is_blank(f: Seq<Option<(usize, usize)>>) -> bool {
    f.len() == 256 && forall|i: int| 0 <= i < 256 ==> (#[trigger] f[i]).is_none()
}

impl Frame {
    pub open spec fn wf(&self) -> bool {
        self.cells@.len() == 256
    }

    /// A frame with every cell empty.
    pub fn empty() -> (r: Frame)
        ensures
            r.wf(),
            is_blank(r@),
    {
        let mut cells: Vec<Option<(usize, usize)>> = Vec::with_capacity(256);
        let mut i: usize = 0;
        while i < 256
            invariant
                i <= 256,
                cells@.len() == i,
                forall|j: int| 0 <= j < i ==> (#[trigger] cells@[j]).is_none(),
            decreases 256 - i,
        {
            cells.push(None);
            i = i + 1;
        }
        Frame { cells }
    }

    /// The reference held at `(x, y)`; `None` for an empty cell or outside the grid.
    pub fn get(&self, x: usize, y: usize) -> (r: Option<(usize, usize)>)
        requires
            self.wf(),
        ensures
            r == frame_entry(self@, x as int, y as int),
    {
        if x < GRID && y < GRID {
            self.cells[x * GRID + y]
        } else {
            None
        }
    }

    /// Stores `v` at `(x, y)`.
    pub fn set(&mut self, x: usize, y: usize, v: Option<(usize, usize)>)
        requires
            old(self).wf(),
            x < 16,
            y < 16,
        ensures
            final(self).wf(),
            final(self)@ == old(self)@.update(cell_index(x as int, y as int), v),
    {
        self.cells.set(x * GRID + y, v);
    }

    /// The color shown at `(x, y)` through `palette`.
    pub fn resolve(&self, palette: &Palette, x: usize, y: usize) -> (r: Option<Color>)
        requires
            self.wf(),
            palette.wf(),
        ensures
            r == resolved(self@, palette@, x as int, y as int),
    {
        match self.get(x, y) {
            None => None,
            Some(reference) => palette.get(reference.0, reference.1),
        }
    }

    /// The number written on cell `(x, y)`: present exactly where the cell shows a color.
    pub fn label(&self, palette: &Palette, x: usize, y: usize) -> (r: Option<usize>)
        requires
            self.wf(),
            palette.wf(),
        ensures
            r.is_some() <==> resolved(self@, palette@, x as int, y as int).is_some(),
            r matches Some(n) ==> n == label_of(frame_entry(self@, x as int, y as int).unwrap()),
    {
        match self.get(x, y) {
            None => None,
            Some(reference) => {
                if palette.get(reference.0, reference.1).is_some() {
                    Some(reference.1 * GRID + reference.0 + 1)
                } else {
                    None
                }
            },
        }
    }

    /// Whether every reference of the frame names a palette cell.
    pub fn refs_valid(&self) -> (r: bool)
        ensures
            r == refs_in_palette(self@),
    {
        let mut i: usize = 0;
        while i < self.cells.len()
            invariant
                i <= self.cells@.len(),
                forall|j: int|
                    0 <= j < i && (#[trigger] self.cells@[j]).is_some() ==> in_grid(
                        self.cells@[j].unwrap().0 as int,
                        self.cells@[j].unwrap().1 as int,
                    ),
            decreases self.cells@.len() - i,
        {
            match self.cells[i] {
                Some(r) => {
                    if r.0 >= 16 || r.1 >= 16 {
                        return false;
                    }
                },
                None => {},
            }
            i = i + 1;
        }
        true
    }

    /// The frame as nested rows addressed `[x][y]`.
    pub fn to_matrix(&self) -> (m: Vec<Vec<Option<(usize, usize)>>>)
        requires
            self.wf(),
        ensures
            m@.len() == 16,
            forall|x: int| 0 <= x < 16 ==> (#[trigger] m@[x])@.len() == 16,
            forall|x: int, y: int| in_grid(x, y) ==> #[trigger] m@[x]@[y] == self@[cell_index(x, y)],
    {
        let mut m: Vec<Vec<Option<(usize, usize)>>> = Vec::with_capacity(16);
        let mut x: usize = 0;
        while x < GRID
            invariant
                self.wf(),
                x <= 16,
                m@.len() == x,
                forall|i: int| 0 <= i < x ==> (#[trigger] m@[i])@.len() == 16,
                forall|i: int, j: int|
                    0 <= i < x && 0 <= j < 16 ==> #[trigger] m@[i]@[j] == self@[cell_index(i, j)],
            decreases 16 - x,
        {
            let mut row: Vec<Option<(usize, usize)>> = Vec::with_capacity(16);
            let mut y: usize = 0;
            while y < GRID
                invariant
                    self.wf(),
                    x < 16,
                    y <= 16,
                    row@.len() == y,
                    forall|j: int| 0 <= j < y ==> #[trigger] row@[j] == self@[cell_index(x as int, j)],
                decreases 16 - y,
            {
                row.push(self.cells[x * GRID + y]);
                y = y + 1;
            }
            m.push(row);
            x = x + 1;
        }
        m
    }

    /// Reads a frame back from nested rows addressed `[x][y]`; `None` unless there are
    /// 16 rows of 16 cells.
    pub fn from_matrix(m: &Vec<Vec<Option<(usize, usize)>>>) -> (r: Option<Frame>)
        ensures
            r.is_some() <==> is_square(m@),
            r matches Some(f) ==> f.wf() && forall|x: int, y: int|
                in_grid(x, y) ==> #[trigger] f@[cell_index(x, y)] == m@[x]@[y],
    {
        if m.len() != GRID {
            return None;
        }
        let mut cells: Vec<Option<(usize, usize)>> = Vec::with_capacity(256);
        let mut x: usize = 0;
        while x < GRID
            invariant
                m@.len() == 16,
                x <= 16,
                forall|i: int| 0 <= i < x ==> (#[trigger] m@[i])@.len() == 16,
                cells@.len() == x * 16,
                forall|i: int, j: int|
                    0 <= i < x && 0 <= j < 16 ==> cells@[#[trigger] cell_index(i, j)] == m@[i]@[j],
            decreases 16 - x,
        {
            if m[x].len() != GRID {
                return None;
            }
            let mut y: usize = 0;
            while y < GRID
                invariant
                    m@.len() == 16,
                    x < 16,
                    y <= 16,
                    m@[x as int]@.len() == 16,
                    cells@.len() == x * 16 + y,
                    forall|i: int, j: int|
                        (0 <= i < x && 0 <= j < 16) || (i == x && 0 <= j < y) ==> cells@[
                            #[trigger] cell_index(i, j)] == m@[i]@[j],
                decreases 16 - y,
            {
                cells.push(m[x][y]);
                y = y + 1;
            }
            x = x + 1;
        }
        Some(Frame { cells })
    }
}

/// Nested rows that make a frame: 16 rows of 16 cells.
pub open spec fn is_square(m: Seq<Vec<Option<(usize, usize)>>>) -> bool {
    m.len() == 16 && forall|x: int| 0 <= x < 16 ==> (#[trigger] m[x])@.len() == 16
}

} // verus!

verus! {

/// An empty cell shows no color, whatever the palette holds.
pub proof fn lemma_empty_cell_shows_nothing(
    f: Seq<Option<(usize, usize)>>,
    p: Seq<Option<Color>>,
    x: int,
    y: int,
)
    requires
        in_grid(x, y),
        frame_entry(f, x, y).is_none(),
    ensures
        resolved(f, p, x, y).is_none(),
{
}

} // verus!
