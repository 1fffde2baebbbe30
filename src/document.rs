use vstd::prelude::*;
use vstd::string::StringSliceAdditionalSpecFns;
use crate::editor::{frames_view, frames_wf};
use crate::frame::{Frame, in_grid, is_square, refs_in_palette};
use crate::grid::cell_index;

verus! {

/// The saved form of a piece of work: the palette image's path and every frame as
/// nested rows addressed `[frame][x][y]`. The palette's colors are not saved.
pub struct PxRefFile {
    pub ref_png: String,
    pub ref_matrix: Vec<Vec<Vec<Option<(usize, usize)>>>>,
}

/// Why a saved file could not be read back.
#[derive(Clone, Copy, Debug, PartialEq, Eq, Structural)]
pub enum FileError {
    /// It holds no frame, a frame that is not 16 rows of 16 cells, or a reference to a
    /// cell outside the palette.
    Format,
}

/// Nested rows as nested sequences.
pub open spec fn rows_view(m: Seq<Vec<Option<(usize, usize)>>>) -> Seq<Seq<Option<(usize, usize)>>> {
    m.map_values(|r: Vec<Option<(usize, usize)>>| r@)
}

/// A frame's cells as rows addressed `[x][y]`.
pub open spec fn rows_of(f: Seq<Option<(usize, usize)>>) -> Seq<Seq<Option<(usize, usize)>>> {
    Seq::new(16, |x: int| Seq::new(16, |y: int| f[cell_index(x, y)]))
}

/// Rows addressed `[x][y]` as a frame's cells.
pub open spec fn cells_of(rows: Seq<Seq<Option<(usize, usize)>>>) -> Seq<Option<(usize, usize)>> {
    Seq::new(256, |i: int| rows[i / 16][i % 16])
}

/// Nested rows that hold a frame: 16 rows of 16 cells.
pub open spec fn square_rows(rows: Seq<Seq<Option<(usize, usize)>>>) -> bool {
    rows.len() == 16 && forall|x: int| 0 <= x < 16 ==> (#[trigger] rows[x]).len() == 16
}

/// What a saved file holds, as nested sequences.
pub open spec fn matrix_view(m: Seq<Vec<Vec<Option<(usize, usize)>>>>) -> Seq<Seq<Seq<Option<(usize, usize)>>>> {
    m.map_values(|rows: Vec<Vec<Option<(usize, usize)>>>| rows_view(rows@))
}

/// A saved file can be read back: at least one frame, each 16 rows of 16 cells whose
/// references name palette cells.
pub open spec fn readable(m: Seq<Seq<Seq<Option<(usize, usize)>>>>) -> bool {
    &&& m.len() >= 1
    &&& forall|k: int| 0 <= k < m.len() ==> square_rows(#[trigger] m[k])
    &&& forall|k: int| 0 <= k < m.len() ==> refs_in_palette(cells_of(#[trigger] m[k]))
}

/// The frames that a readable file holds.
pub open spec fn frames_read(m: Seq<Seq<Seq<Option<(usize, usize)>>>>) -> Seq<Seq<Option<(usize, usize)>>> {
    m.map_values(|rows: Seq<Seq<Option<(usize, usize)>>>| cells_of(rows))
}

/// What saving writes for the frames.
pub open spec fn frames_written(frames: Seq<Seq<Option<(usize, usize)>>>) -> Seq<Seq<Seq<Option<(usize, usize)>>>> {
    frames.map_values(|f: Seq<Option<(usize, usize)>>| rows_of(f))
}

/// Saving frames and reading them back gives the same frames.
pub proof fn lemma_ref_file_round_trip(frames: Seq<Frame>)
    requires
        frames_wf(frames),
    ensures
        readable(frames_written(frames_view(frames))),
        frames_read(frames_written(frames_view(frames))) == frames_view(frames),
{
    let fv = frames_view(frames);
    let m = frames_written(fv);
    assert forall|k: int| 0 <= k < m.len() implies square_rows(#[trigger] m[k]) by {
        assert(frames[k].wf());
    }
    assert forall|k: int| 0 <= k < fv.len() implies cells_of(#[trigger] m[k]) =~= fv[k] by {
        assert(frames[k].wf());
        assert forall|i: int| 0 <= i < 256 implies #[trigger] cells_of(m[k])[i] == fv[k][i] by {
            assert(cell_index(i / 16, i % 16) == i);
        }
    }
    assert forall|k: int| 0 <= k < m.len() implies refs_in_palette(cells_of(#[trigger] m[k])) by {
        assert(cells_of(m[k]) == fv[k]);
        assert(refs_in_palette(frames[k]@));
    }
    assert forall|k: int| 0 <= k < fv.len() implies #[trigger] frames_read(m)[k] == fv[k] by {
        assert(frames[k].wf());
        assert forall|i: int| 0 <= i < 256 implies #[trigger] cells_of(m[k])[i] == fv[k][i] by {
            assert(cell_index(i / 16, i % 16) == i);
        }
        assert(cells_of(m[k]) =~= fv[k]);
    }
    assert(frames_read(m) =~= fv);
}

impl PxRefFile {
    /// The saved form of `frames` with the palette image's path.
    pub fn from_frames(ref_png: String, frames: &Vec<Frame>) -> (r: PxRefFile)
        requires
            frames_wf(frames@),
        ensures
            r.ref_png == ref_png,
            matrix_view(r.ref_matrix@) == frames_written(frames_view(frames@)),
    {
        let mut ref_matrix: Vec<Vec<Vec<Option<(usize, usize)>>>> = Vec::with_capacity(frames.len());
        let mut k: usize = 0;
        while k < frames.len()
            invariant
                frames_wf(frames@),
                k <= frames@.len(),
                ref_matrix@.len() == k,
                forall|i: int| 0 <= i < k ==> #[trigger] rows_view(ref_matrix@[i]@) == rows_of(
                    frames@[i]@,
                ),
            decreases frames@.len() - k,
        {
            assert(frames@[k as int].wf());
            let m = frames[k].to_matrix();
            assert(rows_view(m@) =~= rows_of(frames@[k as int]@)) by {
                assert forall|x: int| 0 <= x < 16 implies #[trigger] rows_view(m@)[x] =~= rows_of(
                    frames@[k as int]@,
                )[x] by {
                    assert forall|y: int| 0 <= y < 16 implies m@[x]@[y] == frames@[k as int]@[cell_index(x, y)] by {
                        assert(in_grid(x, y));
                    }
                }
            }
            ref_matrix.push(m);
            k = k + 1;
        }
        let r = PxRefFile { ref_png, ref_matrix };
        assert(matrix_view(r.ref_matrix@) =~= frames_written(frames_view(frames@)));
        r
    }

    /// The palette image's path and the frames of a saved file; fails when the file holds
    /// no frame, a frame that is not 16 rows of 16 cells, or a reference to a cell outside
    /// the palette.
    pub fn into_frames(self) -> (r: Result<(String, Vec<Frame>), FileError>)
        ensures
            r.is_ok() <==> readable(matrix_view(self.ref_matrix@)),
            r.is_err() ==> r == Err::<(String, Vec<Frame>), FileError>(FileError::Format),
            r matches Ok((p, fs)) ==> p == self.ref_png && frames_wf(fs@) && frames_view(fs@)
                == frames_read(matrix_view(self.ref_matrix@)),
    {
        let ghost mv = matrix_view(self.ref_matrix@);
        if self.ref_matrix.len() == 0 {
            return Err(FileError::Format);
        }
        let mut frames: Vec<Frame> = Vec::with_capacity(self.ref_matrix.len());
        let mut k: usize = 0;
        while k < self.ref_matrix.len()
            invariant
                mv == matrix_view(self.ref_matrix@),
                mv.len() >= 1,
                k <= mv.len(),
                frames@.len() == k,
                forall|i: int| 0 <= i < k ==> square_rows(#[trigger] mv[i]),
                forall|i: int| 0 <= i < k ==> refs_in_palette(cells_of(#[trigger] mv[i])),
                forall|i: int| 0 <= i < k ==> (#[trigger] frames@[i]).wf(),
                forall|i: int| 0 <= i < k ==> refs_in_palette(#[trigger] frames@[i]@),
                forall|i: int| 0 <= i < k ==> #[trigger] frames@[i]@ == cells_of(mv[i]),
            decreases mv.len() - k,
        {
            match Frame::from_matrix(&self.ref_matrix[k]) {
                Some(f) => {
                    assert(square_rows(mv[k as int]));
                    assert forall|i: int| 0 <= i < 256 implies #[trigger] f@[i] == cells_of(mv[k as int])[i] by {
                        assert(cell_index(i / 16, i % 16) == i);
                        assert(in_grid(i / 16, i % 16));
                    }
                    assert(f@ =~= cells_of(mv[k as int]));
                    if !f.refs_valid() {
                        return Err(FileError::Format);
                    }
                    frames.push(f);
                },
                None => {
                    proof {
                        let rows = self.ref_matrix@[k as int]@;
                        assert(mv[k as int] == rows_view(rows));
                        if square_rows(mv[k as int]) {
                            assert forall|x: int| 0 <= x < 16 implies (#[trigger] rows[x])@.len() == 16 by {
                                assert(rows_view(rows)[x] == rows[x]@);
                            }
                            assert(is_square(rows));
                        }
                    }
                    return Err(FileError::Format);
                },
            }
            k = k + 1;
        }
        assert(frames_view(frames@) =~= frames_read(mv));
        Ok((self.ref_png, frames))
    }
}

} // verus!

verus! {

/// `s` ends with `suffix`.
pub open spec fn ends_with(s: Seq<u8>, suffix: Seq<u8>) -> bool {
    suffix.len() <= s.len() && s.subrange(s.len() - suffix.len(), s.len() as int) == suffix
}

/// Whether the file name `path` ends with `ext` (such as ".png"), byte for byte.
pub fn has_extension(path: &str, ext: &str) -> (r: bool)
    ensures
        r == ends_with(path.spec_bytes(), ext.spec_bytes()),
{
    let p = path.as_bytes();
    let e = ext.as_bytes();
    if e.len() > p.len() {
        return false;
    }
    let plen = p.len();
    let base: usize = plen - e.len();
    let mut i: usize = 0;
    while i < e.len()
        invariant
            p@ == path.spec_bytes(),
            e@ == ext.spec_bytes(),
            base == p@.len() - e@.len(),
            e@.len() <= p@.len(),
            plen == p@.len(),
            i <= e@.len(),
            forall|j: int| 0 <= j < i ==> p@[base + j] == e@[j],
        decreases e@.len() - i,
    {
        if p[base + i] != e[i] {
            assert(p@.subrange(base as int, p@.len() as int)[i as int] != e@[i as int]);
            return false;
        }
        i = i + 1;
    }
    assert(p@.subrange(base as int, p@.len() as int) =~= e@);
    true
}

} // verus!
