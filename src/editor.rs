use vstd::prelude::*;
use crate::color::Color;
use crate::drag::{
    DragSession, FRAME_LEFT, PALETTE_LEFT, PointerInput, Preview, Side,
    applied, apply_edit, cell_at, lemma_applied_keeps_refs, classified, classify, drag_edit, edit_for,
    eraser, eraser_edit, follow, followed, idle_session, preview, preview_of, settle, settled,
};
use crate::document::{PxRefFile, frames_read, frames_written, matrix_view, readable};
use crate::frame::{Frame, frame_entry, in_grid, is_blank, refs_in_palette};
use crate::grid::cell_index;
use crate::palette::{ImportError, Palette, PixelImage, imported_entry, palette_entry};

verus! {

/// Why an editing action was refused.
#[derive(Clone, Copy, Debug, PartialEq, Eq, Structural)]
pub enum EditError {
    /// The only frame cannot be removed.
    LastFrame,
}

/// The editor: the palette, the frames painted with references into it, the frame being
/// edited and the drag in progress.
pub struct TemplateApp {
    /// The palette image's path, kept so that the palette can be read again.
    pub file_path: Option<String>,
    pub palette: Palette,
    pub frames: Vec<Frame>,
    pub current_frame: usize,
    pub drag: DragSession,
    pub is_animating: bool,
}

/// The frames as sequences of cells.
pub open spec fn frames_view(frames: Seq<Frame>) -> Seq<Seq<Option<(usize, usize)>>> {
    frames.map_values(|f: Frame| f@)
}

/// There is at least one frame, and every frame is a 16 by 16 grid whose references
/// name palette cells.
pub open spec fn frames_wf(frames: Seq<Frame>) -> bool {
    &&& frames.len() >= 1
    &&& forall|k: int| 0 <= k < frames.len() ==> (#[trigger] frames[k]).wf()
    &&& forall|k: int| 0 <= k < frames.len() ==> refs_in_palette(#[trigger] frames[k]@)
}

/// The session after one tick of pointer input.
pub open spec fn tick_session(
    s: DragSession,
    i: PointerInput,
    f: Seq<Option<(usize, usize)>>,
    p: Seq<Option<Color>>,
) -> DragSession {
    settled(classified(followed(s, i), f, p))
}

/// The edited frame after one tick of pointer input: the drag's edit, then the eraser's.
pub open spec fn tick_frame(
    s: DragSession,
    i: PointerInput,
    f: Seq<Option<(usize, usize)>>,
    p: Seq<Option<Color>>,
) -> Seq<Option<(usize, usize)>> {
    applied(applied(f, drag_edit(classified(followed(s, i), f, p), i)), eraser_edit(i))
}

/// What is drawn over the grids after one tick of pointer input.
pub open spec fn tick_preview(
    s: DragSession,
    i: PointerInput,
    f: Seq<Option<(usize, usize)>>,
    p: Seq<Option<Color>>,
) -> Preview {
    preview_of(classified(followed(s, i), f, p), i)
}

impl TemplateApp {
    pub open spec fn wf(&self) -> bool {
        &&& self.palette.wf()
        &&& frames_wf(self.frames@)
        &&& self.current_frame < self.frames@.len()
    }

    /// The cells of frame `k`.
    pub open spec fn frame(&self, k: int) -> Seq<Option<(usize, usize)>> {
        self.frames@[k]@
    }

    /// A fresh editor: no palette path, an empty palette, one empty frame, no drag.
    pub fn new_editor() -> (r: TemplateApp)
        ensures
            r.wf(),
            r.file_path.is_none(),
            r.frames@.len() == 1,
            is_blank(r.frame(0)),
            r.current_frame == 0,
            forall|i: int| 0 <= i < 256 ==> (#[trigger] r.palette@[i]).is_none(),
            r.drag == idle_session(),
            !r.is_animating,
    {
        let mut frames: Vec<Frame> = Vec::new();
        frames.push(Frame::empty());
        TemplateApp {
            file_path: None,
            palette: Palette::empty(),
            frames,
            current_frame: 0,
            drag: DragSession {
                start: None,
                end: None,
                active: false,
                color: None,
                reference: None,
                side: Side::Idle,
            },
            is_animating: false,
        }
    }

    /// Makes frame `index` the one being edited.
    pub fn select_frame(&mut self, index: usize)
        requires
            old(self).wf(),
            index < old(self).frames@.len(),
        ensures
            final(self).wf(),
            final(self).current_frame == index,
            final(self).frames@ == old(self).frames@,
            final(self).palette@ == old(self).palette@,
    {
        self.current_frame = index;
    }

    /// Appends an empty frame and selects it.
    pub fn add_frame(&mut self)
        requires
            old(self).wf(),
            old(self).frames@.len() < usize::MAX,
        ensures
            final(self).wf(),
            final(self).frames@.len() == old(self).frames@.len() + 1,
            final(self).frames@.subrange(0, old(self).frames@.len() as int) == old(self).frames@,
            is_blank(final(self).frame(old(self).frames@.len() as int)),
            final(self).current_frame == old(self).frames@.len(),
            final(self).palette@ == old(self).palette@,
    {
        let n = self.frames.len();
        self.frames.push(Frame::empty());
        self.current_frame = n;
        assert(self.frames@.subrange(0, n as int) =~= old(self).frames@);
    }

    /// Removes frame `index`. The only frame cannot be removed: the editor is then left
    /// as it was. Removing a frame at or before the selected one selects the frame before
    /// it (or the first).
    pub fn remove_frame(&mut self, index: usize) -> (r: Result<(), EditError>)
        requires
            old(self).wf(),
            index < old(self).frames@.len(),
        ensures
            final(self).wf(),
            final(self).palette@ == old(self).palette@,
            r.is_err() <==> old(self).frames@.len() == 1,
            r.is_err() ==> r == Err::<(), EditError>(EditError::LastFrame) && final(self).frames@
                == old(self).frames@ && final(self).current_frame == old(self).current_frame,
            r.is_ok() ==> final(self).frames@ == old(self).frames@.remove(index as int),
            r.is_ok() ==> final(self).current_frame == if index <= old(self).current_frame
                && old(self).current_frame > 0 {
                (old(self).current_frame - 1) as usize
            } else {
                old(self).current_frame
            },
    {
        if self.frames.len() == 1 {
            return Err(EditError::LastFrame);
        }
        self.frames.remove(index);
        if index <= self.current_frame && self.current_frame > 0 {
            self.current_frame = self.current_frame - 1;
        }
        assert forall|k: int| 0 <= k < self.frames@.len() implies (#[trigger] self.frames@[k]).wf() by {
            if k >= index {
                assert(self.frames@[k] == old(self).frames@[k + 1]);
            }
        }
        Ok(())
    }

    /// Empties every cell of the selected frame.
    pub fn clear_current_frame(&mut self)
        requires
            old(self).wf(),
        ensures
            final(self).wf(),
            final(self).current_frame == old(self).current_frame,
            final(self).frames@.len() == old(self).frames@.len(),
            is_blank(final(self).frame(old(self).current_frame as int)),
            forall|k: int|
                0 <= k < old(self).frames@.len() && k != old(self).current_frame ==> #[trigger] final(self).frames@[k]
                    == old(self).frames@[k],
            final(self).palette@ == old(self).palette@,
    {
        self.frames.set(self.current_frame, Frame::empty());
    }

    /// Starts or stops playback.
    pub fn toggle_animation(&mut self)
        ensures
            final(self).is_animating == !old(self).is_animating,
            final(self).frames@ == old(self).frames@,
            final(self).current_frame == old(self).current_frame,
            final(self).palette@ == old(self).palette@,
            final(self).wf() == old(self).wf(),
    {
        self.is_animating = !self.is_animating;
    }

    /// Replaces the palette with one imported from `img`, read from `path`. On failure the
    /// editor is left as it was.
    pub fn load_palette(&mut self, path: String, img: &PixelImage) -> (r: Result<(), ImportError>)
        requires
            old(self).wf(),
        ensures
            final(self).wf(),
            final(self).frames@ == old(self).frames@,
            final(self).current_frame == old(self).current_frame,
            r.is_ok() <==> img.wf() && img.width > 0 && img.height > 0,
            r.is_err() ==> final(self).palette@ == old(self).palette@ && final(self).file_path
                == old(self).file_path,
            r.is_ok() ==> final(self).file_path == Some(path) && forall|x: int, y: int|
                0 <= x < 16 && 0 <= y < 16 ==> #[trigger] palette_entry(final(self).palette@, x, y)
                    == imported_entry(img, x, y),
    {
        match Palette::import(img) {
            Ok(p) => {
                self.palette = p;
                self.file_path = Some(path);
                Ok(())
            },
            Err(e) => Err(e),
        }
    }

    /// One tick of pointer input on the selected frame: the drag session follows the
    /// pointer, a finished drag or the eraser edits the selected frame, and the preview to
    /// draw is returned.
    pub fn handle_pointer(&mut self, input: &PointerInput) -> (r: Preview)
        requires
            old(self).wf(),
        ensures
            final(self).wf(),
            final(self).palette@ == old(self).palette@,
            final(self).current_frame == old(self).current_frame,
            final(self).file_path == old(self).file_path,
            final(self).frames@.len() == old(self).frames@.len(),
            forall|k: int|
                0 <= k < old(self).frames@.len() && k != old(self).current_frame ==> #[trigger] final(self).frames@[k]
                    == old(self).frames@[k],
            final(self).frame(old(self).current_frame as int) == tick_frame(
                old(self).drag,
                *input,
                old(self).frame(old(self).current_frame as int),
                old(self).palette@,
            ),
            final(self).drag == tick_session(
                old(self).drag,
                *input,
                old(self).frame(old(self).current_frame as int),
                old(self).palette@,
            ),
            r == tick_preview(
                old(self).drag,
                *input,
                old(self).frame(old(self).current_frame as int),
                old(self).palette@,
            ),
            ({
                let f = old(self).frame(old(self).current_frame as int);
                let g = final(self).frame(old(self).current_frame as int);
                let s = old(self).drag;
                &&& forall|from: (usize, usize), to: (usize, usize)|
                    #[trigger] move_release(s, *input, from, to) && from != to ==> (frame_entry(
                        f,
                        from.0 as int,
                        from.1 as int,
                    ) matches Some(r) ==> frame_entry(g, to.0 as int, to.1 as int) == Some(r)
                        && frame_entry(g, from.0 as int, from.1 as int).is_none())
                &&& forall|from: (usize, usize), to: (usize, usize)|
                    #[trigger] move_release(s, *input, from, to) && frame_entry(
                        f,
                        from.0 as int,
                        from.1 as int,
                    ).is_none() ==> g == f
                &&& forall|source: (usize, usize), target: (usize, usize)|
                    #[trigger] palette_release(s, *input, source, target) ==> frame_entry(
                        g,
                        target.0 as int,
                        target.1 as int,
                    ) == Some(source)
                &&& release_outside(s, *input) ==> g == f
                &&& forall|c: (usize, usize)|
                    #[trigger] shift_drag_over(*input, c) ==> frame_entry(g, c.0 as int, c.1 as int).is_none()
                &&& forall|c: (usize, usize)|
                    #[trigger] shift_press_on(*input, c) ==> frame_entry(g, c.0 as int, c.1 as int).is_none()
                &&& drag_outside(*input) ==> g == f
            }),
    {
        let cur = self.current_frame;
        let mut frame = Frame { cells: Vec::new() };
        self.frames.set_and_swap(cur, &mut frame);
        assert(frame == old(self).frames@[cur as int]);
        let s = classify(follow(self.drag, input), &frame, &self.palette);
        let drag_change = edit_for(&s, input);
        let ghost f0 = frame@;
        apply_edit(&mut frame, drag_change);
        let ghost f1 = frame@;
        let erase = eraser(input);
        apply_edit(&mut frame, erase);
        proof {
            assert(refs_in_palette(old(self).frames@[cur as int]@));
            lemma_applied_keeps_refs(f0, drag_change);
            lemma_applied_keeps_refs(f1, erase);
            let s0 = old(self).drag;
            let p = self.palette@;
            assert forall|from: (usize, usize), to: (usize, usize)|
                #[trigger] move_release(s0, *input, from, to) implies {
                &&& (from != to ==> (frame_entry(f0, from.0 as int, from.1 as int) matches Some(r)
                    ==> frame_entry(frame@, to.0 as int, to.1 as int) == Some(r) && frame_entry(
                    frame@,
                    from.0 as int,
                    from.1 as int,
                ).is_none()))
                &&& (frame_entry(f0, from.0 as int, from.1 as int).is_none() ==> frame@ == f0)
            } by {
                lemma_ctrl_release_moves(s0, *input, f0, p, from, to);
            }
            assert forall|source: (usize, usize), target: (usize, usize)|
                #[trigger] palette_release(s0, *input, source, target) implies frame_entry(
                frame@,
                target.0 as int,
                target.1 as int,
            ) == Some(source) by {
                lemma_palette_release_assigns(s0, *input, f0, p, source, target);
            }
            if release_outside(s0, *input) {
                lemma_release_outside_edits_nothing(s0, *input, f0, p);
            }
            assert forall|c: (usize, usize)| #[trigger] shift_drag_over(*input, c) implies frame_entry(
                frame@,
                c.0 as int,
                c.1 as int,
            ).is_none() by {
                lemma_shift_drag_clears(s0, *input, f0, p, c);
            }
            assert forall|c: (usize, usize)| #[trigger] shift_press_on(*input, c) implies frame_entry(
                frame@,
                c.0 as int,
                c.1 as int,
            ).is_none() by {
                lemma_shift_press_clears(s0, *input, f0, p, c);
            }
            if drag_outside(*input) {
                lemma_drag_outside_edits_nothing(s0, *input, f0, p);
            }
        }
        let shown = preview(&s, input);
        self.drag = settle(s);
        let ghost edited = frame;
        self.frames.set_and_swap(cur, &mut frame);
        assert(self.frames@ =~= old(self).frames@.update(cur as int, edited));
        shown
    }
}

} // verus!

verus! {

/// A release, with ctrl or command held, of a drag pressed on frame cell `from` whose
/// last position was over frame cell `to`.
pub open spec fn move_release(s: DragSession, i: PointerInput, from: (usize, usize), to: (usize, usize)) -> bool {
    &&& !i.dragging
    &&& !i.pressed
    &&& i.ctrl || i.command
    &&& s.start.is_some()
    &&& s.start.unwrap().x < PALETTE_LEFT
    &&& cell_at(s.start.unwrap(), FRAME_LEFT as int) == Some(from)
    &&& s.end.is_some()
    &&& cell_at(s.end.unwrap(), FRAME_LEFT as int) == Some(to)
}

/// A release of a drag pressed on palette cell `source` whose last position was over
/// frame cell `target`.
pub open spec fn palette_release(
    s: DragSession,
    i: PointerInput,
    source: (usize, usize),
    target: (usize, usize),
) -> bool {
    &&& !i.dragging
    &&& !i.pressed
    &&& s.start.is_some()
    &&& s.start.unwrap().x >= PALETTE_LEFT
    &&& cell_at(s.start.unwrap(), PALETTE_LEFT as int) == Some(source)
    &&& s.end.is_some()
    &&& cell_at(s.end.unwrap(), FRAME_LEFT as int) == Some(target)
}

/// A release whose last drag position lies outside the frame grid.
pub open spec fn release_outside(s: DragSession, i: PointerInput) -> bool {
    &&& !i.dragging
    &&& !i.pressed
    &&& s.end.is_some()
    &&& cell_at(s.end.unwrap(), FRAME_LEFT as int).is_none()
}

/// A tick of a drag pressed on the frame side, with shift held, whose pointer is over
/// frame cell `c`.
pub open spec fn shift_drag_over(i: PointerInput, c: (usize, usize)) -> bool {
    &&& i.dragging
    &&& i.shift
    &&& i.press_origin.is_some()
    &&& i.press_origin.unwrap().x < PALETTE_LEFT
    &&& i.latest.is_some()
    &&& cell_at(i.latest.unwrap(), FRAME_LEFT as int) == Some(c)
}

/// A press with shift held over frame cell `c`.
pub open spec fn shift_press_on(i: PointerInput, c: (usize, usize)) -> bool {
    &&& i.pressed
    &&& i.shift
    &&& i.latest.is_some()
    &&& cell_at(i.latest.unwrap(), FRAME_LEFT as int) == Some(c)
}

/// A tick of a drag whose pointer lies outside the frame grid.
pub open spec fn drag_outside(i: PointerInput) -> bool {
    &&& i.dragging
    &&& i.press_origin.is_some()
    &&& i.latest.is_some()
    &&& cell_at(i.latest.unwrap(), FRAME_LEFT as int).is_none()
}

/// A move release from a cell that holds a reference to another cell: `to` gets what
/// `from` held, `from` is emptied, every other cell keeps its content, and the drag is
/// over. From a cell that holds nothing, the frame is left as it was.
pub proof fn lemma_ctrl_release_moves(
    s: DragSession,
    i: PointerInput,
    f: Seq<Option<(usize, usize)>>,
    p: Seq<Option<Color>>,
    from: (usize, usize),
    to: (usize, usize),
)
    requires
        f.len() == 256,
        move_release(s, i, from, to),
    ensures
        ({
            let g = tick_frame(s, i, f, p);
            &&& frame_entry(f, from.0 as int, from.1 as int).is_some() && from != to ==> {
                &&& frame_entry(g, to.0 as int, to.1 as int) == frame_entry(f, from.0 as int, from.1 as int)
                &&& frame_entry(g, from.0 as int, from.1 as int).is_none()
                &&& forall|x: int, y: int|
                    in_grid(x, y) && (x, y) != (from.0 as int, from.1 as int) && (x, y) != (
                        to.0 as int,
                        to.1 as int,
                    ) ==> #[trigger] frame_entry(g, x, y) == frame_entry(f, x, y)
            }
            &&& frame_entry(f, from.0 as int, from.1 as int).is_none() ==> g == f
            &&& tick_session(s, i, f, p) == idle_session()
        }),
{
    let g = tick_frame(s, i, f, p);
    if frame_entry(f, from.0 as int, from.1 as int).is_some() && from != to {
        assert forall|x: int, y: int|
            in_grid(x, y) && (x, y) != (from.0 as int, from.1 as int) && (x, y) != (
                to.0 as int,
                to.1 as int,
            ) implies #[trigger] frame_entry(g, x, y) == frame_entry(f, x, y) by {
            assert(cell_index(x, y) != cell_index(from.0 as int, from.1 as int));
            assert(cell_index(x, y) != cell_index(to.0 as int, to.1 as int));
        }
    }
}

/// A palette release over a frame cell makes that cell refer to the palette cell; every
/// other cell keeps its content, and the drag is over.
pub proof fn lemma_palette_release_assigns(
    s: DragSession,
    i: PointerInput,
    f: Seq<Option<(usize, usize)>>,
    p: Seq<Option<Color>>,
    source: (usize, usize),
    target: (usize, usize),
)
    requires
        f.len() == 256,
        palette_release(s, i, source, target),
    ensures
        ({
            let g = tick_frame(s, i, f, p);
            &&& frame_entry(g, target.0 as int, target.1 as int) == Some(source)
            &&& forall|x: int, y: int|
                in_grid(x, y) && (x, y) != (target.0 as int, target.1 as int) ==> #[trigger] frame_entry(g, x, y)
                    == frame_entry(f, x, y)
            &&& tick_session(s, i, f, p) == idle_session()
        }),
{
    let g = tick_frame(s, i, f, p);
    assert forall|x: int, y: int|
        in_grid(x, y) && (x, y) != (target.0 as int, target.1 as int) implies #[trigger] frame_entry(g, x, y)
            == frame_entry(f, x, y) by {
        assert(cell_index(x, y) != cell_index(target.0 as int, target.1 as int));
    }
}

/// A release outside the frame grid edits nothing and ends the drag.
pub proof fn lemma_release_outside_edits_nothing(
    s: DragSession,
    i: PointerInput,
    f: Seq<Option<(usize, usize)>>,
    p: Seq<Option<Color>>,
)
    requires
        release_outside(s, i),
    ensures
        tick_frame(s, i, f, p) == f,
        tick_session(s, i, f, p) == idle_session(),
{
}

/// Dragging from the frame with shift held empties the frame cell under the pointer,
/// whatever it held.
pub proof fn lemma_shift_drag_clears(
    s: DragSession,
    i: PointerInput,
    f: Seq<Option<(usize, usize)>>,
    p: Seq<Option<Color>>,
    c: (usize, usize),
)
    requires
        f.len() == 256,
        shift_drag_over(i, c),
    ensures
        frame_entry(tick_frame(s, i, f, p), c.0 as int, c.1 as int).is_none(),
{
}

/// A press with shift held empties the frame cell under the pointer, whatever it held.
pub proof fn lemma_shift_press_clears(
    s: DragSession,
    i: PointerInput,
    f: Seq<Option<(usize, usize)>>,
    p: Seq<Option<Color>>,
    c: (usize, usize),
)
    requires
        f.len() == 256,
        shift_press_on(i, c),
    ensures
        frame_entry(tick_frame(s, i, f, p), c.0 as int, c.1 as int).is_none(),
{
}

/// A drag tick whose pointer lies outside the frame grid edits nothing, with or without
/// shift.
pub proof fn lemma_drag_outside_edits_nothing(
    s: DragSession,
    i: PointerInput,
    f: Seq<Option<(usize, usize)>>,
    p: Seq<Option<Color>>,
)
    requires
        drag_outside(i),
    ensures
        tick_frame(s, i, f, p) == f,
{
}

/// Why a saved piece of work could not be opened.
#[derive(Clone, Copy, Debug, PartialEq, Eq, Structural)]
pub enum LoadError {
    /// The file holds no frame, or a frame that is not 16 rows of 16 cells.
    Format,
    /// The palette image it names could not be read.
    Decode,
}

impl TemplateApp {
    /// The saved form of the work; `None` while no palette image has been loaded.
    pub fn ref_file(&self) -> (r: Option<PxRefFile>)
        requires
            self.wf(),
        ensures
            r.is_some() <==> self.file_path.is_some(),
            r matches Some(file) ==> Some(file.ref_png) == self.file_path && matrix_view(
                file.ref_matrix@,
            ) == frames_written(frames_view(self.frames@)),
    {
        match &self.file_path {
            Some(path) => Some(PxRefFile::from_frames(path.clone(), &self.frames)),
            None => None,
        }
    }

    /// Opens saved work: its frames, and the palette imported from `img`, the image at the
    /// path that the file names. The first frame is selected. On failure the editor is
    /// left as it was.
    pub fn load_ref_file(&mut self, file: PxRefFile, img: &PixelImage) -> (r: Result<(), LoadError>)
        requires
            old(self).wf(),
        ensures
            final(self).wf(),
            r.is_ok() <==> readable(matrix_view(file.ref_matrix@)) && img.wf() && img.width > 0
                && img.height > 0,
            !readable(matrix_view(file.ref_matrix@)) ==> r == Err::<(), LoadError>(LoadError::Format),
            readable(matrix_view(file.ref_matrix@)) && !(img.wf() && img.width > 0 && img.height > 0)
                ==> r == Err::<(), LoadError>(LoadError::Decode),
            r.is_err() ==> final(self).frames@ == old(self).frames@ && final(self).palette@ == old(
                self,
            ).palette@ && final(self).file_path == old(self).file_path && final(self).current_frame
                == old(self).current_frame,
            r.is_ok() ==> {
                &&& readable(matrix_view(file.ref_matrix@))
                &&& img.wf() && img.width > 0 && img.height > 0
                &&& final(self).file_path == Some(file.ref_png)
                &&& frames_view(final(self).frames@) == frames_read(matrix_view(file.ref_matrix@))
                &&& final(self).current_frame == 0
                &&& forall|x: int, y: int|
                    0 <= x < 16 && 0 <= y < 16 ==> #[trigger] palette_entry(final(self).palette@, x, y)
                        == imported_entry(img, x, y)
            },
    {
        let (path, frames) = match file.into_frames() {
            Ok(v) => v,
            Err(_) => return Err(LoadError::Format),
        };
        let palette = match Palette::import(img) {
            Ok(p) => p,
            Err(_) => return Err(LoadError::Decode),
        };
        self.palette = palette;
        self.frames = frames;
        self.file_path = Some(path);
        self.current_frame = 0;
        Ok(())
    }
}

impl Default for TemplateApp {
    fn default() -> (r: TemplateApp)
        ensures
            r.wf(),
            r.file_path.is_none(),
            r.frames@.len() == 1,
            is_blank(r.frame(0)),
            r.current_frame == 0,
            forall|i: int| 0 <= i < 256 ==> (#[trigger] r.palette@[i]).is_none(),
            r.drag == idle_session(),
            !r.is_animating,
    {
        TemplateApp::new_editor()
    }
}

} // verus!
