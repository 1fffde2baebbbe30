//! Pixel-art sprites painted with references into a palette image.
//!
//! A palette is a 16 by 16 grid of colors imported from an image. Each frame of an
//! animation is a 16 by 16 grid whose cells refer to palette cells, so that a change of
//! palette shows in every frame. The editor turns pointer input into edits of the frame
//! being painted: drags from the palette assign references, drags on the frame with ctrl
//! or command move them, and shift empties cells.
mod color;
mod document;
mod drag;
mod editor;
mod export;
mod frame;
mod grid;
mod palette;

pub use color::{Checker, Color, get_checkerboard};
pub use document::{FileError, PxRefFile, has_extension, lemma_ref_file_round_trip};
pub use drag::{
    DragSession, Edit, FRAME_LEFT, GRID_TOP, PALETTE_LEFT, PointerInput, Pos, Preview, Side,
    apply_edit, cell_under, classify, edit_for, eraser, follow, lemma_applied_keeps_refs, preview,
    settle,
};
pub use editor::{
    EditError, LoadError, TemplateApp, lemma_ctrl_release_moves, lemma_drag_outside_edits_nothing,
    lemma_palette_release_assigns, lemma_release_outside_edits_nothing, lemma_shift_drag_clears,
    lemma_shift_press_clears,
};
pub use export::render_strip;
pub use frame::{Frame, lemma_empty_cell_shows_nothing};
pub use grid::{GRID, transpose};
pub use palette::{ImportError, Palette, PixelImage, parse_png_to_matrix, imported_entry};
