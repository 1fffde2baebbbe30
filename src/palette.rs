use vstd::prelude::*;
use crate::color::Color;
use crate::grid::{transpose, GRID, cell_index};

verus! {

/// A decoded image: `width * height` pixels, row by row, four bytes (RGBA) each.
pub struct PixelImage {
    pub width: usize,
    pub height: usize,
    pub data: Vec<u8>,
}

/// Why a palette could not be imported.
#[derive(Clone, Copy, Debug, PartialEq, Eq, Structural)]
pub enum ImportError {
    /// The image has no pixels, or its bytes do not match its size.
    Decode,
}

impl PixelImage {
    pub open spec fn wf(&self) -> bool {
        self.data@.len() == 4 * (self.width * self.height)
    }

    /// The byte offset of pixel `(x, y)`.
    pub open spec fn offset(&self, x: int, y: int) -> int {
        4 * (y * self.width + x)
    }

    /// The palette entry for pixel `(x, y)`: empty where the pixel is fully transparent,
    /// else its color made opaque.
    pub open spec fn entry(&self, x: int, y: int) -> Option<Color> {
        let o = self.offset(x, y);
        if self.data@[o + 3] == 0 {
            None
        } else {
            Some(Color { r: self.data@[o], g: self.data@[o + 1], b: self.data@[o + 2], a: 255 })
        }
    }
}

proof fn lemma_pixel_in_range(w: int, h: int, x: int, y: int)
    requires
        0 <= x < w,
        0 <= y < h,
    ensures
        0 <= y * w + x,
        y * w + x + 1 <= w * h,
{
    assert(0 <= y * w) by (nonlinear_arith)
        requires
            0 <= y,
            0 <= w,
    ;
    assert((y + 1) * w <= h * w) by (nonlinear_arith)
        requires
            y + 1 <= h,
            0 <= w,
    ;
    assert((y + 1) * w == y * w + w) by (nonlinear_arith);
    assert(w * h == h * w) by (nonlinear_arith);
}

/// Reads the palette entry of pixel `(x, y)`.
fn entry_at(img: &PixelImage, x: usize, y: usize) -> (r: Option<Color>)
    requires
        img.wf(),
        x < img.width,
        y < img.height,
    ensures
        r == img.entry(x as int, y as int),
{
    let len = img.data.len();
    proof {
        lemma_pixel_in_range(img.width as int, img.height as int, x as int, y as int);
    }
    assert(4 * (y * img.width + x) + 4 <= len);
    let o: usize = 4 * (y * img.width + x);
    let alpha = img.data[o + 3];
    if alpha == 0 {
        None
    } else {
        Some(Color { r: img.data[o], g: img.data[o + 1], b: img.data[o + 2], a: 255 })
    }
}

/// The entries of a decoded image as a grid addressed `[x][y]`, as large as the image:
/// the rows of pixels are read in order and then transposed.
fn image_columns(img: &PixelImage) -> (r: Vec<Vec<Option<Color>>>)
    requires
        img.wf(),
    ensures
        img.width == 0 || img.height == 0 ==> r@.len() == 0,
        img.width > 0 && img.height > 0 ==> {
            &&& r@.len() == img.width
            &&& forall|x: int| 0 <= x < img.width ==> (#[trigger] r@[x])@.len() == img.height
            &&& forall|x: int, y: int|
                0 <= x < img.width && 0 <= y < img.height ==> #[trigger] r@[x]@[y] == img.entry(
                    x,
                    y,
                )
        },
{
    let mut rows: Vec<Vec<Option<Color>>> = Vec::with_capacity(img.height);
    let mut y: usize = 0;
    while y < img.height
        invariant
            img.wf(),
            y <= img.height,
            rows@.len() == y,
            forall|j: int| 0 <= j < y ==> (#[trigger] rows@[j])@.len() == img.width,
            forall|j: int, x: int|
                0 <= j < y && 0 <= x < img.width ==> #[trigger] rows@[j]@[x] == img.entry(x, j),
        decreases img.height - y,
    {
        let mut row: Vec<Option<Color>> = Vec::with_capacity(img.width);
        let mut x: usize = 0;
        while x < img.width
            invariant
                img.wf(),
                y < img.height,
                x <= img.width,
                row@.len() == x,
                forall|i: int| 0 <= i < x ==> #[trigger] row@[i] == img.entry(i, y as int),
            decreases img.width - x,
        {
            row.push(entry_at(img, x, y));
            x = x + 1;
        }
        rows.push(row);
        y = y + 1;
    }
    let r = transpose(rows);
    proof {
        if img.width > 0 && img.height > 0 {
            assert forall|x: int, y: int|
                0 <= x < img.width && 0 <= y < img.height implies #[trigger] r@[x]@[y]
                == img.entry(x, y) by {
                assert(cloned(rows@[y]@[x], r@[x]@[y]));
            }
        }
    }
    r
}

/// The palette that a decoded image gives, as a 16 by 16 grid addressed `[x][y]`: the
/// rows of pixels are read and transposed, pixel `(x, y)` fills cell `(x, y)`, cells
/// beyond the image stay empty and pixels beyond the grid are dropped. Fails when the
/// image has no pixels or its bytes do not match its size.
pub fn parse_png_to_matrix(img: &PixelImage) -> (r: Result<Vec<Vec<Option<Color>>>, ImportError>)
    ensures
        r.is_ok() <==> img.wf() && img.width > 0 && img.height > 0,
        r.is_err() ==> r == Err::<Vec<Vec<Option<Color>>>, ImportError>(ImportError::Decode),
        r matches Ok(m) ==> {
            &&& m@.len() == 16
            &&& forall|x: int| 0 <= x < 16 ==> (#[trigger] m@[x])@.len() == 16
            &&& forall|x: int, y: int|
                0 <= x < 16 && 0 <= y < 16 ==> #[trigger] m@[x]@[y] == imported_entry(img, x, y)
        },
{
    let len = img.data.len();
    let size = match img.width.checked_mul(img.height) {
        Some(n) => n.checked_mul(4),
        None => None,
    };
    match size {
        Some(n) => {
            if n != img.data.len() {
                return Err(ImportError::Decode);
            }
        },
        None => {
            assert(!img.wf()) by {
                assert(len <= usize::MAX);
                assert(img.width * img.height >= 0) by (nonlinear_arith);
            }
            return Err(ImportError::Decode);
        },
    }
    if img.width == 0 || img.height == 0 {
        return Err(ImportError::Decode);
    }
    let columns = image_columns(img);
    let mut m: Vec<Vec<Option<Color>>> = Vec::with_capacity(16);
    let mut x: usize = 0;
    while x < GRID
        invariant
            img.wf(),
            img.width > 0,
            img.height > 0,
            columns@.len() == img.width,
            forall|i: int| 0 <= i < img.width ==> (#[trigger] columns@[i])@.len() == img.height,
            forall|i: int, j: int|
                0 <= i < img.width && 0 <= j < img.height ==> #[trigger] columns@[i]@[j]
                    == img.entry(i, j),
            x <= 16,
            m@.len() == x,
            forall|i: int| 0 <= i < x ==> (#[trigger] m@[i])@.len() == 16,
            forall|i: int, j: int|
                0 <= i < x && 0 <= j < 16 ==> #[trigger] m@[i]@[j] == imported_entry(img, i, j),
        decreases 16 - x,
    {
        let mut column: Vec<Option<Color>> = Vec::with_capacity(16);
        let mut y: usize = 0;
        while y < GRID
            invariant
                img.wf(),
                img.width > 0,
                img.height > 0,
                columns@.len() == img.width,
                forall|i: int| 0 <= i < img.width ==> (#[trigger] columns@[i])@.len() == img.height,
                forall|i: int, j: int|
                    0 <= i < img.width && 0 <= j < img.height ==> #[trigger] columns@[i]@[j]
                        == img.entry(i, j),
                x < 16,
                y <= 16,
                column@.len() == y,
                forall|j: int| 0 <= j < y ==> #[trigger] column@[j] == imported_entry(img, x as int, j),
            decreases 16 - y,
        {
            if x < img.width && y < img.height {
                column.push(columns[x][y]);
            } else {
                column.push(None);
            }
            y = y + 1;
        }
        m.push(column);
        x = x + 1;
    }
    Ok(m)
}

} // verus!

verus! {

/// The colors that frames refer to: a 16 by 16 grid of optional colors,
/// stored column by column (cell `(x, y)` at `x * 16 + y`).
pub struct Palette {
    pub cells: Vec<Option<Color>>,
}

impl View for Palette {
    type V = Seq<Option<Color>>;

    open spec fn view(&self) -> Seq<Option<Color>> {
        self.cells@
    }
}

/// Entry `(x, y)` of a palette; empty outside the grid.
pub open spec fn palette_entry(p: Seq<Option<Color>>, x: int, y: int) -> Option<Color> {
    if 0 <= x < 16 && 0 <= y < 16 {
        p[cell_index(x, y)]
    } else {
        None
    }
}

/// What importing `img` puts at `(x, y)`: the pixel's entry where the image has one.
pub open spec fn imported_entry(img: &PixelImage, x: int, y: int) -> Option<Color> {
    if x < img.width && y < img.height {
        img.entry(x, y)
    } else {
        None
    }
}

impl Palette {
    pub open spec fn wf(&self) -> bool {
        self.cells@.len() == 256
    }

    /// A palette with every cell empty.
    pub fn empty() -> (r: Palette)
        ensures
            r.wf(),
            forall|i: int| 0 <= i < 256 ==> (#[trigger] r@[i]).is_none(),
    {
        let mut cells: Vec<Option<Color>> = Vec::with_capacity(256);
        let mut i: usize = 0;
        while i < 256
            invariant
                i <= 256,
                cells@.len() == i,
                forall|j: int| 0 <= j < i ==> (#[trigger] cells@[j]).is_none(),
            decreases 256 - i,
        {
            cells.push(None);
            i = i + 1;
        }
        Palette { cells }
    }

    /// The color at `(x, y)`; `None` for an empty cell or a position outside the grid.
    pub fn get(&self, x: usize, y: usize) -> (r: Option<Color>)
        requires
            self.wf(),
        ensures
            r == palette_entry(self@, x as int, y as int),
    {
        if x < GRID && y < GRID {
            self.cells[x * GRID + y]
        } else {
            None
        }
    }

    /// Builds the palette from a decoded image. Pixel `(x, y)` of the image fills cell
    /// `(x, y)`; cells beyond the image stay empty and pixels beyond the grid are dropped.
    /// Fails when the image has no pixels or its bytes do not match its size.
    pub fn import(img: &PixelImage) -> (r: Result<Palette, ImportError>)
        ensures
            r.is_ok() <==> img.wf() && img.width > 0 && img.height > 0,
            r.is_err() ==> r == Err::<Palette, ImportError>(ImportError::Decode),
            r matches Ok(p) ==> p.wf() && forall|x: int, y: int|
                0 <= x < 16 && 0 <= y < 16 ==> #[trigger] palette_entry(p@, x, y)
                    == imported_entry(img, x, y),
    {
        let matrix = match parse_png_to_matrix(img) {
            Ok(m) => m,
            Err(e) => return Err(e),
        };
        let mut cells: Vec<Option<Color>> = Vec::with_capacity(256);
        let mut x: usize = 0;
        while x < GRID
            invariant
                matrix@.len() == 16,
                forall|i: int| 0 <= i < 16 ==> (#[trigger] matrix@[i])@.len() == 16,
                forall|i: int, j: int|
                    0 <= i < 16 && 0 <= j < 16 ==> #[trigger] matrix@[i]@[j] == imported_entry(img, i, j),
                x <= 16,
                cells@.len() == x * 16,
                forall|i: int, j: int|
                    0 <= i < x && 0 <= j < 16 ==> cells@[#[trigger] cell_index(i, j)]
                        == imported_entry(img, i, j),
            decreases 16 - x,
        {
            let mut y: usize = 0;
            while y < GRID
                invariant
                    matrix@.len() == 16,
                    forall|i: int| 0 <= i < 16 ==> (#[trigger] matrix@[i])@.len() == 16,
                    forall|i: int, j: int|
                        0 <= i < 16 && 0 <= j < 16 ==> #[trigger] matrix@[i]@[j] == imported_entry(img, i, j),
                    x < 16,
                    y <= 16,
                    cells@.len() == x * 16 + y,
                    forall|i: int, j: int|
                        (0 <= i < x && 0 <= j < 16) || (i == x && 0 <= j < y) ==> cells@[
                            #[trigger] cell_index(i, j)] == imported_entry(img, i, j),
                decreases 16 - y,
            {
                cells.push(matrix[x][y]);
                y = y + 1;
            }
            x = x + 1;
        }
        Ok(Palette { cells })
    }
}

} // verus!
