use vstd::prelude::*;
use vstd::arithmetic::div_mod::lemma_fundamental_div_mod_converse;
use crate::color::Color;
use crate::frame::{Frame, resolved};
use crate::palette::Palette;

verus! {

/// The four RGBA bytes of a pixel; nothing shown is fully transparent.
pub open spec fn pixel_bytes(c: Option<Color>) -> Seq<u8> {
    match c {
        Some(c) => seq![c.r, c.g, c.b, c.a],
        None => seq![0u8, 0u8, 0u8, 0u8],
    }
}

/// The color of pixel `(px, y)` of the strip: column block `px / 16` is that frame.
pub open spec fn strip_color(frames: Seq<Frame>, p: Seq<Option<Color>>, px: int, y: int) -> Option<Color> {
    resolved(frames[px / 16]@, p, px % 16, y)
}

/// Byte `j` of the strip, whose rows are `16 * frames.len()` pixels wide.
pub open spec fn strip_byte(frames: Seq<Frame>, p: Seq<Option<Color>>, j: int) -> u8 {
    let w = 16 * (frames.len() as int);
    let q = j / 4;
    pixel_bytes(strip_color(frames, p, q % w, q / w))[j % 4]
}

proof fn lemma_pixel_position(n: int, k: int, x: int, y: int)
    requires
        0 <= k < n,
        0 <= x < 16,
        0 <= y < 16,
    ensures
        ({
            let q = y * (16 * n) + 16 * k + x;
            &&& 0 <= q < 256 * n
            &&& q / (16 * n) == y
            &&& q % (16 * n) == 16 * k + x
            &&& (16 * k + x) / 16 == k
            &&& (16 * k + x) % 16 == x
        }),
{
    let w = 16 * n;
    let q = y * w + 16 * k + x;
    lemma_fundamental_div_mod_converse(q, w, y, 16 * k + x);
    lemma_fundamental_div_mod_converse(16 * k + x, 16, k, x);
    assert(0 <= y * w) by (nonlinear_arith)
        requires
            0 <= y,
            0 <= w,
    ;
    assert(y * w + w <= 16 * w) by (nonlinear_arith)
        requires
            y < 16,
            0 <= w,
    ;
}

proof fn lemma_pixel_split(n: int, q: int)
    requires
        0 < n,
        0 <= q < 256 * n,
    ensures
        0 <= q / (16 * n) < 16,
        0 <= (q % (16 * n)) / 16 < n,
{
    let w = 16 * n;
    assert(0 <= q / w < 16) by (nonlinear_arith)
        requires
            0 <= q < 16 * w,
            w > 0,
    ;
    assert(0 <= q % w < w) by (nonlinear_arith)
        requires
            w > 0,
    ;
    let rem = q % w;
    assert(0 <= rem / 16 < n) by (nonlinear_arith)
        requires
            0 <= rem < 16 * n,
    ;
}

/// Renders all frames side by side into one RGBA image, 16 pixels high and
/// `16 * frames.len()` wide, row by row: frame `k` fills the columns from `16 * k`, cell
/// `(x, y)` giving pixel `(16 * k + x, y)`. A cell that shows no color is transparent.
pub fn render_strip(frames: &Vec<Frame>, palette: &Palette) -> (r: Vec<u8>)
    requires
        palette.wf(),
        forall|k: int| 0 <= k < frames@.len() ==> (#[trigger] frames@[k]).wf(),
        frames@.len() * 1024 <= usize::MAX,
    ensures
        r@.len() == 1024 * frames@.len(),
        forall|j: int| 0 <= j < r@.len() ==> #[trigger] r@[j] == strip_byte(frames@, palette@, j),
        forall|k: int, x: int, y: int, c: int|
            0 <= k < frames@.len() && 0 <= x < 16 && 0 <= y < 16 && 0 <= c < 4 ==> #[trigger] r@[4
                * (y * (16 * frames@.len()) + 16 * k + x) + c] == #[trigger] pixel_bytes(
                resolved(frames@[k]@, palette@, x, y),
            )[c],
{
    let n = frames.len();
    let w: usize = 16 * n;
    let total: usize = 256 * n;
    let mut out: Vec<u8> = Vec::with_capacity(4 * total);
    let mut q: usize = 0;
    while q < total
        invariant
            palette.wf(),
            forall|k: int| 0 <= k < frames@.len() ==> (#[trigger] frames@[k]).wf(),
            n == frames@.len(),
            n * 1024 <= usize::MAX,
            w == 16 * n,
            total == 256 * n,
            q <= total,
            out@.len() == 4 * q,
            forall|j: int| 0 <= j < out@.len() ==> #[trigger] out@[j] == strip_byte(frames@, palette@, j),
        decreases total - q,
    {
        proof {
            lemma_pixel_split(n as int, q as int);
        }
        let y = q / w;
        let rem = q % w;
        let k = rem / 16;
        let x = rem % 16;
        let bytes: [u8; 4] = match frames[k].resolve(palette, x, y) {
            Some(c) => [c.r, c.g, c.b, c.a],
            None => [0, 0, 0, 0],
        };
        let ghost before = out@;
        let mut c: usize = 0;
        while c < 4
            invariant
                out@.len() == 4 * q + c,
                c <= 4,
                out@.subrange(0, 4 * q as int) == before,
                forall|i: int| 0 <= i < 4 ==> #[trigger] bytes@[i] == pixel_bytes(
                    resolved(frames@[k as int]@, palette@, x as int, y as int),
                )[i],
                forall|i: int| 0 <= i < c ==> #[trigger] out@[4 * q + i] == bytes@[i],
            decreases 4 - c,
        {
            out.push(bytes[c]);
            c = c + 1;
            assert(out@.subrange(0, 4 * q as int) =~= before);
        }
        assert forall|j: int| 0 <= j < 4 * q + 4 implies #[trigger] out@[j] == strip_byte(
            frames@,
            palette@,
            j,
        ) by {
            if j < 4 * q {
                assert(out@[j] == out@.subrange(0, 4 * q as int)[j]);
            } else {
                let i = j - 4 * q;
                lemma_fundamental_div_mod_converse(j, 4, q as int, i);
                assert(out@[4 * q + i] == bytes@[i]);
            }
        }
        q = q + 1;
    }
    proof {
        assert forall|k: int, x: int, y: int, c: int|
            0 <= k < n && 0 <= x < 16 && 0 <= y < 16 && 0 <= c < 4 implies #[trigger] out@[4 * (y
            * (16 * n) + 16 * k + x) + c] == #[trigger] pixel_bytes(
            resolved(frames@[k]@, palette@, x, y),
        )[c] by {
            let q = y * (16 * n) + 16 * k + x;
            lemma_pixel_position(n as int, k, x, y);
            lemma_fundamental_div_mod_converse(4 * q + c, 4, q, c);
        }
    }
    out
}

} // verus!
