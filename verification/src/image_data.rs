//! The RGBA pixel buffer that the compositor and the region mapper work on,
//! with the indexing lemmas and the verified blit used to stitch frames.

use vstd::prelude::*;

verus! {

/// An RGBA image: `data` holds the rows top to bottom, each row left to
/// right, four bytes (red, green, blue, alpha) per pixel.
#[derive(Debug)]
pub struct Image {
    pub width: u32,
    pub height: u32,
    pub data: Vec<u8>,
}

/// Byte `c` of the pixel at column `x`, row `y` of a row-major RGBA buffer
/// that is `w` pixels wide.
pub open spec fn buf_byte(data: Seq<u8>, w: int, x: int, y: int, c: int) -> u8 {
    data[4 * (y * w + x) + c]
}

/// The flat index of byte `c` of pixel `(x, y)` lies inside a `w` by `h`
/// buffer of four bytes per pixel.
pub proof fn lemma_byte_index_in_range(w: int, h: int, x: int, y: int, c: int)
    requires
        0 <= x < w,
        0 <= y < h,
        0 <= c < 4,
    ensures
        0 <= 4 * (y * w + x) + c < 4 * w * h,
{
    assert(0 <= 4 * (y * w + x) + c < 4 * w * h) by (nonlinear_arith)
        requires
            0 <= x < w,
            0 <= y < h,
            0 <= c < 4,
    ;
}

/// Two in-range byte coordinates with the same flat index are the same
/// coordinates.
pub proof fn lemma_byte_index_injective(
    w: int,
    x1: int,
    y1: int,
    c1: int,
    x2: int,
    y2: int,
    c2: int,
)
    requires
        0 <= x1 < w,
        0 <= x2 < w,
        0 <= c1 < 4,
        0 <= c2 < 4,
        0 <= y1,
        0 <= y2,
        4 * (y1 * w + x1) + c1 == 4 * (y2 * w + x2) + c2,
    ensures
        x1 == x2,
        y1 == y2,
        c1 == c2,
{
    assert(x1 == x2 && y1 == y2 && c1 == c2) by (nonlinear_arith)
        requires
            0 <= x1 < w,
            0 <= x2 < w,
            0 <= c1 < 4,
            0 <= c2 < 4,
            0 <= y1,
            0 <= y2,
            4 * (y1 * w + x1) + c1 == 4 * (y2 * w + x2) + c2,
    ;
}

impl Image {
    /// The buffer holds exactly four bytes for every pixel of the rectangle.
    pub open spec fn well_formed(self) -> bool {
        self.data@.len() == 4 * (self.width as int) * (self.height as int)
    }

    /// Byte `c` of the pixel at column `x`, row `y`.
    pub open spec fn byte_at(self, x: int, y: int, c: int) -> u8 {
        buf_byte(self.data@, self.width as int, x, y, c)
    }

    /// A zero-filled (fully transparent black) image of the given size.
    pub fn new_zeroed(width: u32, height: u32) -> (r: Image)
        requires
            4 * (width as int) * (height as int) <= usize::MAX as int,
        ensures
            r.well_formed(),
            r.width == width,
            r.height == height,
            forall|i: int| 0 <= i < r.data@.len() ==> r.data@[i] == 0u8,
    {
        let wu = width as usize;
        let hu = height as usize;
        proof {
            assert(0 <= (wu as int) * (hu as int) && (wu as int) * (hu as int) * 4 == 4 * (
            width as int) * (height as int)) by (nonlinear_arith)
                requires
                    wu as int == width as int,
                    hu as int == height as int,
                    0 <= width as int,
                    0 <= height as int,
            ;
        }
        let n: usize = (wu * hu) * 4;
        let data: Vec<u8> = vec![0u8; n];
        assert forall|i: int| 0 <= i < data@.len() implies data@[i] == 0u8 by {
            assert(cloned(0u8, data@[i]));
        }
        Image { width, height, data }
    }
}

/// The flat index of byte `c` of pixel `(x, y)` in a `w` by `h` RGBA buffer.
pub(crate) fn byte_index(w: u32, h: u32, x: u32, y: u32, c: u32) -> (r: usize)
    requires
        x < w,
        y < h,
        c < 4,
        4 * (w as int) * (h as int) <= usize::MAX as int,
    ensures
        r as int == 4 * ((y as int) * (w as int) + (x as int)) + (c as int),
        r < 4 * (w as int) * (h as int),
{
    proof {
        lemma_byte_index_in_range(w as int, h as int, x as int, y as int, c as int);
    }
    4 * ((y as usize) * (w as usize) + (x as usize)) + (c as usize)
}

/// True when byte `(x, y, c)` of the blit target has already been written,
/// given that the copy has completed rows `[0, iy)` of the source, columns
/// `[0, ix)` of source row `iy`, and channels `[0, ic)` of source pixel
/// `(ix, iy)`. The coordinates are target coordinates; the source pixel for
/// `(x, y)` is `(x - px, y - py)`.
pub open spec fn blit_done(
    px: int,
    py: int,
    iy: int,
    ix: int,
    ic: int,
    x: int,
    y: int,
    c: int,
) -> bool {
    let sx = x - px;
    let sy = y - py;
    sy < iy || (sy == iy && (sx < ix || (sx == ix && c < ic)))
}

/// Copy `src` opaquely (no blending) onto `canvas` with its top-left corner
/// at `(px, py)`; pixels outside the target rectangle keep their value.
#[verifier::loop_isolation(false)]
pub fn blit(canvas: &mut Image, src: &Image, px: u32, py: u32)
    requires
        old(canvas).well_formed(),
        src.well_formed(),
        px as int + src.width as int <= old(canvas).width as int,
        py as int + src.height as int <= old(canvas).height as int,
    ensures
        final(canvas).well_formed(),
        final(canvas).width == old(canvas).width,
        final(canvas).height == old(canvas).height,
        forall|x: int, y: int, c: int|
            px <= x < px + src.width && py <= y < py + src.height && 0 <= c < 4 ==> #[trigger]
            final(canvas).byte_at(x, y, c) == src.byte_at(x - px, y - py, c),
        forall|x: int, y: int, c: int|
            0 <= x < old(canvas).width && 0 <= y < old(canvas).height && 0 <= c < 4 && !(px <= x
                < px + src.width && py <= y < py + src.height) ==> #[trigger] final(canvas).byte_at(
                x,
                y,
                c,
            ) == old(canvas).byte_at(x, y, c),
{
    let cw = canvas.width;
    let ch = canvas.height;
    // binding the lengths grounds the buffers' sizes in usize for the index
    // computations below
    let n = canvas.data.len();
    let _src_len = src.data.len();
    let mut iy: u32 = 0;
    while iy < src.height
        invariant
            iy <= src.height,
            canvas.width == cw,
            canvas.height == ch,
            canvas.data@.len() == n,
            forall|x: int, y: int, c: int|
                px <= x < px + src.width && py <= y < py + src.height && 0 <= c < 4 && blit_done(
                    px as int,
                    py as int,
                    iy as int,
                    0,
                    0,
                    x,
                    y,
                    c,
                ) ==> #[trigger] canvas.byte_at(x, y, c) == src.byte_at(x - px, y - py, c),
            forall|x: int, y: int, c: int|
                0 <= x < cw && 0 <= y < ch && 0 <= c < 4 && !(px <= x < px + src.width && py <= y
                    < py + src.height && blit_done(
                    px as int,
                    py as int,
                    iy as int,
                    0,
                    0,
                    x,
                    y,
                    c,
                )) ==> #[trigger] canvas.byte_at(x, y, c) == old(canvas).byte_at(x, y, c),
        decreases src.height - iy,
    {
        let mut ix: u32 = 0;
        while ix < src.width
            invariant
                iy < src.height,
                ix <= src.width,
                canvas.width == cw,
                canvas.height == ch,
                canvas.data@.len() == n,
                forall|x: int, y: int, c: int|
                    px <= x < px + src.width && py <= y < py + src.height && 0 <= c < 4
                        && blit_done(
                        px as int,
                        py as int,
                        iy as int,
                        ix as int,
                        0,
                        x,
                        y,
                        c,
                    ) ==> #[trigger] canvas.byte_at(x, y, c) == src.byte_at(x - px, y - py, c),
                forall|x: int, y: int, c: int|
                    0 <= x < cw && 0 <= y < ch && 0 <= c < 4 && !(px <= x < px + src.width && py
                        <= y < py + src.height && blit_done(
                        px as int,
                        py as int,
                        iy as int,
                        ix as int,
                        0,
                        x,
                        y,
                        c,
                    )) ==> #[trigger] canvas.byte_at(x, y, c) == old(canvas).byte_at(x, y, c),
            decreases src.width - ix,
        {
            let mut ic: u32 = 0;
            while ic < 4
                invariant
                    iy < src.height,
                    ix < src.width,
                    ic <= 4,
                    canvas.width == cw,
                    canvas.height == ch,
                    canvas.data@.len() == n,
                    forall|x: int, y: int, c: int|
                        px <= x < px + src.width && py <= y < py + src.height && 0 <= c < 4
                            && blit_done(
                            px as int,
                            py as int,
                            iy as int,
                            ix as int,
                            ic as int,
                            x,
                            y,
                            c,
                        ) ==> #[trigger] canvas.byte_at(x, y, c) == src.byte_at(
                            x - px,
                            y - py,
                            c,
                        ),
                    forall|x: int, y: int, c: int|
                        0 <= x < cw && 0 <= y < ch && 0 <= c < 4 && !(px <= x < px + src.width
                            && py <= y < py + src.height && blit_done(
                            px as int,
                            py as int,
                            iy as int,
                            ix as int,
                            ic as int,
                            x,
                            y,
                            c,
                        )) ==> #[trigger] canvas.byte_at(x, y, c) == old(canvas).byte_at(x, y, c),
                decreases 4 - ic,
            {
                let sidx = byte_index(src.width, src.height, ix, iy, ic);
                let tx = px + ix;
                let ty = py + iy;
                let didx = byte_index(cw, ch, tx, ty, ic);
                let ghost prev = *canvas;
                let v = src.data[sidx];
                canvas.data[didx] = v;
                proof {
                    assert forall|x: int, y: int, c: int|
                        px <= x < px + src.width && py <= y < py + src.height && 0 <= c < 4
                            && blit_done(
                            px as int,
                            py as int,
                            iy as int,
                            ix as int,
                            ic as int + 1,
                            x,
                            y,
                            c,
                        ) implies #[trigger] canvas.byte_at(x, y, c) == src.byte_at(
                        x - px,
                        y - py,
                        c,
                    ) by {
                        let fi = 4 * (y * (cw as int) + x) + c;
                        lemma_byte_index_in_range(cw as int, ch as int, x, y, c);
                        // mentioning the pre-update canvas instantiates the
                        // loop invariant at (x, y, c)
                        let pre_byte = prev.byte_at(x, y, c);
                        if fi == didx as int {
                            lemma_byte_index_injective(
                                cw as int,
                                x,
                                y,
                                c,
                                tx as int,
                                ty as int,
                                ic as int,
                            );
                        } else {
                            assert(canvas.data@[fi] == prev.data@[fi]);
                        }
                    }
                    assert forall|x: int, y: int, c: int|
                        0 <= x < cw && 0 <= y < ch && 0 <= c < 4 && !(px <= x < px + src.width
                            && py <= y < py + src.height && blit_done(
                            px as int,
                            py as int,
                            iy as int,
                            ix as int,
                            ic as int + 1,
                            x,
                            y,
                            c,
                        )) implies #[trigger] canvas.byte_at(x, y, c) == old(canvas).byte_at(
                        x,
                        y,
                        c,
                    ) by {
                        let fi = 4 * (y * (cw as int) + x) + c;
                        lemma_byte_index_in_range(cw as int, ch as int, x, y, c);
                        // mentioning the pre-update canvas instantiates the
                        // loop invariant at (x, y, c)
                        let pre_byte = prev.byte_at(x, y, c);
                        if fi == didx as int {
                            lemma_byte_index_injective(
                                cw as int,
                                x,
                                y,
                                c,
                                tx as int,
                                ty as int,
                                ic as int,
                            );
                        } else {
                            assert(canvas.data@[fi] == prev.data@[fi]);
                        }
                    }
                }
                ic = ic + 1;
            }
        ix = ix + 1;
        }
    iy = iy + 1;
    }
}

} // verus!
