//! Display capture and compositing: the bounding-box computation, the
//! compositor that stitches per-display frames into one logical-pixel canvas,
//! and the region mapper that extracts pixel-exact crops from it.

use vstd::prelude::*;
use crate::errors::{CaptureError, CaptureFailure, CompositionError, EnumerationError, RegionError};
use crate::image_data::{blit, buf_byte, byte_index, lemma_byte_index_in_range, Image};

verus! {

/// One physical display: its position and size in logical coordinates.
/// The physical (native) resolution of its frame lives in the captured
/// `Image`; when the two differ the display has a scale factor other than
/// one, and the compositor resamples the frame to this logical size.
#[derive(Clone, Copy, Debug, PartialEq, Eq, Structural)]
pub struct MonitorInfo {
    pub x: i32,
    pub y: i32,
    pub width: u32,
    pub height: u32,
}

/// A byte of a row strictly before `(x2, y2)` in row-major order has a
/// strictly smaller flat index than the start of pixel `(x2, y2)`.
pub proof fn lemma_byte_index_mono(w: int, x1: int, y1: int, c1: int, x2: int, y2: int)
    requires
        0 <= x1 < w,
        0 <= c1 < 4,
        0 <= y1,
        0 <= x2 <= w,
        y1 < y2 || (y1 == y2 && x1 < x2),
    ensures
        4 * (y1 * w + x1) + c1 < 4 * (y2 * w + x2),
{
    assert(4 * (y1 * w + x1) + c1 < 4 * (y2 * w + x2)) by (nonlinear_arith)
        requires
            0 <= x1 < w,
            0 <= c1 < 4,
            0 <= y1,
            0 <= x2 <= w,
            y1 < y2 || (y1 == y2 && x1 < x2),
    ;
}

/// The requested rectangle reaches beyond the image.
pub open spec fn region_out_of_bounds(img: Image, x: u32, y: u32, w: u32, h: u32) -> bool {
    x as int + w as int > img.width as int || y as int + h as int > img.height as int
}

/// Extract the `w` by `h` rectangle whose top-left corner is `(x, y)` as an
/// exact pixel-for-pixel sub-copy of `img` — no resampling, the canvas is
/// already in uniform logical space.
///
/// Fails with `EmptyRegion` when the rectangle has zero width or height,
/// whatever the canvas size, and with `OutOfBounds` when a nonempty
/// rectangle reaches beyond the image.
#[verifier::loop_isolation(false)]
pub fn crop_region(img: &Image, x: u32, y: u32, w: u32, h: u32) -> (r: Result<Image, RegionError>)
    requires
        img.well_formed(),
    ensures
        r == Err::<Image, RegionError>(RegionError::EmptyRegion) <==> (w == 0 || h == 0),
        r == Err::<Image, RegionError>(RegionError::OutOfBounds) <==> (w > 0 && h > 0
            && region_out_of_bounds(*img, x, y, w, h)),
        r is Ok <==> (!region_out_of_bounds(*img, x, y, w, h) && w > 0 && h > 0),
        r matches Ok(out) ==> {
            &&& out.well_formed()
            &&& out.width == w
            &&& out.height == h
            &&& forall|ix: int, iy: int, c: int|
                0 <= ix < w && 0 <= iy < h && 0 <= c < 4 ==> #[trigger] out.byte_at(ix, iy, c)
                    == img.byte_at(x + ix, y + iy, c)
        },
{
    if w == 0 || h == 0 {
        return Err(RegionError::EmptyRegion);
    }
    if x as u64 + w as u64 > img.width as u64 || y as u64 + h as u64 > img.height as u64 {
        return Err(RegionError::OutOfBounds);
    }
    let n = img.data.len();
    let mut data: Vec<u8> = Vec::new();
    let mut iy: u32 = 0;
    proof {
        assert(data@.len() == 4 * (iy as int) * (w as int)) by (nonlinear_arith)
            requires
                iy == 0,
                data@.len() == 0,
        ;
    }
    while iy < h
        invariant
            iy <= h,
            data@.len() == 4 * (iy as int) * (w as int),
            forall|qx: int, qy: int, c: int|
                0 <= qx < w && 0 <= qy < iy && 0 <= c < 4 ==> #[trigger] buf_byte(
                    data@,
                    w as int,
                    qx,
                    qy,
                    c,
                ) == img.byte_at(x + qx, y + qy, c),
        decreases h - iy,
    {
        let mut ix: u32 = 0;
        proof {
            assert(4 * (iy as int) * (w as int) == 4 * ((iy as int) * (w as int) + 0))
                by (nonlinear_arith);
        }
        while ix < w
            invariant
                iy < h,
                ix <= w,
                data@.len() == 4 * ((iy as int) * (w as int) + ix as int),
                forall|qx: int, qy: int, c: int|
                    0 <= qx < w && 0 <= c < 4 && (qy < iy && 0 <= qy || (qy == iy && qx < ix))
                        ==> #[trigger] buf_byte(data@, w as int, qx, qy, c) == img.byte_at(
                        x + qx,
                        y + qy,
                        c,
                    ),
            decreases w - ix,
        {
            let ghost prev = data@;
            let sx = x + ix;
            let sy = y + iy;
            let b0 = img.data[byte_index(img.width, img.height, sx, sy, 0)];
            let b1 = img.data[byte_index(img.width, img.height, sx, sy, 1)];
            let b2 = img.data[byte_index(img.width, img.height, sx, sy, 2)];
            let b3 = img.data[byte_index(img.width, img.height, sx, sy, 3)];
            data.push(b0);
            data.push(b1);
            data.push(b2);
            data.push(b3);
            proof {
                assert forall|qx: int, qy: int, c: int|
                    0 <= qx < w && 0 <= c < 4 && (qy < iy && 0 <= qy || (qy == iy && qx < ix + 1))
                        implies #[trigger] buf_byte(data@, w as int, qx, qy, c) == img.byte_at(
                    x + qx,
                    y + qy,
                    c,
                ) by {
                    if qy < iy || qx < ix {
                        // mentioning the pre-push buffer instantiates the
                        // loop invariant at (qx, qy, c)
                        let pre_byte = buf_byte(prev, w as int, qx, qy, c);
                        lemma_byte_index_mono(w as int, qx, qy, c, ix as int, iy as int);
                    } else {
                        lemma_byte_index_in_range(w as int, h as int, qx, qy, c);
                    }
                }
            }
            ix = ix + 1;
        }
        proof {
            assert(data@.len() == 4 * ((iy as int) + 1) * (w as int)) by (nonlinear_arith)
                requires
                    data@.len() == 4 * ((iy as int) * (w as int) + (w as int)),
            ;
        }
        iy = iy + 1;
    }
    proof {
        assert(4 * (h as int) * (w as int) == 4 * (w as int) * (h as int)) by (nonlinear_arith);
    }
    Ok(Image { width: w, height: h, data })
}

/// The smallest logical x coordinate over the displays.
pub open spec fn min_x_of(s: Seq<(MonitorInfo, Image)>) -> int
    decreases s.len(),
{
    if s.len() == 0 {
        0
    } else if s.len() == 1 {
        s[0].0.x as int
    } else {
        let rest = min_x_of(s.drop_last());
        let lx = s.last().0.x as int;
        if lx < rest {
            lx
        } else {
            rest
        }
    }
}

/// The smallest logical y coordinate over the displays.
pub open spec fn min_y_of(s: Seq<(MonitorInfo, Image)>) -> int
    decreases s.len(),
{
    if s.len() == 0 {
        0
    } else if s.len() == 1 {
        s[0].0.y as int
    } else {
        let rest = min_y_of(s.drop_last());
        let ly = s.last().0.y as int;
        if ly < rest {
            ly
        } else {
            rest
        }
    }
}

/// The largest logical right edge (`x + width`) over the displays.
pub open spec fn max_xw_of(s: Seq<(MonitorInfo, Image)>) -> int
    decreases s.len(),
{
    if s.len() == 0 {
        0
    } else if s.len() == 1 {
        s[0].0.x as int + s[0].0.width as int
    } else {
        let rest = max_xw_of(s.drop_last());
        let lxw = s.last().0.x as int + s.last().0.width as int;
        if lxw > rest {
            lxw
        } else {
            rest
        }
    }
}

/// The largest logical bottom edge (`y + height`) over the displays.
pub open spec fn max_yh_of(s: Seq<(MonitorInfo, Image)>) -> int
    decreases s.len(),
{
    if s.len() == 0 {
        0
    } else if s.len() == 1 {
        s[0].0.y as int + s[0].0.height as int
    } else {
        let rest = max_yh_of(s.drop_last());
        let lyh = s.last().0.y as int + s.last().0.height as int;
        if lyh > rest {
            lyh
        } else {
            rest
        }
    }
}

/// Width of the bounding box of all display rects.
pub open spec fn span_w(s: Seq<(MonitorInfo, Image)>) -> int {
    max_xw_of(s) - min_x_of(s)
}

/// Height of the bounding box of all display rects.
pub open spec fn span_h(s: Seq<(MonitorInfo, Image)>) -> int {
    max_yh_of(s) - min_y_of(s)
}

/// The bounding box of the displays exceeds what one canvas can address.
pub open spec fn span_too_large(s: Seq<(MonitorInfo, Image)>) -> bool {
    span_w(s) > u32::MAX as int || span_h(s) > u32::MAX as int || 4 * span_w(s) * span_h(s)
        > usize::MAX as int
}

/// What `image::imageops::resize` with the Lanczos3 filter returns for a
/// source buffer of the given dimensions, resampled to the target dimensions.
/// The result is a function of the source pixels and the four dimensions
/// alone.
pub uninterp spec fn resampled(
    data: Seq<u8>,
    src_w: int,
    src_h: int,
    dst_w: int,
    dst_h: int,
) -> Seq<u8>;

/// Relies on `image::imageops::resize` (Lanczos3 filter): the returned buffer
/// has exactly the requested dimensions — `image::ImageBuffer` always holds
/// `4 * width * height` bytes for RGBA — and its pixels depend only on the
/// source pixels and the dimensions.
#[verifier::external_body]
fn resize_frame(frame: &Image, dst_w: u32, dst_h: u32) -> (r: Image)
    requires
        frame.well_formed(),
        4 * (dst_w as int) * (dst_h as int) <= usize::MAX as int,
    ensures
        r.width == dst_w,
        r.height == dst_h,
        r.well_formed(),
        r.data@ == resampled(
            frame.data@,
            frame.width as int,
            frame.height as int,
            dst_w as int,
            dst_h as int,
        ),
{
    let src = image::RgbaImage::from_raw(frame.width, frame.height, frame.data.clone()).unwrap();
    let out = image::imageops::resize(&src, dst_w, dst_h, image::imageops::FilterType::Lanczos3);
    Image { width: dst_w, height: dst_h, data: out.into_raw() }
}

/// The display's frame in logical resolution: the captured buffer itself when
/// the display's scale factor is one (physical equals logical resolution),
/// and the Lanczos-resampled buffer otherwise.
pub open spec fn logical_bytes(m: MonitorInfo, f: Image) -> Seq<u8> {
    if f.width == m.width && f.height == m.height {
        f.data@
    } else {
        resampled(f.data@, f.width as int, f.height as int, m.width as int, m.height as int)
    }
}

/// Display `m` covers canvas pixel `(u, v)`; the canvas is addressed from the
/// bounding-box origin `(minx, miny)`.
pub open spec fn covers(m: MonitorInfo, minx: int, miny: int, u: int, v: int) -> bool {
    m.x - minx <= u < m.x - minx + m.width && m.y - miny <= v < m.y - miny + m.height
}

/// Byte `c` of canvas pixel `(u, v)` after compositing the captures in order:
/// the latest capture covering the pixel wins (opaque overwrite); a pixel no
/// display covers stays zero.
pub open spec fn composed_byte(
    s: Seq<(MonitorInfo, Image)>,
    minx: int,
    miny: int,
    u: int,
    v: int,
    c: int,
) -> u8
    decreases s.len(),
{
    if s.len() == 0 {
        0u8
    } else {
        let m = s.last().0;
        let f = s.last().1;
        if covers(m, minx, miny, u, v) {
            buf_byte(logical_bytes(m, f), m.width as int, u - (m.x - minx), v - (m.y - miny), c)
        } else {
            composed_byte(s.drop_last(), minx, miny, u, v, c)
        }
    }
}

/// Display rect `m` lies inside the canvas with origin `(ox, oy)` and size
/// `(vw, vh)`.
pub open spec fn rect_in_canvas(m: MonitorInfo, ox: int, oy: int, vw: int, vh: int) -> bool {
    ox <= m.x as int && m.x as int + m.width as int <= ox + vw && oy <= m.y as int && m.y as int
        + m.height as int <= oy + vh
}

/// The composited virtual desktop: one canvas in logical pixel space plus the
/// layout metadata needed to map selections back into it.
#[derive(Debug)]
pub struct CompositeCapture {
    pub image: Image,
    pub monitors: Vec<MonitorInfo>,
    pub origin_x: i32,
    pub origin_y: i32,
    pub virtual_width: u32,
    pub virtual_height: u32,
}

impl CompositeCapture {
    /// The canvas matches the recorded size and every display rect,
    /// translated by the origin, lies fully inside it.
    pub open spec fn well_formed(self) -> bool {
        &&& self.image.well_formed()
        &&& self.image.width == self.virtual_width
        &&& self.image.height == self.virtual_height
        &&& forall|i: int|
            0 <= i < self.monitors@.len() ==> rect_in_canvas(
                #[trigger] self.monitors@[i],
                self.origin_x as int,
                self.origin_y as int,
                self.virtual_width as int,
                self.virtual_height as int,
            )
    }
}

/// Stitch the captured frames into one canvas in logical pixel space.
///
/// The canvas is the bounding box of all display rects; each frame is
/// resampled to its display's logical size when the two differ and then
/// blitted at the display's offset from the bounding-box origin; when rects
/// overlap, later captures win. Fails with `EmptyInput` on an empty list and
/// with `CanvasTooLarge` when the bounding box cannot be addressed.
#[verifier::loop_isolation(false)]
pub fn composite(captures: Vec<(MonitorInfo, Image)>) -> (r: Result<
    CompositeCapture,
    CompositionError,
>)
    requires
        forall|i: int| 0 <= i < captures@.len() ==> (#[trigger] captures@[i]).1.well_formed(),
    ensures
        r == Err::<CompositeCapture, CompositionError>(CompositionError::EmptyInput)
            <==> captures@.len() == 0,
        r == Err::<CompositeCapture, CompositionError>(CompositionError::CanvasTooLarge) <==> (
        captures@.len() > 0 && span_too_large(captures@)),
        r is Ok <==> (captures@.len() > 0 && !span_too_large(captures@)),
        r matches Ok(cc) ==> {
            &&& cc.origin_x as int == min_x_of(captures@)
            &&& cc.origin_y as int == min_y_of(captures@)
            &&& cc.virtual_width as int == span_w(captures@)
            &&& cc.virtual_height as int == span_h(captures@)
            &&& cc.well_formed()
            &&& cc.monitors@.len() == captures@.len()
            &&& forall|i: int|
                0 <= i < captures@.len() ==> cc.monitors@[i] == (#[trigger] captures@[i]).0
            &&& forall|u: int, v: int, c: int|
                0 <= u < cc.virtual_width && 0 <= v < cc.virtual_height && 0 <= c < 4
                    ==> #[trigger] cc.image.byte_at(u, v, c) == composed_byte(
                    captures@,
                    min_x_of(captures@),
                    min_y_of(captures@),
                    u,
                    v,
                    c,
                )
        },
{
    let n = captures.len();
    if n == 0 {
        return Err(CompositionError::EmptyInput);
    }
    let first = &captures[0].0;
    let mut min_x: i64 = first.x as i64;
    let mut min_y: i64 = first.y as i64;
    let mut max_xw: i64 = first.x as i64 + first.width as i64;
    let mut max_yh: i64 = first.y as i64 + first.height as i64;
    proof {
        assert(captures@.take(1).len() == 1);
        assert(captures@.take(1)[0] == captures@[0]);
    }
    let mut i: usize = 1;
    while i < n
        invariant
            1 <= i <= n,
            min_x as int == min_x_of(captures@.take(i as int)),
            min_y as int == min_y_of(captures@.take(i as int)),
            max_xw as int == max_xw_of(captures@.take(i as int)),
            max_yh as int == max_yh_of(captures@.take(i as int)),
            i32::MIN <= min_x <= i32::MAX,
            i32::MIN <= min_y <= i32::MAX,
            max_xw <= i32::MAX as i64 + u32::MAX as i64,
            max_yh <= i32::MAX as i64 + u32::MAX as i64,
            forall|j: int|
                0 <= j < i ==> min_x as int <= (#[trigger] captures@[j]).0.x as int
                    && captures@[j].0.x as int + captures@[j].0.width as int <= max_xw as int,
            forall|j: int|
                0 <= j < i ==> min_y as int <= (#[trigger] captures@[j]).0.y as int
                    && captures@[j].0.y as int + captures@[j].0.height as int <= max_yh as int,
        decreases n - i,
    {
        proof {
            assert(captures@.take(i as int + 1).drop_last() =~= captures@.take(i as int));
            assert(captures@.take(i as int + 1).last() == captures@[i as int]);
        }
        let m = &captures[i].0;
        let mx = m.x as i64;
        let my = m.y as i64;
        let mxw = m.x as i64 + m.width as i64;
        let myh = m.y as i64 + m.height as i64;
        if mx < min_x {
            min_x = mx;
        }
        if my < min_y {
            min_y = my;
        }
        if mxw > max_xw {
            max_xw = mxw;
        }
        if myh > max_yh {
            max_yh = myh;
        }
        i = i + 1;
    }
    proof {
        assert(captures@.take(n as int) =~= captures@);
    }
    proof {
        assert(min_x as int <= captures@[0].0.x as int);
        assert(min_y as int <= captures@[0].0.y as int);
    }
    let vw64 = max_xw - min_x;
    let vh64 = max_yh - min_y;
    if vw64 > u32::MAX as i64 || vh64 > u32::MAX as i64 {
        return Err(CompositionError::CanvasTooLarge);
    }
    let vw = vw64 as u32;
    let vh = vh64 as u32;
    proof {
        assert((4u128 * (vw as u128)) * (vh as u128) < u128::MAX) by (nonlinear_arith)
            requires
                vw as u128 <= u32::MAX as u128,
                vh as u128 <= u32::MAX as u128,
        ;
    }
    let bytes: u128 = 4u128 * (vw as u128) * (vh as u128);
    proof {
        assert(bytes as int == 4 * (vw as int) * (vh as int)) by (nonlinear_arith)
            requires
                bytes == 4u128 * (vw as u128) * (vh as u128),
                vw as int == vw as u128 as int,
                vh as int == vh as u128 as int,
        ;
    }
    if bytes > usize::MAX as u128 {
        return Err(CompositionError::CanvasTooLarge);
    }
    let mut canvas = Image::new_zeroed(vw, vh);
    proof {
        assert forall|u: int, v: int, c: int|
            0 <= u < vw && 0 <= v < vh && 0 <= c < 4 implies #[trigger] canvas.byte_at(u, v, c)
            == composed_byte(captures@.take(0), min_x as int, min_y as int, u, v, c) by {
            lemma_byte_index_in_range(vw as int, vh as int, u, v, c);
        }
    }
    let mut monitors: Vec<MonitorInfo> = Vec::new();
    let mut k: usize = 0;
    while k < n
        invariant
            k <= n,
            monitors@.len() == k,
            forall|j: int| 0 <= j < k ==> monitors@[j] == (#[trigger] captures@[j]).0,
            canvas.width == vw,
            canvas.height == vh,
            canvas.well_formed(),
            forall|u: int, v: int, c: int|
                0 <= u < vw && 0 <= v < vh && 0 <= c < 4 ==> #[trigger] canvas.byte_at(u, v, c)
                    == composed_byte(
                    captures@.take(k as int),
                    min_x as int,
                    min_y as int,
                    u,
                    v,
                    c,
                ),
        decreases n - k,
    {
        let p = &captures[k];
        let m = p.0;
        let px64 = (m.x as i64) - min_x;
        let py64 = (m.y as i64) - min_y;
        proof {
            assert(min_x as int <= captures@[k as int].0.x as int);
            assert(min_y as int <= captures@[k as int].0.y as int);
        }
        let px = px64 as u32;
        let py = py64 as u32;
        let ghost prevc = canvas;
        if p.1.width == m.width && p.1.height == m.height {
            blit(&mut canvas, &p.1, px, py);
        } else {
            proof {
                assert(4 * (m.width as int) * (m.height as int) <= 4 * (vw as int) * (vh as int))
                    by (nonlinear_arith)
                    requires
                        0 <= m.width as int <= vw as int,
                        0 <= m.height as int <= vh as int,
                ;
            }
            let lf = resize_frame(&p.1, m.width, m.height);
            blit(&mut canvas, &lf, px, py);
        }
        proof {
            assert(captures@.take(k as int + 1).drop_last() =~= captures@.take(k as int));
            assert(captures@.take(k as int + 1).last() == captures@[k as int]);
            assert forall|u: int, v: int, c: int|
                0 <= u < vw && 0 <= v < vh && 0 <= c < 4 implies #[trigger] canvas.byte_at(u, v, c)
                == composed_byte(
                captures@.take(k as int + 1),
                min_x as int,
                min_y as int,
                u,
                v,
                c,
            ) by {
                // mentioning the pre-blit canvas instantiates the loop
                // invariant at (u, v, c)
                let pre_byte = prevc.byte_at(u, v, c);
            }
        }
        monitors.push(m);
        k = k + 1;
    }
    proof {
        assert(captures@.take(n as int) =~= captures@);
        assert forall|j: int| 0 <= j < monitors@.len() implies rect_in_canvas(
            #[trigger] monitors@[j],
            min_x as int,
            min_y as int,
            vw as int,
            vh as int,
        ) by {
            assert(monitors@[j] == captures@[j].0);
            assert(min_x as int <= captures@[j].0.x as int);
            assert(min_y as int <= captures@[j].0.y as int);
        }
    }
    Ok(
        CompositeCapture {
            image: canvas,
            monitors,
            origin_x: min_x as i32,
            origin_y: min_y as i32,
            virtual_width: vw,
            virtual_height: vh,
        },
    )
}

} // verus!

verus! {

/// The ordered list of displays plus the canvas origin and size, published to
/// the interactive selection surface so it can render monitor boundaries and
/// translate user input. Immutable once published.
#[derive(Clone, Debug)]
pub struct ScreenLayout {
    pub monitors: Vec<MonitorInfo>,
    pub origin_x: i32,
    pub origin_y: i32,
    pub virtual_width: u32,
    pub virtual_height: u32,
}

impl ScreenLayout {
    /// Every display rect, translated by the origin, lies inside the canvas.
    pub open spec fn well_formed(self) -> bool {
        forall|i: int|
            0 <= i < self.monitors@.len() ==> rect_in_canvas(
                #[trigger] self.monitors@[i],
                self.origin_x as int,
                self.origin_y as int,
                self.virtual_width as int,
                self.virtual_height as int,
            )
    }

    /// A field-for-field copy of the layout.
    pub fn snapshot(&self) -> (r: ScreenLayout)
        ensures
            r.monitors@ == self.monitors@,
            r.origin_x == self.origin_x,
            r.origin_y == self.origin_y,
            r.virtual_width == self.virtual_width,
            r.virtual_height == self.virtual_height,
    {
        let monitors = self.monitors.clone();
        proof {
            assert(monitors@ =~= self.monitors@);
        }
        ScreenLayout {
            monitors,
            origin_x: self.origin_x,
            origin_y: self.origin_y,
            virtual_width: self.virtual_width,
            virtual_height: self.virtual_height,
        }
    }
}

/// Map a monitor index to its rectangle in canvas coordinates and extract it.
///
/// Display geometry is stored in global logical coordinates, which may be
/// negative, while the canvas buffer is zero-based: the canvas origin is
/// subtracted from the display position before indexing into the buffer.
/// Fails with `InvalidMonitorIndex` when the index is out of range; otherwise
/// behaves as `crop_region` on the translated rectangle: a zero-size display
/// fails as an empty region, a nonempty rect that misses the canvas as out
/// of bounds.
pub fn crop_monitor(canvas: &Image, layout: &ScreenLayout, monitor_index: usize) -> (r: Result<
    Image,
    RegionError,
>)
    requires
        canvas.well_formed(),
        layout.well_formed(),
    ensures
        r == Err::<Image, RegionError>(RegionError::InvalidMonitorIndex) <==> monitor_index
            >= layout.monitors@.len(),
        monitor_index < layout.monitors@.len() ==> {
            let m = layout.monitors@[monitor_index as int];
            let cx = m.x as int - layout.origin_x as int;
            let cy = m.y as int - layout.origin_y as int;
            &&& (r == Err::<Image, RegionError>(RegionError::EmptyRegion) <==> (m.width == 0
                || m.height == 0))
            &&& (r == Err::<Image, RegionError>(RegionError::OutOfBounds) <==> (m.width > 0
                && m.height > 0 && (cx + m.width > canvas.width || cy + m.height
                > canvas.height)))
            &&& (r is Ok <==> (cx + m.width <= canvas.width && cy + m.height <= canvas.height
                && m.width > 0 && m.height > 0))
            &&& (canvas.width == layout.virtual_width && canvas.height == layout.virtual_height
                && m.width > 0 && m.height > 0 ==> r is Ok)
            &&& (r matches Ok(out) ==> {
                &&& out.well_formed()
                &&& out.width == m.width
                &&& out.height == m.height
                &&& forall|ix: int, iy: int, c: int|
                    0 <= ix < m.width && 0 <= iy < m.height && 0 <= c < 4 ==> #[trigger]
                    out.byte_at(ix, iy, c) == canvas.byte_at(cx + ix, cy + iy, c)
            })
        },
{
    if monitor_index >= layout.monitors.len() {
        return Err(RegionError::InvalidMonitorIndex);
    }
    let m = layout.monitors[monitor_index];
    proof {
        assert(rect_in_canvas(
            layout.monitors@[monitor_index as int],
            layout.origin_x as int,
            layout.origin_y as int,
            layout.virtual_width as int,
            layout.virtual_height as int,
        ));
    }
    let dx = ((m.x as i64) - (layout.origin_x as i64)) as u32;
    let dy = ((m.y as i64) - (layout.origin_y as i64)) as u32;
    crop_region(canvas, dx, dy, m.width, m.height)
}

} // verus!

verus! {

/// Declares `screenshots::Screen` so that screen handles can pass through
/// verified signatures; the type stays opaque to the verifier.
#[verifier::external_type_specification]
#[verifier::external_body]
pub struct ExScreen(screenshots::Screen);

/// Relies on `screenshots::Screen::all`: it lists one `Screen` per active
/// display of the machine, or reports an enumeration error.
#[verifier::external_body]
fn list_screens() -> (r: Result<Vec<screenshots::Screen>, EnumerationError>) {
    match screenshots::Screen::all() {
        Ok(s) => Ok(s),
        Err(_) => Err(EnumerationError::OsFailure),
    }
}

/// Relies on the public `display_info` field of `screenshots::Screen`
/// (`display_info::DisplayInfo`): its `x`, `y`, `width` and `height` give the
/// display's position and size as the enumerator reports them, in the
/// coordinate space the layout is built in.
#[verifier::external_body]
fn screen_geometry(s: &screenshots::Screen) -> (r: (i32, i32, u32, u32)) {
    let d = s.display_info;
    (d.x, d.y, d.width, d.height)
}

/// Relies on `screenshots::Screen::capture`: on success the returned
/// `screenshots::Image` buffer holds the display's current frame, losslessly
/// encoded as RGBA PNG bytes at the display's native physical resolution.
#[verifier::external_body]
fn grab_screen(s: &screenshots::Screen) -> (r: Result<Vec<u8>, CaptureError>) {
    match s.capture() {
        Ok(img) => {
            let buffer: Vec<u8> = img.into();
            Ok(buffer)
        },
        Err(_) => Err(CaptureError::OsFailure),
    }
}

/// Relies on `image::load_from_memory` and `DynamicImage::to_rgba8`: on
/// success the result is a rectangular RGBA buffer holding exactly four bytes
/// per pixel of the decoded image's dimensions.
#[verifier::external_body]
fn decode_frame(bytes: &Vec<u8>) -> (r: Result<Image, CaptureError>)
    ensures
        r matches Ok(img) ==> img.well_formed(),
{
    match image::load_from_memory(bytes.as_slice()) {
        Ok(decoded) => {
            let rgba = decoded.to_rgba8();
            let (w, h) = rgba.dimensions();
            Ok(Image { width: w, height: h, data: rgba.into_raw() })
        },
        Err(_) => Err(CaptureError::BadFrame),
    }
}

/// Capture every display and composite the frames into a single canvas in
/// logical pixel space.
///
/// Enumeration, grabbing and decoding depend on the machine, so nothing can
/// be promised about the pixels that come back; whatever they are, a returned
/// composite is well formed and `composite`'s contract relates it to them.
pub fn capture_all_screens() -> (r: Result<CompositeCapture, CaptureFailure>)
    ensures
        r matches Ok(cc) ==> cc.well_formed() && cc.monitors@.len() >= 1,
{
    let screens = match list_screens() {
        Ok(s) => s,
        Err(e) => { return Err(CaptureFailure::Enumeration(e)); },
    };
    if screens.len() == 0 {
        return Err(CaptureFailure::Enumeration(EnumerationError::NoScreens));
    }
    let mut caps: Vec<(MonitorInfo, Image)> = Vec::new();
    let mut i: usize = 0;
    while i < screens.len()
        invariant
            i <= screens@.len(),
            caps@.len() == i,
            forall|j: int| 0 <= j < i ==> (#[trigger] caps@[j]).1.well_formed(),
        decreases screens@.len() - i,
    {
        let s = &screens[i];
        let g = screen_geometry(s);
        let png = match grab_screen(s) {
            Ok(b) => b,
            Err(e) => { return Err(CaptureFailure::Capture(e)); },
        };
        let frame = match decode_frame(&png) {
            Ok(f) => f,
            Err(e) => { return Err(CaptureFailure::Capture(e)); },
        };
        let m = MonitorInfo { x: g.0, y: g.1, width: g.2, height: g.3 };
        caps.push((m, frame));
        i = i + 1;
    }
    match composite(caps) {
        Ok(cc) => Ok(cc),
        Err(e) => Err(CaptureFailure::Composition(e)),
    }
}

} // verus!

verus! {

/// Rects `a` and `b` share at least one logical pixel.
pub open spec fn rects_overlap(a: MonitorInfo, b: MonitorInfo) -> bool {
    (a.x as int) < b.x as int + b.width as int && (b.x as int) < a.x as int + a.width as int && (
    a.y as int) < b.y as int + b.height as int && (b.y as int) < a.y as int + a.height as int
}

/// No two displays of the list share a logical pixel.
pub open spec fn rects_disjoint(s: Seq<(MonitorInfo, Image)>) -> bool {
    forall|i: int, j: int|
        0 <= i < s.len() && 0 <= j < s.len() && i != j ==> !rects_overlap(
            (#[trigger] s[i]).0,
            (#[trigger] s[j]).0,
        )
}

/// For displays with pairwise disjoint rects, compositing never overwrites a
/// display's pixels: every canvas pixel that display `k` covers holds
/// exactly the corresponding byte of display `k`'s logical frame, whatever
/// the enumeration order. Together with `composite`'s contract (the canvas
/// is the bounding box of all rects) and `crop_monitor`'s contract, cropping
/// monitor `k` out of the composite returns an image of exactly that
/// display's logical size holding its logical frame.
pub proof fn lemma_composed_disjoint(
    s: Seq<(MonitorInfo, Image)>,
    minx: int,
    miny: int,
    k: int,
    u: int,
    v: int,
    c: int,
)
    requires
        rects_disjoint(s),
        0 <= k < s.len(),
        covers(s[k].0, minx, miny, u, v),
        0 <= c < 4,
    ensures
        composed_byte(s, minx, miny, u, v, c) == buf_byte(
            logical_bytes(s[k].0, s[k].1),
            s[k].0.width as int,
            u - (s[k].0.x - minx),
            v - (s[k].0.y - miny),
            c,
        ),
    decreases s.len(),
{
    let lasti = s.len() - 1;
    if k < lasti {
        assert(!covers(s[lasti].0, minx, miny, u, v)) by {
            if covers(s[lasti].0, minx, miny, u, v) {
                assert(rects_overlap(s[k].0, s[lasti].0));
            }
        }
        assert(rects_disjoint(s.drop_last())) by {
            assert forall|i: int, j: int|
                0 <= i < s.drop_last().len() && 0 <= j < s.drop_last().len() && i != j
                implies !rects_overlap((#[trigger] s.drop_last()[i]).0, (#[trigger] s.drop_last()[j]).0) by {
                assert(s.drop_last()[i] == s[i]);
                assert(s.drop_last()[j] == s[j]);
            }
        }
        assert(s.drop_last()[k] == s[k]);
        lemma_composed_disjoint(s.drop_last(), minx, miny, k, u, v, c);
    }
}

} // verus!

verus! {

/// Every display's rect lies inside the bounding box of all rects: the
/// canvas, whose origin and size `composite` fixes to that bounding box,
/// contains each display at its translated position.
pub proof fn lemma_monitor_fits_canvas(s: Seq<(MonitorInfo, Image)>, k: int)
    requires
        0 <= k < s.len(),
    ensures
        min_x_of(s) <= s[k].0.x as int,
        s[k].0.x as int + s[k].0.width as int <= max_xw_of(s),
        min_y_of(s) <= s[k].0.y as int,
        s[k].0.y as int + s[k].0.height as int <= max_yh_of(s),
    decreases s.len(),
{
    if s.len() > 1 && k < s.len() - 1 {
        lemma_monitor_fits_canvas(s.drop_last(), k);
        assert(s.drop_last()[k] == s[k]);
    }
}

/// A display whose captured frame is not at its logical resolution (a scale
/// factor other than one) lands on the canvas as the Lanczos resample of its
/// frame at exactly its logical size, never at physical size: with disjoint
/// rects, every canvas byte the display covers is the corresponding byte of
/// `resampled(frame, physical dims, logical dims)`, addressed within the
/// display's logical rect.
pub proof fn lemma_scaled_display_resampled(
    s: Seq<(MonitorInfo, Image)>,
    minx: int,
    miny: int,
    k: int,
    u: int,
    v: int,
    c: int,
)
    requires
        rects_disjoint(s),
        0 <= k < s.len(),
        covers(s[k].0, minx, miny, u, v),
        0 <= c < 4,
        s[k].1.width != s[k].0.width || s[k].1.height != s[k].0.height,
    ensures
        composed_byte(s, minx, miny, u, v, c) == buf_byte(
            resampled(
                s[k].1.data@,
                s[k].1.width as int,
                s[k].1.height as int,
                s[k].0.width as int,
                s[k].0.height as int,
            ),
            s[k].0.width as int,
            u - (s[k].0.x - minx),
            v - (s[k].0.y - miny),
            c,
        ),
{
    lemma_composed_disjoint(s, minx, miny, k, u, v, c);
}

} // verus!
