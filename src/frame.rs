use vstd::prelude::*;

verus! {

/// One pixel, as red, green, blue and alpha channels.
#[derive(Clone, Copy, Debug, PartialEq, Eq, Structural)]
pub struct Rgba {
    pub r: u8,
    pub g: u8,
    pub b: u8,
    pub a: u8,
}

/// What a sample outside the frame shows: white with zero alpha.
pub open spec fn transparent() -> Rgba {
    Rgba { r: 255, g: 255, b: 255, a: 0 }
}

/// Why a frame could not be taken.
#[derive(Clone, Copy, Debug, PartialEq, Eq, Structural)]
pub enum CaptureError {
    /// The display gave no image, or one whose bytes do not match its size.
    CaptureUnavailable,
}

/// An immutable grid of pixels, stored row by row.
#[derive(Clone, Debug)]
pub struct Frame {
    pub width: u32,
    pub height: u32,
    pub pixels: Vec<Rgba>,
}

/// The bytes of a run of pixels, four per pixel in the order red, green, blue, alpha.
pub open spec fn rgba_bytes(s: Seq<Rgba>) -> Seq<u8>
    decreases s.len(),
{
    if s.len() == 0 {
        seq![]
    } else {
        let p = s.last();
        rgba_bytes(s.drop_last()) + seq![p.r, p.g, p.b, p.a]
    }
}

/// Position `(x, y)` of a grid of the given width, laid out row by row.
pub open spec fn grid_index(x: int, y: int, width: int) -> int {
    y * width + x
}

/// The region that cropping `(x, y, w, h)` out of a `fw` by `fh` frame keeps:
/// the corner is clamped into the frame, and the size to what remains of it.
pub open spec fn clamped_crop(fw: int, fh: int, x: int, y: int, w: int, h: int) -> (int, int, int, int) {
    let cx = if x <= fw { x } else { fw };
    let cy = if y <= fh { y } else { fh };
    let cw = if w <= fw - cx { w } else { fw - cx };
    let ch = if h <= fh - cy { h } else { fh - cy };
    (cx, cy, cw, ch)
}

/// A position inside a `w` by `h` grid has an index inside the grid's store,
/// and the index gives back the position.
pub proof fn lemma_grid_index(x: int, y: int, w: int, h: int)
    requires
        0 <= x < w,
        0 <= y < h,
    ensures
        0 <= grid_index(x, y, w) < w * h,
        grid_index(x, y, w) % w == x,
        grid_index(x, y, w) / w == y,
{
    assert(0 <= y * w) by (nonlinear_arith)
        requires
            0 <= y,
            0 < w,
    ;
    assert(y * w + x < w * h) by (nonlinear_arith)
        requires
            0 <= x < w,
            0 <= y < h,
    ;
    vstd::arithmetic::div_mod::lemma_fundamental_div_mod_converse(y * w + x, w, y, x);
}

/// Each pixel takes four bytes.
pub proof fn lemma_rgba_bytes_len(s: Seq<Rgba>)
    ensures
        rgba_bytes(s).len() == 4 * s.len(),
    decreases s.len(),
{
    if s.len() > 0 {
        lemma_rgba_bytes_len(s.drop_last());
    }
}

impl Frame {
    /// The pixel store matches the size.
    pub open spec fn wf(&self) -> bool {
        self.pixels@.len() == self.width as int * self.height as int
    }

    /// `(x, y)` lies in the frame.
    pub open spec fn in_bounds(&self, x: int, y: int) -> bool {
        0 <= x < self.width && 0 <= y < self.height
    }

    /// The pixel at `(x, y)`, for a position in the frame.
    pub open spec fn pixel(&self, x: int, y: int) -> Rgba {
        self.pixels@[grid_index(x, y, self.width as int)]
    }

    /// The pixel at `(x, y)` where it lies in the frame, transparent elsewhere.
    pub open spec fn sample(&self, x: int, y: int) -> Rgba {
        if self.in_bounds(x, y) {
            self.pixel(x, y)
        } else {
            transparent()
        }
    }

    /// `c` is the region `(x, y, w, h)` of this frame, clamped to its bounds as
    /// `clamped_crop` says.
    pub open spec fn is_crop(&self, x: int, y: int, w: int, h: int, c: Frame) -> bool {
        let (cx, cy, cw, ch) = clamped_crop(self.width as int, self.height as int, x, y, w, h);
        &&& c.wf()
        &&& c.width == cw
        &&& c.height == ch
        &&& forall|i: int, j: int|
            0 <= i < cw && 0 <= j < ch ==> #[trigger] c.pixel(i, j) == self.pixel(cx + i, cy + j)
    }

    /// Builds a frame from RGBA bytes, four per pixel, row by row. Fails when the
    /// number of bytes is not four for each pixel of a `width` by `height` grid.
    pub fn from_rgba(width: u32, height: u32, bytes: &Vec<u8>) -> (r: Result<Frame, CaptureError>)
        ensures
            r is Ok <==> bytes@.len() == 4 * (width as int * height as int),
            r matches Ok(f) ==> f.wf() && f.width == width && f.height == height && rgba_bytes(
                f.pixels@,
            ) == bytes@,
    {
        let len: usize = bytes.len();
        assert(width as int * height as int <= 0xffff_fffe_0000_0001) by (nonlinear_arith)
            requires
                width <= 0xffff_ffff,
                height <= 0xffff_ffff,
        ;
        let n: u64 = width as u64 * height as u64;
        if n > u64::MAX / 4 || n * 4 != len as u64 {
            return Err(CaptureError::CaptureUnavailable);
        }
        let count: usize = (n as usize);
        let mut pixels: Vec<Rgba> = Vec::new();
        let mut i: usize = 0;
        while i < count
            invariant
                count == n,
                4 * count == bytes@.len(),
                4 * count <= usize::MAX,
                0 <= i <= count,
                pixels@.len() == i,
                rgba_bytes(pixels@) == bytes@.subrange(0, 4 * i as int),
            decreases count - i,
        {
            let k: usize = 4 * i;
            let p = Rgba { r: bytes[k], g: bytes[k + 1], b: bytes[k + 2], a: bytes[k + 3] };
            let ghost before = pixels@;
            pixels.push(p);
            assert(pixels@.drop_last() =~= before);
            assert(bytes@.subrange(0, 4 * (i + 1) as int) =~= bytes@.subrange(0, 4 * i as int)
                + seq![p.r, p.g, p.b, p.a]);
            i = i + 1;
        }
        assert(bytes@.subrange(0, 4 * count as int) =~= bytes@);
        Ok(Frame { width, height, pixels })
    }

    /// The RGBA bytes of the frame, four per pixel, row by row.
    pub fn to_rgba(&self) -> (r: Vec<u8>)
        ensures
            r@ == rgba_bytes(self.pixels@),
            r@.len() == 4 * self.pixels@.len(),
    {
        proof {
            lemma_rgba_bytes_len(self.pixels@);
        }
        let mut out: Vec<u8> = Vec::new();
        let mut i: usize = 0;
        while i < self.pixels.len()
            invariant
                0 <= i <= self.pixels@.len(),
                out@ == rgba_bytes(self.pixels@.subrange(0, i as int)),
            decreases self.pixels@.len() - i,
        {
            let p = self.pixels[i];
            out.push(p.r);
            out.push(p.g);
            out.push(p.b);
            out.push(p.a);
            assert(self.pixels@.subrange(0, i + 1).drop_last() =~= self.pixels@.subrange(
                0,
                i as int,
            ));
            assert(out@ =~= rgba_bytes(self.pixels@.subrange(0, i + 1)));
            i = i + 1;
        }
        assert(self.pixels@.subrange(0, i as int) =~= self.pixels@);
        out
    }

    /// The pixel at `(x, y)`.
    pub fn get_pixel(&self, x: u32, y: u32) -> (r: Rgba)
        requires
            self.wf(),
            self.in_bounds(x as int, y as int),
        ensures
            r == self.pixel(x as int, y as int),
    {
        let n: usize = self.pixels.len();
        proof {
            lemma_grid_index(x as int, y as int, self.width as int, self.height as int);
        }
        self.pixels[y as usize * self.width as usize + x as usize]
    }

    /// The pixel at `(x, y)`, or transparent where that lies outside the frame.
    pub fn sample_at(&self, x: i64, y: i64) -> (r: Rgba)
        requires
            self.wf(),
        ensures
            r == self.sample(x as int, y as int),
    {
        if 0 <= x && x < self.width as i64 && 0 <= y && y < self.height as i64 {
            self.get_pixel(x as u32, y as u32)
        } else {
            Rgba { r: 255, g: 255, b: 255, a: 0 }
        }
    }

    /// Copies the region `(x, y, w, h)` out of the frame, clamped to the frame's
    /// bounds as `clamped_crop` says.
    pub fn crop(&self, x: u32, y: u32, w: u32, h: u32) -> (r: Frame)
        requires
            self.wf(),
        ensures
            self.is_crop(x as int, y as int, w as int, h as int, r),
    {
        let cx: u32 = if x <= self.width { x } else { self.width };
        let cy: u32 = if y <= self.height { y } else { self.height };
        let cw: u32 = if w <= self.width - cx { w } else { self.width - cx };
        let ch: u32 = if h <= self.height - cy { h } else { self.height - cy };
        let mut out: Vec<Rgba> = Vec::new();
        let mut j: u32 = 0;
        while j < ch
            invariant
                self.wf(),
                cx + cw <= self.width,
                cy + ch <= self.height,
                0 <= j <= ch,
                out@.len() == j * cw as int,
                forall|k: int| 0 <= k < out@.len() ==> #[trigger] out@[k] == self.pixel(cx + k % cw as int, cy + k / cw as int),
            decreases ch - j,
        {
            let mut i: u32 = 0;
            while i < cw
                invariant
                    self.wf(),
                    cx + cw <= self.width,
                    cy + ch <= self.height,
                    0 <= j < ch,
                    0 <= i <= cw,
                    out@.len() == j * cw as int + i,
                    forall|k: int|
                        0 <= k < out@.len() ==> #[trigger] out@[k] == self.pixel(cx + k % cw as int, cy + k / cw as int),
                decreases cw - i,
            {
                proof {
                    lemma_grid_index(i as int, j as int, cw as int, ch as int);
                }
                let p = self.get_pixel(cx + i, cy + j);
                let ghost before = out@;
                out.push(p);
                                assert forall|k: int| 0 <= k < out@.len() implies #[trigger] out@[k] == self.pixel(cx + k % cw as int, cy + k / cw as int) by {
                    if k < before.len() {
                        assert(out@[k] == before[k]);
                    }
                }
                i = i + 1;
            }
            assert((j + 1) * cw == j * cw + cw) by (nonlinear_arith);
            j = j + 1;
        }
        assert(ch * cw == cw * ch) by (nonlinear_arith);
        let r = Frame { width: cw, height: ch, pixels: out };
        assert forall|i: int, j: int| 0 <= i < cw && 0 <= j < ch implies #[trigger] r.pixel(i, j)
            == self.pixel(cx + i, cy + j) by {
            lemma_grid_index(i, j, cw as int, ch as int);
        }
        r
    }

    /// A `w` by `h` window of the frame centred on `(cx, cy)`: texel `(i, j)`
    /// shows the pixel at `(cx - w / 2 + i, cy - h / 2 + j)`, or transparent
    /// where that lies outside the frame.
    pub fn magnify(&self, cx: u32, cy: u32, w: u32, h: u32) -> (r: Frame)
        requires
            self.wf(),
        ensures
            r.wf(),
            r.width == w,
            r.height == h,
            forall|i: int, j: int|
                0 <= i < w && 0 <= j < h ==> #[trigger] r.pixel(i, j) == self.sample(
                    cx - w / 2 + i,
                    cy - h / 2 + j,
                ),            forall|i: int, j: int|
                0 <= i < w && 0 <= j < h && self.in_bounds(cx - w / 2 + i, cy - h / 2 + j)
                    ==> #[trigger] r.pixel(i, j) == self.pixel(cx - w / 2 + i, cy - h / 2 + j),
            forall|i: int, j: int|
                0 <= i < w && 0 <= j < h && !self.in_bounds(cx - w / 2 + i, cy - h / 2 + j)
                    ==> #[trigger] r.pixel(i, j) == transparent(),
    {
        let left: i64 = cx as i64 - (w / 2) as i64;
        let top: i64 = cy as i64 - (h / 2) as i64;
        let mut out: Vec<Rgba> = Vec::new();
        let mut j: u32 = 0;
        while j < h
            invariant
                self.wf(),
                left == cx - w / 2,
                top == cy - h / 2,
                0 <= j <= h,
                out@.len() == j * w as int,
                forall|k: int| 0 <= k < out@.len() ==> #[trigger] out@[k] == self.sample(cx - w / 2 + k % w as int, cy - h / 2 + k / w as int),
            decreases h - j,
        {
            let mut i: u32 = 0;
            while i < w
                invariant
                    self.wf(),
                    left == cx - w / 2,
                    top == cy - h / 2,
                    0 <= j < h,
                    0 <= i <= w,
                    out@.len() == j * w as int + i,
                    forall|k: int|
                        0 <= k < out@.len() ==> #[trigger] out@[k] == self.sample(cx - w / 2 + k % w as int, cy - h / 2 + k / w as int),
                decreases w - i,
            {
                proof {
                    lemma_grid_index(i as int, j as int, w as int, h as int);
                }
                let p = self.sample_at(left + i as i64, top + j as i64);
                let ghost before = out@;
                out.push(p);
                                assert forall|k: int| 0 <= k < out@.len() implies #[trigger] out@[k] == self.sample(cx - w / 2 + k % w as int, cy - h / 2 + k / w as int) by {
                    if k < before.len() {
                        assert(out@[k] == before[k]);
                    }
                }
                i = i + 1;
            }
            assert((j + 1) * w == j * w + w) by (nonlinear_arith);
            j = j + 1;
        }
        assert(h * w == w * h) by (nonlinear_arith);
        let r = Frame { width: w, height: h, pixels: out };
        assert forall|i: int, j: int| 0 <= i < w && 0 <= j < h implies #[trigger] r.pixel(i, j)
            == self.sample(cx - w / 2 + i, cy - h / 2 + j) by {
            lemma_grid_index(i, j, w as int, h as int);
        }
        r
    }
}

} // verus!
