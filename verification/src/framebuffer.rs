//! The client's copy of the remote screen: 32-bit pixels, four bytes each
//! (red, green, blue, alpha), rows top to bottom, and the updates the server
//! sends for it.
//!
//! Byte `i` of the pixels belongs to pixel `i / 4`, channel `i % 4`; pixel
//! `p` sits at column `p % width`, row `p / width`.
use crate::video::VideoFrame;
use vstd::prelude::*;
use vstd::arithmetic::div_mod::{
    lemma_fundamental_div_mod, lemma_fundamental_div_mod_converse, lemma_mod_pos_bound,
    lemma_div_pos_is_pos, lemma_mod_multiples_vanish,
};
use vstd::arithmetic::mul::{lemma_mul_inequality, lemma_mul_is_commutative, lemma_mul_nonnegative};

verus! {

/// The number of bytes of a `w` by `h` screen.
pub open spec fn frame_len(w: int, h: int) -> int {
    w * h * 4
}

/// The row of byte `i` on a screen `w` pixels wide.
pub open spec fn row_of(w: int, i: int) -> int {
    (i / 4) / w
}

/// The column of byte `i` on a screen `w` pixels wide.
pub open spec fn col_of(w: int, i: int) -> int {
    (i / 4) % w
}

/// The first byte of the pixel at column `x`, row `y`, plus channel `c`.
pub open spec fn byte_index(w: int, x: int, y: int, c: int) -> int {
    (y * w + x) * 4 + c
}

/// Whether byte `i` lies in the rectangle at (`rx`, `ry`), `rw` by `rh`.
pub open spec fn in_rect(w: int, rx: int, ry: int, rw: int, rh: int, i: int) -> bool {
    ry <= row_of(w, i) < ry + rh && rx <= col_of(w, i) < rx + rw
}

/// Byte `i` of a screen `w` pixels wide after a raw rectangle at (`rx`,
/// `ry`), `rw` by `rh`, with pixels `data` (row by row, four bytes each) was
/// drawn over `old`: inside the rectangle the rectangle's byte, except that
/// alpha is always opaque; elsewhere the old byte.
pub open spec fn raw_byte(old: Seq<u8>, w: int, rx: int, ry: int, rw: int, rh: int, data: Seq<u8>, i: int) -> u8 {
    if in_rect(w, rx, ry, rw, rh, i) {
        if i % 4 == 3 {
            255u8
        } else {
            data[((row_of(w, i) - ry) * rw + (col_of(w, i) - rx)) * 4 + i % 4]
        }
    } else {
        old[i]
    }
}

/// The screen after the raw rectangle was drawn.
pub open spec fn raw_pixels(old: Seq<u8>, w: int, rx: int, ry: int, rw: int, rh: int, data: Seq<u8>) -> Seq<u8> {
    Seq::new(old.len(), |i: int| raw_byte(old, w, rx, ry, rw, rh, data, i))
}

/// Whether drawing a raw rectangle stays inside the screen's bytes. A
/// rectangle that starts right of the screen draws nothing, but its rows
/// must still start within the screen's bytes.
pub open spec fn raw_fits(w: int, h: int, rx: int, ry: int, rh: int) -> bool {
    rx < w || rh == 0 || ry >= h || ((if ry + rh < h {
        ry + rh
    } else {
        h
    }) - 1) * w + rx <= w * h
}

/// Splits byte index `i` into row, column and channel.
pub proof fn lemma_split_index(w: int, i: int)
    requires
        0 < w,
        0 <= i,
    ensures
        0 <= i % 4 < 4,
        0 <= col_of(w, i) < w,
        0 <= row_of(w, i),
        i == byte_index(w, col_of(w, i), row_of(w, i), i % 4),
{
    lemma_fundamental_div_mod(i, 4);
    lemma_mod_pos_bound(i, 4);
    lemma_div_pos_is_pos(i, 4);
    lemma_fundamental_div_mod(i / 4, w);
    lemma_mod_pos_bound(i / 4, w);
    lemma_div_pos_is_pos(i / 4, w);
    lemma_mul_is_commutative(w, (i / 4) / w);
}

/// The byte of column `x`, row `y`, channel `c` has that row, column and
/// channel.
pub proof fn lemma_index_coords(w: int, x: int, y: int, c: int)
    requires
        0 <= x < w,
        0 <= y,
        0 <= c < 4,
    ensures
        row_of(w, byte_index(w, x, y, c)) == y,
        col_of(w, byte_index(w, x, y, c)) == x,
        byte_index(w, x, y, c) % 4 == c,
        byte_index(w, x, y, c) / 4 == y * w + x,
{
    let i = byte_index(w, x, y, c);
    lemma_fundamental_div_mod_converse(i, 4, y * w + x, c);
    lemma_fundamental_div_mod_converse(y * w + x, w, y, x);
}

/// Every byte of a `w` by `h` screen lies on one of its rows.
pub proof fn lemma_row_bound(w: int, h: int, i: int)
    requires
        0 < w,
        0 <= h,
        0 <= i < frame_len(w, h),
    ensures
        row_of(w, i) < h,
{
    lemma_split_index(w, i);
    let y = row_of(w, i);
    if y >= h {
        lemma_mul_inequality(h, y, w);
        lemma_mul_is_commutative(w, h);
        lemma_mul_nonnegative(y, w);
    }
}

/// The bytes of rows `ry .. ry + rows`, columns `rx .. rx + n` of a `w` by
/// `h` screen lie inside it.
pub proof fn lemma_row_span_fits(w: int, h: int, y: int, rx: int, n: int)
    requires
        0 <= y < h,
        0 <= rx,
        0 <= n,
        rx + n <= w,
    ensures
        0 <= byte_index(w, rx, y, 0),
        byte_index(w, rx, y, 0) + 4 * n <= frame_len(w, h),
{
    lemma_mul_inequality(y + 1, h, w);
    lemma_mul_is_commutative(w, h);
    lemma_mul_nonnegative(y, w);
    assert((y + 1) * w == y * w + w) by (nonlinear_arith);
}

/// Draws rows of a raw rectangle into the bytes of a `w` by `h` screen.
fn draw_raw(px: &mut Vec<u8>, w: usize, h: usize, rx: usize, ry: usize, rw: usize, rh: usize, data: &[u8])
    requires
        old(px)@.len() == frame_len(w as int, h as int),
        data@.len() == rw * rh * 4,
        raw_fits(w as int, h as int, rx as int, ry as int, rh as int),
    ensures
        final(px)@ == raw_pixels(old(px)@, w as int, rx as int, ry as int, rw as int, rh as int, data@),
{
    let ghost old_px = px@;
    let ghost wi = w as int;
    let total: usize = px.len();
    let dlen: usize = data.len();
    if w == 0 || rx >= w || ry >= h {
        proof {
            assert forall|i: int| 0 <= i < old_px.len() implies old_px[i] == raw_byte(old_px, wi, rx as int, ry as int, rw as int, rh as int, data@, i) by {
                if w > 0 {
                    lemma_split_index(wi, i);
                    lemma_row_bound(wi, h as int, i);
                }
            }
            assert(px@ =~= raw_pixels(old_px, wi, rx as int, ry as int, rw as int, rh as int, data@));
        }
        return;
    }
    let rows: usize = if rh < h - ry { rh } else { h - ry };
    let n: usize = if rw < w - rx { rw } else { w - rx };
    let mut row: usize = 0;
    while row < rows
        invariant
            0 < w,
            rx < w,
            ry < h,
            rows <= rh,
            ry + rows <= h,
            n <= rw,
            rx + n <= w,
            n == rw || rx + n == w,
            rows == rh || ry + rows == h,
            row <= rows,
            old_px.len() == frame_len(w as int, h as int),
            old_px.len() == total,
            data@.len() == dlen,
            data@.len() == rw * rh * 4,
            px@.len() == old_px.len(),
            forall|i: int| 0 <= i < px@.len() ==> px@[i] == raw_byte(old_px, w as int, rx as int, ry as int, rw as int, row as int, data@, i),
        decreases rows - row,
    {
        let y: usize = ry + row;
        proof {
            lemma_row_span_fits(w as int, h as int, y as int, rx as int, n as int);
            lemma_mul_inequality(row as int + 1, rh as int, rw as int);
            lemma_mul_is_commutative(rw as int, rh as int);
            lemma_mul_nonnegative(row as int, rw as int);
            assert((row as int + 1) * rw == row * rw + rw) by (nonlinear_arith);
            lemma_mul_nonnegative(y as int, w as int);
            assert(y * w + rx <= total);
        }
        let dst: usize = (y * w + rx) * 4;
        let src: usize = row * rw * 4;
        let ghost before = px@;
        let mut k: usize = 0;
        while k < 4 * n
            invariant
                0 < w,
                rx + n <= w,
                y == ry + row,
                dst == byte_index(w as int, rx as int, y as int, 0),
                dst + 4 * n <= before.len(),
                before.len() == total,
                data@.len() == dlen,
                src == row * rw * 4,
                src + 4 * n <= data@.len(),
                k <= 4 * n,
                px@.len() == before.len(),
                forall|i: int| 0 <= i < px@.len() && !(dst <= i < dst + k) ==> px@[i] == before[i],
                forall|i: int| dst <= i < dst + k ==> px@[i] == (if (i - dst) % 4 == 3 {
                    255u8
                } else {
                    data@[src + (i - dst)]
                }),
            decreases 4 * n - k,
        {
            let v: u8 = if k % 4 == 3 {
                255
            } else {
                data[src + k]
            };
            px.set(dst + k, v);
            k = k + 1;
        }
        proof {
            let wi = w as int;
            assert forall|i: int| 0 <= i < px@.len() implies px@[i] == raw_byte(old_px, wi, rx as int, ry as int, rw as int, row + 1, data@, i) by {
                lemma_split_index(wi, i);
                let yy = row_of(wi, i);
                let xx = col_of(wi, i);
                let c = i % 4;
                if dst <= i < dst + 4 * n {
                    let kk = i - dst;
                    lemma_fundamental_div_mod(kk, 4);
                    lemma_mod_pos_bound(kk, 4);
                    lemma_div_pos_is_pos(kk, 4);
                    assert(kk / 4 < n);
                    assert(i == byte_index(wi, rx + kk / 4, y as int, kk % 4));
                    lemma_index_coords(wi, rx + kk / 4, y as int, kk % 4);
                    assert(((row_of(wi, i) - ry) * rw + (col_of(wi, i) - rx)) * 4 + i % 4 == src
                        + kk) by (nonlinear_arith)
                        requires
                            row_of(wi, i) == y,
                            y == ry + row,
                            col_of(wi, i) == rx + kk / 4,
                            i % 4 == kk % 4,
                            kk == 4 * (kk / 4) + kk % 4,
                            src == row * rw * 4,
                    ;
                    assert(in_rect(wi, rx as int, ry as int, rw as int, row + 1, i));
                    assert(px@[i] == raw_byte(old_px, wi, rx as int, ry as int, rw as int, row + 1, data@, i));
                } else {
                    assert(px@[i] == before[i]);
                    assert(before[i] == raw_byte(old_px, wi, rx as int, ry as int, rw as int, row as int, data@, i));
                    if yy == y && rx <= xx < rx + rw {
                        assert(xx < rx + n);
                        assert(i == byte_index(wi, xx, yy, c));
                        assert(dst <= i < dst + 4 * n) by (nonlinear_arith)
                            requires
                                i == (yy * wi + xx) * 4 + c,
                                dst == (yy * wi + rx) * 4,
                                rx <= xx < rx + n,
                                0 <= c < 4,
                        ;
                    }
                }
            }
        }
        row = row + 1;
    }
    proof {
        let wi = w as int;
        assert forall|i: int| 0 <= i < px@.len() implies px@[i] == raw_byte(old_px, wi, rx as int, ry as int, rw as int, rh as int, data@, i) by {
            lemma_split_index(wi, i);
            lemma_row_bound(wi, h as int, i);
        }
        assert(px@ =~= raw_pixels(old_px, wi, rx as int, ry as int, rw as int, rh as int, data@));
    }
}

/// `p` with the `len` bytes at `dst` replaced by the `len` bytes that were
/// at `src`, as `slice::copy_within` does.
pub open spec fn copy_within(p: Seq<u8>, src: int, dst: int, len: int) -> Seq<u8> {
    Seq::new(p.len(), |i: int| if dst <= i < dst + len {
        p[src + (i - dst)]
    } else {
        p[i]
    })
}

/// The screen after the first `rows` rows of a copied rectangle were
/// copied, one after the other, from the rectangle at (`sx`, `sy`) to the
/// one at (`rx`, `ry`), each row `rw` pixels long. A row runs on into the
/// next screen row where it passes the right edge.
pub open spec fn copy_rows(p: Seq<u8>, w: int, rx: int, ry: int, rw: int, sx: int, sy: int, rows: nat) -> Seq<u8>
    decreases rows,
{
    if rows == 0 {
        p
    } else {
        let q = copy_rows(p, w, rx, ry, rw, sx, sy, (rows - 1) as nat);
        let r = rows - 1;
        copy_within(q, byte_index(w, sx, sy + r, 0), byte_index(w, rx, ry + r, 0), rw * 4)
    }
}

/// How many rows of a copied rectangle are copied: they stop at the
/// first row whose source or destination is below the screen.
pub open spec fn copy_row_count(h: int, ry: int, rh: int, sy: int) -> int {
    if sy >= h || ry >= h {
        0
    } else {
        let a = if rh < h - sy { rh } else { h - sy };
        if a < h - ry { a } else { h - ry }
    }
}

/// Whether every copied row, source and destination, lies within the
/// screen's bytes.
pub open spec fn copy_fits(w: int, h: int, rx: int, ry: int, rw: int, rh: int, sx: int, sy: int) -> bool {
    let n = copy_row_count(h, ry, rh, sy);
    n == 0 || (byte_index(w, sx, sy + n - 1, 0) + rw * 4 <= frame_len(w, h) && byte_index(w, rx, ry + n - 1, 0) + rw * 4 <= frame_len(w, h))
}

/// Copies a rectangle within the bytes of a `w` by `h` screen, row by row.
fn draw_copy(px: &mut Vec<u8>, w: usize, h: usize, rx: usize, ry: usize, rw: usize, rh: usize, sx: usize, sy: usize)
    requires
        old(px)@.len() == frame_len(w as int, h as int),
        copy_fits(w as int, h as int, rx as int, ry as int, rw as int, rh as int, sx as int, sy as int),
    ensures
        final(px)@ == copy_rows(old(px)@, w as int, rx as int, ry as int, rw as int, sx as int, sy as int,
            copy_row_count(h as int, ry as int, rh as int, sy as int) as nat),
        final(px)@.len() == old(px)@.len(),
{
    let ghost old_px = px@;
    let total: usize = px.len();
    if sy >= h || ry >= h {
        return;
    }
    let a: usize = if rh < h - sy { rh } else { h - sy };
    let rows: usize = if a < h - ry { a } else { h - ry };
    let mut row: usize = 0;
    while row < rows
        invariant
            sy < h,
            ry < h,
            rows as int == copy_row_count(h as int, ry as int, rh as int, sy as int),
            copy_fits(w as int, h as int, rx as int, ry as int, rw as int, rh as int, sx as int, sy as int),
            row <= rows,
            old_px.len() == frame_len(w as int, h as int),
            old_px.len() == total,
            px@.len() == total,
            px@ == copy_rows(old_px, w as int, rx as int, ry as int, rw as int, sx as int, sy as int, row as nat),
        decreases rows - row,
    {
        proof {
            lemma_mul_inequality(sy + row, sy + rows - 1, w as int);
            lemma_mul_inequality(ry + row, ry + rows - 1, w as int);
            lemma_mul_nonnegative(sy + row, w as int);
            lemma_mul_nonnegative(ry + row, w as int);
        }
        let src: usize = ((sy + row) * w + sx) * 4;
        let dst: usize = ((ry + row) * w + rx) * 4;
        let len: usize = rw * 4;
        let ghost before = px@;
        let mut tmp: Vec<u8> = Vec::with_capacity(len);
        let mut k: usize = 0;
        while k < len
            invariant
                src + len <= before.len(),
                before.len() == total,
                px@ == before,
                k <= len,
                tmp@ == before.subrange(src as int, src + k),
            decreases len - k,
        {
            tmp.push(px[src + k]);
            k = k + 1;
            assert(tmp@ =~= before.subrange(src as int, src + k));
        }
        k = 0;
        while k < len
            invariant
                dst + len <= before.len(),
                src + len <= before.len(),
                before.len() == total,
                tmp@ == before.subrange(src as int, src + len),
                k <= len,
                px@.len() == before.len(),
                forall|i: int| 0 <= i < px@.len() && !(dst <= i < dst + k) ==> px@[i] == before[i],
                forall|i: int| dst <= i < dst + k ==> px@[i] == before[src + (i - dst)],
            decreases len - k,
        {
            px.set(dst + k, tmp[k]);
            k = k + 1;
        }
        assert(px@ =~= copy_within(before, src as int, dst as int, len as int));
        row = row + 1;
    }
}

/// The client's copy of the remote screen.
pub struct Framebuffer {
    width: u16,
    height: u16,
    pixels: Vec<u8>,
}

/// What a framebuffer holds.
pub struct FrameView {
    pub width: u16,
    pub height: u16,
    pub pixels: Seq<u8>,
}

impl View for Framebuffer {
    type V = FrameView;

    closed spec fn view(&self) -> FrameView {
        FrameView { width: self.width, height: self.height, pixels: self.pixels@ }
    }
}

/// Whether `v` holds four bytes for each of its pixels.
pub open spec fn frame_wf(v: FrameView) -> bool {
    v.pixels.len() == frame_len(v.width as int, v.height as int)
}

impl Framebuffer {
    #[verifier::type_invariant]
    spec fn inv(&self) -> bool {
        self.pixels@.len() == frame_len(self.width as int, self.height as int)
    }

    /// A `width` by `height` screen, every byte 255 (opaque white).
    pub fn new(width: u16, height: u16) -> (r: Self)
        requires
            frame_len(width as int, height as int) <= usize::MAX,
        ensures
            r@.width == width && r@.height == height,
            frame_wf(r@),
            forall|i: int| 0 <= i < r@.pixels.len() ==> r@.pixels[i] == 255u8,
    {
        proof {
            lemma_mul_nonnegative(width as int, height as int);
        }
        let n: usize = (width as usize) * (height as usize) * 4;
        let pixels = vec![255u8; n];
        Framebuffer { width, height, pixels }
    }

    /// The width in pixels.
    pub fn width(&self) -> (r: u16)
        ensures
            r == self@.width,
    {
        self.width
    }

    /// The height in pixels.
    pub fn height(&self) -> (r: u16)
        ensures
            r == self@.height,
    {
        self.height
    }

    /// The screen as a frame to display; the bytes are copied.
    pub fn to_frame(&self) -> (r: VideoFrame)
        ensures
            r.width == self@.width,
            r.height == self@.height,
            r.data@ == self@.pixels,
            frame_wf(self@),
    {
        proof { use_type_invariant(self); }
        let data = self.pixels.clone();
        proof { broadcast use vstd::std_specs::vec::group_vec_axioms; }
        assert(data@ =~= self.pixels@);
        VideoFrame { width: self.width as u32, height: self.height as u32, data }
    }

    /// Whether a raw rectangle at (`x`, `y`), `w` by `h`, can be drawn
    /// without running off the screen's bytes.
    pub fn raw_fits(&self, x: u16, y: u16, w: u16, h: u16) -> (r: bool)
        ensures
            r == raw_fits(self@.width as int, self@.height as int, x as int, y as int, h as int),
    {
        let width = self.width as u64;
        let height = self.height as u64;
        let (xx, yy, hh) = (x as u64, y as u64, h as u64);
        if xx < width || hh == 0 || yy >= height {
            return true;
        }
        let last: u64 = if yy + hh < height { yy + hh } else { height };
        proof {
            lemma_mul_inequality(last as int - 1, height as int, width as int);
            lemma_mul_nonnegative(last as int - 1, width as int);
            assert(width * height <= 0xFFFF * 0xFFFF) by (nonlinear_arith)
                requires width <= 0xFFFF, height <= 0xFFFF;
            lemma_mul_is_commutative(width as int, height as int);
        }
        (last - 1) * width + xx <= width * height
    }

    /// Draws a raw rectangle at (`x`, `y`), `w` by `h`, whose pixels
    /// `data` come row by row, four bytes each; alpha is drawn opaque and
    /// the parts off the screen are left out.
    pub fn apply_raw(&mut self, x: u16, y: u16, w: u16, h: u16, data: &[u8])
        requires
            data@.len() == w as int * h as int * 4,
            raw_fits(old(self)@.width as int, old(self)@.height as int, x as int, y as int, h as int),
        ensures
            final(self)@.width == old(self)@.width,
            final(self)@.height == old(self)@.height,
            frame_wf(final(self)@),
            final(self)@.pixels == raw_pixels(old(self)@.pixels, old(self)@.width as int, x as int, y as int, w as int, h as int, data@),
    {
        proof { use_type_invariant(&*self); }
        let mut taken = Framebuffer { width: 0, height: 0, pixels: Vec::new() };
        std::mem::swap(self, &mut taken);
        proof { use_type_invariant(&taken); }
        let width = taken.width;
        let height = taken.height;
        let mut pixels = taken.pixels;
        draw_raw(&mut pixels, width as usize, height as usize, x as usize, y as usize, w as usize, h as usize, data);
        *self = Framebuffer { width, height, pixels };
    }

    /// Whether a copied rectangle at (`x`, `y`), `w` by `h`, from
    /// (`src_x`, `src_y`) stays within the screen's bytes.
    pub fn copy_fits(&self, x: u16, y: u16, w: u16, h: u16, src_x: u16, src_y: u16) -> (r: bool)
        ensures
            r == copy_fits(self@.width as int, self@.height as int, x as int, y as int, w as int, h as int, src_x as int, src_y as int),
    {
        proof { use_type_invariant(self); }
        let width = self.width as u64;
        let height = self.height as u64;
        if src_y as u64 >= height || y as u64 >= height {
            return true;
        }
        let hh = h as u64;
        let a: u64 = if hh < height - src_y as u64 { hh } else { height - src_y as u64 };
        let n: u64 = if a < height - y as u64 { a } else { height - y as u64 };
        if n == 0 {
            return true;
        }
        proof {
            assert(width * height <= 0xFFFF * 0xFFFF) by (nonlinear_arith)
                requires width <= 0xFFFF, height <= 0xFFFF;
            lemma_mul_inequality(src_y + n - 1, height as int, width as int);
            lemma_mul_inequality(y + n - 1, height as int, width as int);
            lemma_mul_nonnegative(src_y + n - 1, width as int);
            lemma_mul_nonnegative(y + n - 1, width as int);
            lemma_mul_is_commutative(width as int, height as int);
        }
        let total: u64 = width * height * 4;
        let src_end: u64 = ((src_y as u64 + n - 1) * width + src_x as u64) * 4 + (w as u64) * 4;
        let dst_end: u64 = ((y as u64 + n - 1) * width + x as u64) * 4 + (w as u64) * 4;
        src_end <= total && dst_end <= total
    }

    /// Copies the rectangle at (`src_x`, `src_y`), `w` by `h`, to (`x`,
    /// `y`), row by row from the top; rows stop at the bottom of the screen.
    pub fn apply_copy_rect(&mut self, x: u16, y: u16, w: u16, h: u16, src_x: u16, src_y: u16)
        requires
            copy_fits(old(self)@.width as int, old(self)@.height as int, x as int, y as int, w as int, h as int, src_x as int, src_y as int),
        ensures
            final(self)@.width == old(self)@.width,
            final(self)@.height == old(self)@.height,
            frame_wf(final(self)@),
            final(self)@.pixels == copy_rows(old(self)@.pixels, old(self)@.width as int, x as int, y as int, w as int, src_x as int, src_y as int,
                copy_row_count(old(self)@.height as int, y as int, h as int, src_y as int) as nat),
    {
        proof { use_type_invariant(&*self); }
        let mut taken = Framebuffer { width: 0, height: 0, pixels: Vec::new() };
        std::mem::swap(self, &mut taken);
        proof { use_type_invariant(&taken); }
        let width = taken.width;
        let height = taken.height;
        let mut pixels = taken.pixels;
        draw_copy(&mut pixels, width as usize, height as usize, x as usize, y as usize, w as usize, h as usize, src_x as usize, src_y as usize);
        *self = Framebuffer { width, height, pixels };
    }

}

/// After a raw rectangle is drawn, a pixel of the rectangle that lies on
/// the screen holds the rectangle's pixel, with opaque alpha; every other
/// pixel is as it was.
pub proof fn lemma_raw_read_back(old: Seq<u8>, w: int, h: int, rx: int, ry: int, rw: int, rh: int, data: Seq<u8>, x: int, y: int, c: int)
    requires
        old.len() == frame_len(w, h),
        0 <= x < w,
        0 <= y < h,
        0 <= c < 4,
    ensures
        0 <= byte_index(w, x, y, c) < old.len(),
        raw_pixels(old, w, rx, ry, rw, rh, data)[byte_index(w, x, y, c)] == (if rx <= x < rx + rw && ry <= y < ry + rh {
            if c == 3 {
                255u8
            } else {
                data[((y - ry) * rw + (x - rx)) * 4 + c]
            }
        } else {
            old[byte_index(w, x, y, c)]
        }),
{
    lemma_index_coords(w, x, y, c);
    lemma_row_span_fits(w, h, y, x, 1);
}

/// Byte `i` of the screen after a copied rectangle's first `rows` rows were
/// copied, when each source pixel still held its old value when read: the
/// destination holds the source's old pixels, the rest is unchanged.
pub open spec fn copied_byte(old: Seq<u8>, w: int, rx: int, ry: int, rw: int, sx: int, sy: int, rows: int, i: int) -> u8 {
    let y = row_of(w, i);
    let x = col_of(w, i);
    if ry <= y < ry + rows && rx <= x < rx + rw {
        old[byte_index(w, sx + (x - rx), sy + (y - ry), i % 4)]
    } else {
        old[i]
    }
}

/// A copied rectangle whose rows do not run past the right edge moves the
/// source's old pixels, unless a source row lies below the destination's
/// first row within the rows copied and the columns overlap: copying row by
/// row from the top then reads a row it has already written.
pub proof fn lemma_copy_rect_moves_old_pixels(old: Seq<u8>, w: int, h: int, rx: int, ry: int, rw: int, rh: int, sx: int, sy: int, rows: nat)
    requires
        old.len() == frame_len(w, h),
        0 <= rx,
        0 <= ry,
        0 <= sx,
        0 <= sy,
        0 <= rw,
        rx + rw <= w,
        sx + rw <= w,
        ry <= sy || sy + rows <= ry || rx + rw <= sx || sx + rw <= rx,
        rows <= copy_row_count(h, ry, rh, sy),
    ensures
        copy_rows(old, w, rx, ry, rw, sx, sy, rows).len() == old.len(),
        forall|i: int| 0 <= i < old.len() ==> copy_rows(old, w, rx, ry, rw, sx, sy, rows)[i]
            == copied_byte(old, w, rx, ry, rw, sx, sy, rows as int, i),
    decreases rows,
{
    if rows == 0 {
        assert forall|i: int| 0 <= i < old.len() implies copy_rows(old, w, rx, ry, rw, sx, sy, rows)[i]
            == copied_byte(old, w, rx, ry, rw, sx, sy, rows as int, i) by {}
        return;
    }
    let k = (rows - 1) as nat;
    lemma_copy_rect_moves_old_pixels(old, w, h, rx, ry, rw, rh, sx, sy, k);
    let q = copy_rows(old, w, rx, ry, rw, sx, sy, k);
    let dst = byte_index(w, rx, ry + k, 0);
    let src = byte_index(w, sx, sy + k, 0);
    let len = rw * 4;
    assert(ry + k < h && sy + k < h);
    if w == 0 {
        assert(old.len() == 0);
        return;
    }
    lemma_row_span_fits(w, h, ry + k, rx, rw);
    lemma_row_span_fits(w, h, sy + k, sx, rw);
    assert forall|i: int| 0 <= i < old.len() implies copy_rows(old, w, rx, ry, rw, sx, sy, rows)[i]
        == copied_byte(old, w, rx, ry, rw, sx, sy, rows as int, i) by {
        lemma_split_index(w, i);
        let y = row_of(w, i);
        let x = col_of(w, i);
        let c = i % 4;
        if dst <= i < dst + len {
            let t = i - dst;
            lemma_fundamental_div_mod(t, 4);
            lemma_mod_pos_bound(t, 4);
            lemma_div_pos_is_pos(t, 4);
            assert(t / 4 < rw);
            assert(i == byte_index(w, rx + t / 4, ry + k, t % 4));
            lemma_index_coords(w, rx + t / 4, ry + k, t % 4);
            let j = src + t;
            assert(j == byte_index(w, sx + t / 4, sy + k, t % 4));
            lemma_index_coords(w, sx + t / 4, sy + k, t % 4);
            assert(0 <= j < old.len());
            assert(!(ry <= row_of(w, j) < ry + k && rx <= col_of(w, j) < rx + rw));
            assert(q[j] == copied_byte(old, w, rx, ry, rw, sx, sy, k as int, j));
            assert(q[j] == old[j]);
            assert(copy_rows(old, w, rx, ry, rw, sx, sy, rows)[i] == q[j]);
        } else {
            assert(copy_rows(old, w, rx, ry, rw, sx, sy, rows)[i] == q[i]);
            assert(q[i] == copied_byte(old, w, rx, ry, rw, sx, sy, k as int, i));
            if ry + k == y && rx <= x < rx + rw {
                assert(i == byte_index(w, x, y, c));
                assert(dst <= i < dst + len) by (nonlinear_arith)
                    requires
                        i == (y * w + x) * 4 + c,
                        dst == (y * w + rx) * 4,
                        len == rw * 4,
                        rx <= x < rx + rw,
                        0 <= c < 4,
                ;
            }
        }
    }
}

/// Whether every pixel of `px` has an opaque alpha byte.
pub open spec fn opaque(px: Seq<u8>) -> bool {
    forall|i: int| 0 <= i < px.len() && i % 4 == 3 ==> #[trigger] px[i] == 255u8
}

/// Drawing a raw rectangle keeps every pixel opaque.
pub proof fn lemma_raw_keeps_opaque(old: Seq<u8>, w: int, rx: int, ry: int, rw: int, rh: int, data: Seq<u8>)
    requires
        opaque(old),
    ensures
        raw_pixels(old, w, rx, ry, rw, rh, data).len() == old.len(),
        opaque(raw_pixels(old, w, rx, ry, rw, rh, data)),
{
    let p = raw_pixels(old, w, rx, ry, rw, rh, data);
    assert forall|i: int| 0 <= i < p.len() && i % 4 == 3 implies #[trigger] p[i] == 255u8 by {
        assert(p[i] == raw_byte(old, w, rx, ry, rw, rh, data, i));
    }
}

/// Copying the first `rows` rows of a copied rectangle keeps every pixel
/// opaque, when the first `n` rows (`rows` of them among them) lie within
/// the bytes: whole pixels move to whole pixels.
proof fn lemma_copy_rows_keep_opaque(p: Seq<u8>, w: int, rx: int, ry: int, rw: int, sx: int, sy: int, rows: nat, n: int)
    requires
        opaque(p),
        0 <= w,
        0 <= rx,
        0 <= ry,
        0 <= rw,
        0 <= sx,
        0 <= sy,
        rows <= n,
        n == 0 || (byte_index(w, sx, sy + n - 1, 0) + rw * 4 <= p.len() && byte_index(w, rx, ry + n - 1, 0) + rw * 4
            <= p.len()),
    ensures
        copy_rows(p, w, rx, ry, rw, sx, sy, rows).len() == p.len(),
        opaque(copy_rows(p, w, rx, ry, rw, sx, sy, rows)),
    decreases rows,
{
    if rows > 0 {
        let k = (rows - 1) as nat;
        lemma_copy_rows_keep_opaque(p, w, rx, ry, rw, sx, sy, k, n);
        let q = copy_rows(p, w, rx, ry, rw, sx, sy, k);
        let a = (sy + k) * w + sx;
        let b = (ry + k) * w + rx;
        let src = byte_index(w, sx, sy + k, 0);
        let dst = byte_index(w, rx, ry + k, 0);
        let len = rw * 4;
        lemma_mul_inequality(sy + k, sy + n - 1, w);
        lemma_mul_inequality(ry + k, ry + n - 1, w);
        lemma_mul_nonnegative(sy + k, w);
        lemma_mul_nonnegative(ry + k, w);
        assert(src == a * 4 && dst == b * 4);
        assert(0 <= src && src + len <= p.len());
        assert(0 <= dst && dst + len <= p.len());
        let r = copy_rows(p, w, rx, ry, rw, sx, sy, rows);
        assert(r == copy_within(q, src, dst, len));
        assert forall|i: int| 0 <= i < r.len() && i % 4 == 3 implies #[trigger] r[i] == 255u8 by {
            if dst <= i < dst + len {
                let j = src + (i - dst);
                lemma_mod_multiples_vanish(a - b, i, 4);
                assert(j == 4 * (a - b) + i);
                assert(j % 4 == 3);
                assert(r[i] == q[j]);
            } else {
                assert(r[i] == q[i]);
            }
        }
    }
}

/// Copying a rectangle that fits the screen's bytes keeps every pixel
/// opaque.
pub proof fn lemma_copy_keeps_opaque(p: Seq<u8>, w: int, h: int, rx: int, ry: int, rw: int, rh: int, sx: int, sy: int)
    requires
        opaque(p),
        p.len() == frame_len(w, h),
        0 <= w,
        0 <= rx,
        0 <= ry,
        0 <= rw,
        0 <= rh,
        0 <= sx,
        0 <= sy,
        copy_fits(w, h, rx, ry, rw, rh, sx, sy),
    ensures
        copy_rows(p, w, rx, ry, rw, sx, sy, copy_row_count(h, ry, rh, sy) as nat).len() == p.len(),
        opaque(copy_rows(p, w, rx, ry, rw, sx, sy, copy_row_count(h, ry, rh, sy) as nat)),
{
    let n = copy_row_count(h, ry, rh, sy);
    assert(n >= 0);
    lemma_copy_rows_keep_opaque(p, w, rx, ry, rw, sx, sy, n as nat, n);
}

} // verus!
