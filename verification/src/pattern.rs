//! Deterministic test-pattern generation: one reusable pixel buffer per
//! `(encoding, width, height)` triple.

use vstd::prelude::*;
use crate::CoreError;
use crate::format::{Encoding, VideoFormat};

verus! {

/// Color-bar section for the pixel at column `x`: the image is divided
/// horizontally into 8 equal-width bars.
pub open spec fn uyvy_section(x: int, width: int) -> int {
    8 * x / width
}

/// Chroma U of a color-bar section.
pub open spec fn bar_u(sec: int) -> u8 {
    if sec == 0 {
        128u8
    } else if sec == 1 {
        16u8
    } else if sec == 2 {
        166u8
    } else if sec == 3 {
        54u8
    } else if sec == 4 {
        202u8
    } else if sec == 5 {
        90u8
    } else if sec == 6 {
        240u8
    } else {
        128u8
    }
}

/// Luma of a color-bar section.
pub open spec fn bar_y(sec: int) -> u8 {
    if sec == 0 {
        235u8
    } else if sec == 1 {
        210u8
    } else if sec == 2 {
        170u8
    } else if sec == 3 {
        145u8
    } else if sec == 4 {
        106u8
    } else if sec == 5 {
        81u8
    } else if sec == 6 {
        41u8
    } else {
        16u8
    }
}

/// Chroma V of a color-bar section.
pub open spec fn bar_v(sec: int) -> u8 {
    if sec == 0 {
        128u8
    } else if sec == 1 {
        146u8
    } else if sec == 2 {
        16u8
    } else if sec == 3 {
        34u8
    } else if sec == 4 {
        222u8
    } else if sec == 5 {
        240u8
    } else if sec == 6 {
        110u8
    } else {
        128u8
    }
}

/// The 4-byte group of column-pair `pp` in row `rr` is `(U, Y, V, Y)` for
/// the section of its left pixel, column `2 * pp`.
pub open spec fn uyvy_quad_ok(s: Seq<u8>, width: int, rr: int, pp: int) -> bool {
    let base = rr * (2 * width) + 4 * pp;
    let sec = uyvy_section(2 * pp, width);
    &&& s[base] == bar_u(sec)
    &&& s[base + 1] == bar_y(sec)
    &&& s[base + 2] == bar_v(sec)
    &&& s[base + 3] == bar_y(sec)
}

/// The 4-byte group of the pixel at column `xx`, row `rr` is the gradient
/// `(B, G, R, A)` with `B = floor(255 x / w)`, `G = floor(255 r / h)`,
/// `R = floor(255 (x + r) / (w + h))`, `A = 255`.
pub open spec fn bgra_pixel_ok(s: Seq<u8>, width: int, height: int, rr: int, xx: int) -> bool {
    let base = 4 * (rr * width + xx);
    &&& s[base] as int == 255 * xx / width
    &&& s[base + 1] as int == 255 * rr / height
    &&& s[base + 2] as int == 255 * (xx + rr) / (width + height)
    &&& s[base + 3] == 255u8
}

/// A constant-180 Y plane followed by an interleaved UV plane of 128s.
pub open spec fn nv12_ok(s: Seq<u8>, width: int, height: int) -> bool {
    &&& forall|j: int| 0 <= j < width * height ==> s[j] == 180u8
    &&& forall|j: int|
        width * height <= j < width * height + (width * height) / 2 ==> s[j] == 128u8
}

/// Color-bar `(U, Y, V)` lookup for one section.
fn bar_values(sec: usize) -> (r: (u8, u8, u8))
    ensures
        r.0 == bar_u(sec as int),
        r.1 == bar_y(sec as int),
        r.2 == bar_v(sec as int),
{
    match sec {
        0 => (128, 235, 128),
        1 => (16, 210, 146),
        2 => (166, 170, 16),
        3 => (54, 145, 34),
        4 => (202, 106, 222),
        5 => (90, 81, 240),
        6 => (240, 41, 110),
        _ => (128, 16, 128),
    }
}

fn fill_uyvy(w: usize, h: usize) -> (buf: Vec<u8>)
    requires
        0 < w < 0x8000_0000,
        0 < h < 0x8000_0000,
        w % 2 == 0,
    ensures
        buf@.len() == h * (2 * w),
        forall|rr: int, pp: int|
            0 <= rr < h && 0 <= pp < w / 2 ==> uyvy_quad_ok(buf@, w as int, rr, pp),
{
    let half_w = w / 2;
    let mut buf: Vec<u8> = Vec::new();
    let mut r: usize = 0;
    while r < h
        invariant
            0 < w < 0x8000_0000,
            0 < h < 0x8000_0000,
            w % 2 == 0,
            half_w == w / 2,
            r <= h,
            buf@.len() == r * (2 * w),
            forall|rr: int, pp: int|
                0 <= rr < r && 0 <= pp < half_w ==> uyvy_quad_ok(buf@, w as int, rr, pp),
        decreases h - r,
    {
        let mut p: usize = 0;
        while p < half_w
            invariant
                0 < w < 0x8000_0000,
                0 < h < 0x8000_0000,
                w % 2 == 0,
                half_w == w / 2,
                r < h,
                p <= half_w,
                buf@.len() == r * (2 * w) + 4 * p,
                forall|rr: int, pp: int|
                    0 <= rr < r && 0 <= pp < half_w ==> uyvy_quad_ok(buf@, w as int, rr, pp),
                forall|pp: int| 0 <= pp < p ==> uyvy_quad_ok(buf@, w as int, r as int, pp),
            decreases half_w - p,
        {
            let x = 2 * p;
            proof {
                assert((8 * (x as int)) / (w as int) < 8 && 0 <= (8 * (x as int)) / (w as int))
                    by (nonlinear_arith)
                    requires
                        0 <= x,
                        x < w,
                        0 < w,
                ;
            }
            let section = (((x as u64) * 8) / (w as u64)) as usize;
            let (u, y_val, v) = bar_values(section);
            let ghost old_s = buf@;
            buf.push(u);
            buf.push(y_val);
            buf.push(v);
            buf.push(y_val);
            proof {
                let s = buf@;
                assert(s =~= old_s + seq![u, y_val, v, y_val]);
                assert forall|rr: int, pp: int|
                    0 <= rr < r && 0 <= pp < half_w implies uyvy_quad_ok(s, w as int, rr, pp) by {
                    assert(rr * (2 * w) + 4 * pp + 3 < r * (2 * w)) by (nonlinear_arith)
                        requires
                            0 <= rr < r,
                            0 <= pp < half_w,
                            2 * half_w == w,
                            0 < w,
                    ;
                    assert(uyvy_quad_ok(old_s, w as int, rr, pp));
                }
                assert forall|pp: int|
                    0 <= pp < p + 1 implies uyvy_quad_ok(s, w as int, r as int, pp) by {
                    if pp < p {
                        assert(uyvy_quad_ok(old_s, w as int, r as int, pp));
                    } else {
                        assert(s[r * (2 * w) + 4 * pp] == u);
                        assert(s[r * (2 * w) + 4 * pp + 1] == y_val);
                        assert(s[r * (2 * w) + 4 * pp + 2] == v);
                        assert(s[r * (2 * w) + 4 * pp + 3] == y_val);
                        assert(section as int == uyvy_section(2 * pp, w as int));
                    }
                }
            }
            p += 1;
        }
        proof {
            assert(r * (2 * w) + 4 * half_w == (r + 1) * (2 * w)) by (nonlinear_arith)
                requires
                    2 * half_w == w,
            ;
        }
        r += 1;
    }
    buf
}

fn fill_bgra(w: usize, h: usize) -> (buf: Vec<u8>)
    requires
        0 < w < 0x8000_0000,
        0 < h < 0x8000_0000,
    ensures
        buf@.len() == h * (4 * w),
        forall|rr: int, xx: int|
            0 <= rr < h && 0 <= xx < w ==> bgra_pixel_ok(buf@, w as int, h as int, rr, xx),
{
    let mut buf: Vec<u8> = Vec::new();
    let mut r: usize = 0;
    while r < h
        invariant
            0 < w < 0x8000_0000,
            0 < h < 0x8000_0000,
            r <= h,
            buf@.len() == r * (4 * w),
            forall|rr: int, xx: int|
                0 <= rr < r && 0 <= xx < w ==> bgra_pixel_ok(buf@, w as int, h as int, rr, xx),
        decreases h - r,
    {
        let mut x: usize = 0;
        while x < w
            invariant
                0 < w < 0x8000_0000,
                0 < h < 0x8000_0000,
                r < h,
                x <= w,
                buf@.len() == r * (4 * w) + 4 * x,
                forall|rr: int, xx: int|
                    0 <= rr < r && 0 <= xx < w ==> bgra_pixel_ok(buf@, w as int, h as int, rr, xx),
                forall|xx: int|
                    0 <= xx < x ==> bgra_pixel_ok(buf@, w as int, h as int, r as int, xx),
            decreases w - x,
        {
            proof {
                assert(255 * (x as int) / (w as int) < 256 && 255 * (r as int) / (h as int) < 256
                    && 255 * ((x + r) as int) / ((w + h) as int) < 256 && 0 <= 255 * (x as int) / (
                w as int) && 0 <= 255 * (r as int) / (h as int) && 0 <= 255 * ((x + r) as int) / ((w
                    + h) as int)) by (nonlinear_arith)
                    requires
                        0 <= x < w,
                        0 <= r < h,
                        0 < w,
                        0 < h,
                        w < 0x8000_0000,
                        h < 0x8000_0000,
                ;
            }
            let b: u8 = ((255u64 * (x as u64)) / (w as u64)) as u8;
            let g: u8 = ((255u64 * (r as u64)) / (h as u64)) as u8;
            let rd: u8 = ((255u64 * ((x as u64) + (r as u64))) / ((w as u64) + (h as u64))) as u8;
            let ghost old_s = buf@;
            buf.push(b);
            buf.push(g);
            buf.push(rd);
            buf.push(255);
            proof {
                let s = buf@;
                assert(s =~= old_s + seq![b, g, rd, 255u8]);
                assert forall|rr: int, xx: int|
                    0 <= rr < r && 0 <= xx < w implies bgra_pixel_ok(
                    s,
                    w as int,
                    h as int,
                    rr,
                    xx,
                ) by {
                    assert(4 * (rr * w + xx) + 3 < r * (4 * w)) by (nonlinear_arith)
                        requires
                            0 <= rr < r,
                            0 <= xx < w,
                            0 < w,
                    ;
                    assert(bgra_pixel_ok(old_s, w as int, h as int, rr, xx));
                }
                assert forall|xx: int|
                    0 <= xx < x + 1 implies bgra_pixel_ok(s, w as int, h as int, r as int, xx) by {
                    assert(4 * (r * w + xx) == r * (4 * w) + 4 * xx) by (nonlinear_arith);
                    if xx < x {
                        assert(bgra_pixel_ok(old_s, w as int, h as int, r as int, xx));
                    } else {
                        assert(s[r * (4 * w) + 4 * xx] == b);
                        assert(s[r * (4 * w) + 4 * xx + 1] == g);
                        assert(s[r * (4 * w) + 4 * xx + 2] == rd);
                        assert(s[r * (4 * w) + 4 * xx + 3] == 255u8);
                    }
                }
            }
            x += 1;
        }
        proof {
            assert(r * (4 * w) + 4 * w == (r + 1) * (4 * w)) by (nonlinear_arith);
        }
        r += 1;
    }
    buf
}

fn fill_nv12(w: usize, h: usize) -> (buf: Vec<u8>)
    requires
        0 < w < 0x8000_0000,
        0 < h < 0x8000_0000,
        w % 2 == 0,
        h % 2 == 0,
        (w as int) * (h as int) < 0x8000_0000,
    ensures
        buf@.len() == w * h + (w * h) / 2,
        nv12_ok(buf@, w as int, h as int),
{
    let y_size = w * h;
    let uv_size = y_size / 2;
    let mut buf: Vec<u8> = Vec::new();
    let mut i: usize = 0;
    while i < y_size
        invariant
            i <= y_size,
            buf@.len() == i,
            forall|j: int| 0 <= j < i ==> buf@[j] == 180u8,
        decreases y_size - i,
    {
        buf.push(180);
        i += 1;
    }
    let mut k: usize = 0;
    while k < uv_size
        invariant
            k <= uv_size,
            buf@.len() == y_size + k,
            forall|j: int| 0 <= j < y_size ==> buf@[j] == 180u8,
            forall|j: int| y_size <= j < y_size + k ==> buf@[j] == 128u8,
        decreases uv_size - k,
    {
        buf.push(128);
        k += 1;
    }
    buf
}

impl VideoFormat {
    /// Build the session's reusable frame payload: 8 color bars for UYVY, a
    /// per-pixel gradient for BGRA, constant planes for NV12. Fails with
    /// `InvalidDimensions` exactly when the parity invariants of the
    /// encoding are violated.
    pub fn create_test_frame(&self) -> (r: Result<Vec<u8>, CoreError>)
        requires
            self.wf(),
        ensures
            r is Ok <==> self.dims_ok(),
            r matches Err(e) ==> e == CoreError::InvalidDimensions,
            r matches Ok(buf) ==> ({
                &&& buf@.len() == self.payload()
                &&& self.encoding == Encoding::Uyvy ==> forall|rr: int, pp: int|
                    0 <= rr < self.height && 0 <= pp < self.width / 2 ==> uyvy_quad_ok(
                        buf@,
                        self.width as int,
                        rr,
                        pp,
                    )
                &&& self.encoding == Encoding::Bgra ==> forall|rr: int, xx: int|
                    0 <= rr < self.height && 0 <= xx < self.width ==> bgra_pixel_ok(
                        buf@,
                        self.width as int,
                        self.height as int,
                        rr,
                        xx,
                    )
                &&& self.encoding == Encoding::Nv12 ==> nv12_ok(
                    buf@,
                    self.width as int,
                    self.height as int,
                )
            }),
    {
        let w = self.width as usize;
        let h = self.height as usize;
        match self.encoding {
            Encoding::Uyvy => {
                if w % 2 != 0 {
                    return Err(CoreError::InvalidDimensions);
                }
                let buf = fill_uyvy(w, h);
                proof {
                    assert(h * (2 * w) == 2 * self.width * self.height) by (nonlinear_arith)
                        requires
                            w == self.width,
                            h == self.height,
                    ;
                }
                Ok(buf)
            },
            Encoding::Bgra => {
                let buf = fill_bgra(w, h);
                proof {
                    assert(h * (4 * w) == 4 * self.width * self.height) by (nonlinear_arith)
                        requires
                            w == self.width,
                            h == self.height,
                    ;
                }
                Ok(buf)
            },
            Encoding::Nv12 => {
                if w % 2 != 0 || h % 2 != 0 {
                    return Err(CoreError::InvalidDimensions);
                }
                proof {
                    assert((w as int) * (h as int) == self.width * self.height && 0 <= self.width
                        * self.height) by (nonlinear_arith)
                        requires
                            w == self.width,
                            h == self.height,
                            0 < self.width,
                            0 < self.height,
                    ;
                }
                let buf = fill_nv12(w, h);
                Ok(buf)
            },
        }
    }
}

} // verus!
