//! Video formats: encoding, dimensions, rate, and the derived geometry
//! (row stride and payload size) of one generated frame.

use vstd::prelude::*;

verus! {

/// Pixel layouts the harness can generate and submit.
#[derive(Clone, Copy, Debug, PartialEq, Eq, Structural)]
pub enum Encoding {
    /// Packed 4:2:2, two pixels per 4-byte group as U, Y0, V, Y1.
    Uyvy,
    /// Packed 32-bit, one pixel per 4-byte group as B, G, R, A.
    Bgra,
    /// Planar 4:2:0, a full-size Y plane then a half-height interleaved
    /// UV plane.
    Nv12,
}

/// One test case's immutable video format.
#[derive(Clone, Copy, Debug)]
pub struct VideoFormat {
    pub encoding: Encoding,
    pub width: i32,
    pub height: i32,
    pub fps_n: i32,
    pub fps_d: i32,
    pub name: &'static str,
}

/// Color-space tag chosen from the frame height.
#[derive(Clone, Copy, Debug, PartialEq, Eq, Structural)]
pub enum ColorSpace {
    Bt601,
    Bt709,
}

impl VideoFormat {
    /// Bytes of one generated frame, by encoding.
    pub open spec fn payload(self) -> int {
        match self.encoding {
            Encoding::Uyvy => 2 * self.width * self.height,
            Encoding::Bgra => 4 * self.width * self.height,
            Encoding::Nv12 => self.width * self.height + (self.width * self.height) / 2,
        }
    }

    /// Row stride in bytes; for planar NV12 this is the Y-plane stride.
    pub open spec fn stride_spec(self) -> int {
        match self.encoding {
            Encoding::Uyvy => 2 * self.width,
            Encoding::Bgra => 4 * self.width,
            Encoding::Nv12 => self.width as int,
        }
    }

    /// Positive dimensions and rate; the payload must fit the transport's
    /// signed 32-bit length field.
    pub open spec fn wf(self) -> bool {
        &&& 0 < self.width
        &&& 0 < self.height
        &&& 0 < self.fps_n
        &&& 0 < self.fps_d
        &&& self.payload() <= i32::MAX as int
    }

    /// Parity invariants: UYVY shares one chroma pair between two luma
    /// samples, so the width must be even; NV12 interleaves subsampled
    /// chroma, so width and height must both be even.
    pub open spec fn dims_ok(self) -> bool {
        match self.encoding {
            Encoding::Uyvy => self.width % 2 == 0,
            Encoding::Bgra => true,
            Encoding::Nv12 => self.width % 2 == 0 && self.height % 2 == 0,
        }
    }

    pub fn stride(&self) -> (r: i32)
        requires
            self.wf(),
        ensures
            r == self.stride_spec(),
    {
        proof {
            assert(2 * self.width <= 2 * self.width * self.height && 4 * self.width <= 4
                * self.width * self.height) by (nonlinear_arith)
                requires
                    0 < self.width,
                    0 < self.height,
            ;
        }
        match self.encoding {
            Encoding::Uyvy => self.width * 2,
            Encoding::Bgra => self.width * 4,
            Encoding::Nv12 => self.width,
        }
    }

    pub fn buffer_size(&self) -> (r: usize)
        requires
            self.wf(),
        ensures
            r == self.payload(),
    {
        let w = self.width as u64;
        let h = self.height as u64;
        proof {
            assert((w * h) == self.width * self.height && (w * h) * 2 == 2 * self.width
                * self.height && (w * h) * 4 == 4 * self.width * self.height && 0 <= self.width
                * self.height && self.width * self.height <= 2 * self.width * self.height
                && self.width * self.height <= 4 * self.width * self.height) by (nonlinear_arith)
                requires
                    w == self.width,
                    h == self.height,
                    0 < self.width,
                    0 < self.height,
            ;
        }
        match self.encoding {
            Encoding::Uyvy => (w * h * 2) as usize,
            Encoding::Bgra => (w * h * 4) as usize,
            Encoding::Nv12 => (w * h + (w * h) / 2) as usize,
        }
    }

    /// BT.601 below 720 lines, BT.709 from 720 up.
    pub open spec fn color_space_spec(self) -> ColorSpace {
        if self.height < 720 {
            ColorSpace::Bt601
        } else {
            ColorSpace::Bt709
        }
    }

    pub fn color_space(&self) -> (r: ColorSpace)
        ensures
            r == self.color_space_spec(),
    {
        if self.height < 720 {
            ColorSpace::Bt601
        } else {
            ColorSpace::Bt709
        }
    }

    /// The alpha flag is honoured only for BGRA frames.
    pub open spec fn alpha_flag_spec(self, use_alpha: bool) -> bool {
        use_alpha && self.encoding == Encoding::Bgra
    }

    pub fn alpha_flag(&self, use_alpha: bool) -> (r: bool)
        ensures
            r == self.alpha_flag_spec(use_alpha),
    {
        use_alpha && matches!(self.encoding, Encoding::Bgra)
    }

    /// The static fields of the session's frame descriptor. Only the
    /// timestamp varies between submissions; everything else is fixed here
    /// once per session.
    pub fn frame_config(&self, use_alpha: bool) -> (r: FrameConfig)
        requires
            self.wf(),
        ensures
            r.encoding == self.encoding,
            r.width == self.width,
            r.height == self.height,
            r.stride == self.stride_spec(),
            r.alpha == self.alpha_flag_spec(use_alpha),
            r.color_space == self.color_space_spec(),
            r.fps_n == self.fps_n,
            r.fps_d == self.fps_d,
            r.data_length == self.payload(),
    {
        let size = self.buffer_size();
        FrameConfig {
            encoding: self.encoding,
            width: self.width,
            height: self.height,
            stride: self.stride(),
            alpha: self.alpha_flag(use_alpha),
            color_space: self.color_space(),
            fps_n: self.fps_n,
            fps_d: self.fps_d,
            data_length: size as i32,
        }
    }
}

/// The fields of a frame descriptor that stay fixed for a whole session.
#[derive(Clone, Copy, Debug)]
pub struct FrameConfig {
    pub encoding: Encoding,
    pub width: i32,
    pub height: i32,
    pub stride: i32,
    pub alpha: bool,
    pub color_space: ColorSpace,
    pub fps_n: i32,
    pub fps_d: i32,
    pub data_length: i32,
}

} // verus!
