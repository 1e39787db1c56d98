//! The pixel formats a camera accepts, their FourCC codes and frame sizes.

use vstd::prelude::*;

use crate::error::{Error, Result};
use crate::fourcc::{
    spec_fourcc_of, FourCc, FOURCC_24BG, FOURCC_ABGR, FOURCC_I420, FOURCC_J400, FOURCC_NV12, FOURCC_RAW,
    FOURCC_UYVY, FOURCC_YUY2,
};

verus! {

#[derive(Clone, Copy, Debug, PartialEq, Eq, Structural)]
pub enum PixelFormat {
    Rgb,
    Bgr,
    Rgba,
    Gray,
    I420,
    Nv12,
    Yuyv,
    Uyvy,
}

/// The format whose FourCC is `fourcc`, if there is one.
pub open spec fn spec_format_of_fourcc(fourcc: FourCc) -> Option<PixelFormat> {
    if exists|f: PixelFormat| f.spec_fourcc() == fourcc {
        Some(choose|f: PixelFormat| f.spec_fourcc() == fourcc)
    } else {
        None
    }
}

/// Whether `err` is the error for a FourCC that names no supported format.
pub open spec fn is_unsupported_format_error(err: Error) -> bool {
    err matches Error::Runtime(m) && m@ == "Unsupported image format."@
}

impl PixelFormat {
    /// The canonical FourCC of the format.
    pub open spec fn spec_fourcc(self) -> FourCc {
        match self {
            PixelFormat::Rgb => FOURCC_RAW,
            PixelFormat::Bgr => FOURCC_24BG,
            PixelFormat::Rgba => FOURCC_ABGR,
            PixelFormat::Gray => FOURCC_J400,
            PixelFormat::I420 => FOURCC_I420,
            PixelFormat::Nv12 => FOURCC_NV12,
            PixelFormat::Yuyv => FOURCC_YUY2,
            PixelFormat::Uyvy => FOURCC_UYVY,
        }
    }

    /// Bytes per frame, counted in half bytes per pixel: a frame of `p` pixels
    /// takes `p * half_bytes / 2` bytes.
    pub open spec fn half_bytes_per_pixel(self) -> nat {
        match self {
            PixelFormat::Rgb | PixelFormat::Bgr => 6,
            PixelFormat::Rgba => 8,
            PixelFormat::Gray => 2,
            PixelFormat::I420 | PixelFormat::Nv12 => 3,
            PixelFormat::Yuyv | PixelFormat::Uyvy => 4,
        }
    }

    /// The number of bytes of a `width` x `height` frame (rounded down).
    pub open spec fn spec_frame_size(self, width: u32, height: u32) -> nat {
        (width * height * self.half_bytes_per_pixel() / 2) as nat
    }

    /// Whether computing the frame size of a `width` x `height` frame stays within `usize`:
    /// the largest intermediate product is `width * height * 3` for I420 and NV12.
    pub open spec fn frame_size_fits(self, width: u32, height: u32) -> bool {
        match self {
            PixelFormat::I420 | PixelFormat::Nv12 => width * height * 3 <= usize::MAX,
            _ => self.spec_frame_size(width, height) <= usize::MAX,
        }
    }

    /// The format of a canonical FourCC code.
    pub fn from_canonical_fourcc(fourcc: FourCc) -> (res: Result<Self>)
        ensures
            spec_format_of_fourcc(fourcc) matches Some(f) ==> (res matches Ok(g) && g == f),
            spec_format_of_fourcc(fourcc) is None ==> (res matches Err(e)
                && is_unsupported_format_error(e)),
    {
        proof {
            lemma_format_of_fourcc(fourcc);
        }
        if fourcc == FOURCC_RAW {
            Ok(PixelFormat::Rgb)
        } else if fourcc == FOURCC_24BG {
            Ok(PixelFormat::Bgr)
        } else if fourcc == FOURCC_ABGR {
            Ok(PixelFormat::Rgba)
        } else if fourcc == FOURCC_J400 {
            Ok(PixelFormat::Gray)
        } else if fourcc == FOURCC_I420 {
            Ok(PixelFormat::I420)
        } else if fourcc == FOURCC_NV12 {
            Ok(PixelFormat::Nv12)
        } else if fourcc == FOURCC_YUY2 {
            Ok(PixelFormat::Yuyv)
        } else if fourcc == FOURCC_UYVY {
            Ok(PixelFormat::Uyvy)
        } else {
            proof {
                reveal_strlit("Unsupported image format.");
            }
            Err(Error::runtime("Unsupported image format."))
        }
    }

    /// The canonical FourCC of the format.
    pub fn fourcc(self) -> (code: FourCc)
        ensures
            code == self.spec_fourcc(),
    {
        match self {
            PixelFormat::Rgb => FOURCC_RAW,
            PixelFormat::Bgr => FOURCC_24BG,
            PixelFormat::Rgba => FOURCC_ABGR,
            PixelFormat::Gray => FOURCC_J400,
            PixelFormat::I420 => FOURCC_I420,
            PixelFormat::Nv12 => FOURCC_NV12,
            PixelFormat::Yuyv => FOURCC_YUY2,
            PixelFormat::Uyvy => FOURCC_UYVY,
        }
    }

    /// The number of bytes of a `width` x `height` frame in this format.
    pub fn frame_size(self, width: u32, height: u32) -> (size: usize)
        requires
            self.frame_size_fits(width, height),
        ensures
            size == self.spec_frame_size(width, height),
    {
        assert(width * height <= self.spec_frame_size(width, height) || width * height * 3
            <= usize::MAX) by (nonlinear_arith)
            requires
                self.spec_frame_size(width, height) == (width * height
                    * self.half_bytes_per_pixel() / 2) as nat,
                self.half_bytes_per_pixel() >= 2 || width * height * 3 <= usize::MAX,
        ;
        let pixels = width as usize * height as usize;
        match self {
            PixelFormat::Rgb | PixelFormat::Bgr => pixels * 3,
            PixelFormat::Rgba => pixels * 4,
            PixelFormat::Gray => pixels,
            PixelFormat::I420 | PixelFormat::Nv12 => pixels * 3 / 2,
            PixelFormat::Yuyv | PixelFormat::Uyvy => pixels * 2,
        }
    }
}

/// The formats and their codes, one by one.
proof fn lemma_format_of_fourcc(fourcc: FourCc)
    ensures
        spec_format_of_fourcc(fourcc) == if fourcc == FOURCC_RAW {
            Some(PixelFormat::Rgb)
        } else if fourcc == FOURCC_24BG {
            Some(PixelFormat::Bgr)
        } else if fourcc == FOURCC_ABGR {
            Some(PixelFormat::Rgba)
        } else if fourcc == FOURCC_J400 {
            Some(PixelFormat::Gray)
        } else if fourcc == FOURCC_I420 {
            Some(PixelFormat::I420)
        } else if fourcc == FOURCC_NV12 {
            Some(PixelFormat::Nv12)
        } else if fourcc == FOURCC_YUY2 {
            Some(PixelFormat::Yuyv)
        } else if fourcc == FOURCC_UYVY {
            Some(PixelFormat::Uyvy)
        } else {
            None::<PixelFormat>
        },
{
    if exists|f: PixelFormat| f.spec_fourcc() == fourcc {
        let f = choose|f: PixelFormat| f.spec_fourcc() == fourcc;
        assert(f.spec_fourcc() == fourcc);
        match f {
            PixelFormat::Rgb => {},
            PixelFormat::Bgr => {},
            PixelFormat::Rgba => {},
            PixelFormat::Gray => {},
            PixelFormat::I420 => {},
            PixelFormat::Nv12 => {},
            PixelFormat::Yuyv => {},
            PixelFormat::Uyvy => {},
        }
    } else {
        assert(PixelFormat::Rgb.spec_fourcc() != fourcc);
        assert(PixelFormat::Bgr.spec_fourcc() != fourcc);
        assert(PixelFormat::Rgba.spec_fourcc() != fourcc);
        assert(PixelFormat::Gray.spec_fourcc() != fourcc);
        assert(PixelFormat::I420.spec_fourcc() != fourcc);
        assert(PixelFormat::Nv12.spec_fourcc() != fourcc);
        assert(PixelFormat::Yuyv.spec_fourcc() != fourcc);
        assert(PixelFormat::Uyvy.spec_fourcc() != fourcc);
    }
}

/// Every format is found again from its own FourCC.
pub proof fn lemma_fourcc_round_trip(format: PixelFormat)
    ensures
        spec_format_of_fourcc(format.spec_fourcc()) == Some(format),
{
    lemma_format_of_fourcc(format.spec_fourcc());
}

/// No two formats share a FourCC.
pub proof fn lemma_fourcc_injective(a: PixelFormat, b: PixelFormat)
    ensures
        a.spec_fourcc() == b.spec_fourcc() ==> a == b,
{
}

/// The size of a frame is its pixel count times the format's bytes per pixel, rounded down:
/// three for RGB and BGR, four for RGBA, one for grayscale, one and a half for the planar
/// I420 and NV12 (a full-size Y plane and chroma at a quarter of it), two for YUYV and UYVY.
pub proof fn lemma_frame_size_per_pixel(format: PixelFormat, width: u32, height: u32)
    ensures
        format.spec_frame_size(width, height) == match format {
            PixelFormat::Rgb | PixelFormat::Bgr => width * height * 3,
            PixelFormat::Rgba => width * height * 4,
            PixelFormat::Gray => width * height,
            PixelFormat::I420 | PixelFormat::Nv12 => width * height * 3 / 2,
            PixelFormat::Yuyv | PixelFormat::Uyvy => width * height * 2,
        },
        PixelFormat::Nv12.spec_frame_size(width, height) == PixelFormat::I420.spec_frame_size(
            width,
            height,
        ),
{
    let p = width * height;
    assert(p >= 0) by (nonlinear_arith)
        requires
            p == width * height,
    ;
    assert(p * 6 / 2 == p * 3 && p * 8 / 2 == p * 4 && p * 2 / 2 == p && p * 4 / 2 == p * 2);
}

/// Each format is known by the FourCC of its own layout: `raw ` for RGB, `24BG` for BGR,
/// `ABGR` for RGBA, `J400` for grayscale, `I420`, `NV12`, `YUY2` for YUYV and `UYVY`.
pub proof fn lemma_format_codes()
    ensures
        PixelFormat::Rgb.spec_fourcc() == spec_fourcc_of(0x72, 0x61, 0x77, 0x20),
        PixelFormat::Bgr.spec_fourcc() == spec_fourcc_of(0x32, 0x34, 0x42, 0x47),
        PixelFormat::Rgba.spec_fourcc() == spec_fourcc_of(0x41, 0x42, 0x47, 0x52),
        PixelFormat::Gray.spec_fourcc() == spec_fourcc_of(0x4a, 0x34, 0x30, 0x30),
        PixelFormat::I420.spec_fourcc() == spec_fourcc_of(0x49, 0x34, 0x32, 0x30),
        PixelFormat::Nv12.spec_fourcc() == spec_fourcc_of(0x4e, 0x56, 0x31, 0x32),
        PixelFormat::Yuyv.spec_fourcc() == spec_fourcc_of(0x59, 0x55, 0x59, 0x32),
        PixelFormat::Uyvy.spec_fourcc() == spec_fourcc_of(0x55, 0x59, 0x56, 0x59),
{
}

} // verus!
