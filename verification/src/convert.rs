//! The checks around the conversion of packed RGB and BGR frames to planar I420.
//!
//! The pixel conversion itself is libyuv's (`RAWToI420` for RGB, `RGB24ToI420` for BGR),
//! reached through a C wrapper that lays the planes out as Y, then U at `width * height`,
//! then V after `(width / 2) * (height / 2)` U samples, chroma rows `width / 2` bytes
//! apart. libyuv writes `(width + 1) / 2` samples per chroma row and `(height + 1) / 2`
//! chroma rows, so at an odd width or height the chroma writes can reach past one I420
//! frame. What this module decides is whether a conversion may run: the input and output
//! buffer sizes, and how far the chroma writes reach.

use vstd::prelude::*;

use crate::error::{Error, Result};
use crate::formats::PixelFormat;

verus! {

/// The message of the error for an input buffer shorter than a frame.
pub open spec fn short_input_message() -> Seq<char> {
    "input frame is smaller than expected"@
}

/// The message of the error for an output buffer shorter than a frame.
pub open spec fn short_output_message() -> Seq<char> {
    "output frame is smaller than expected"@
}

/// What checking the buffers of a conversion gives: an input shorter than one frame of
/// `format` is refused first, then an output shorter than one I420 frame; otherwise the
/// conversion may run.
pub open spec fn conversion_check(
    format: PixelFormat,
    input_len: int,
    output_len: int,
    width: u32,
    height: u32,
    res: Result<()>,
) -> bool {
    if input_len < format.spec_frame_size(width, height) {
        res matches Err(Error::InvalidArgument(m)) && m@ == short_input_message()
    } else if output_len < PixelFormat::I420.spec_frame_size(width, height) {
        res matches Err(Error::InvalidArgument(m)) && m@ == short_output_message()
    } else {
        res is Ok
    }
}

/// Checks the buffers of a conversion of a `width` x `height` frame of packed RGB or BGR
/// (`format`) held in `input_len` bytes into an I420 frame in `output_len` bytes.
pub fn check_conversion(
    format: PixelFormat,
    input_len: usize,
    output_len: usize,
    width: u32,
    height: u32,
) -> (res: Result<()>)
    requires
        format == PixelFormat::Rgb || format == PixelFormat::Bgr,
        PixelFormat::Rgb.frame_size_fits(width, height),
    ensures
        conversion_check(format, input_len as int, output_len as int, width, height, res),
{
    let expected_input = format.frame_size(width, height);
    let expected_output = PixelFormat::I420.frame_size(width, height);
    if input_len < expected_input {
        proof {
            reveal_strlit("input frame is smaller than expected");
        }
        return Err(Error::invalid_argument("input frame is smaller than expected"));
    }
    if output_len < expected_output {
        proof {
            reveal_strlit("output frame is smaller than expected");
        }
        return Err(Error::invalid_argument("output frame is smaller than expected"));
    }
    Ok(())
}

/// Whether every byte the conversion of a `width` x `height` frame writes falls within an
/// output buffer of `output_len` bytes.
pub fn conversion_in_bounds(output_len: usize, width: u32, height: u32) -> (fits: bool)
    requires
        PixelFormat::Rgb.frame_size_fits(width, height),
    ensures
        fits == (write_extent(width as int, height as int) <= output_len),
{
    i420_write_extent(width, height) <= output_len
}

/// The distance between chroma rows.
pub open spec fn chroma_stride(w: int) -> int {
    w / 2
}

/// The number of chroma samples written per chroma row.
pub open spec fn chroma_cols(w: int) -> int {
    (w + 1) / 2
}

/// The number of chroma rows written.
pub open spec fn chroma_rows(h: int) -> int {
    (h + 1) / 2
}

/// Where the V plane starts.
pub open spec fn v_plane_offset(w: int, h: int) -> int {
    w * h + (w / 2) * (h / 2)
}

/// The number of bytes at the front of the output buffer that the conversion writes to:
/// one past the last V sample of the last chroma row (the U samples come before it).
pub open spec fn write_extent(w: int, h: int) -> int {
    if w == 0 || h == 0 {
        0
    } else {
        v_plane_offset(w, h) + (chroma_rows(h) - 1) * chroma_stride(w) + chroma_cols(w)
    }
}

/// The number of bytes a conversion of a `width` x `height` frame writes to (see
/// `write_extent`).
pub fn i420_write_extent(width: u32, height: u32) -> (extent: usize)
    requires
        PixelFormat::Rgb.frame_size_fits(width, height),
    ensures
        extent == write_extent(width as int, height as int),
{
    if width == 0 || height == 0 {
        return 0;
    }
    let w = width as usize;
    let h = height as usize;
    proof {
        assert(w * h <= 3 * (w * h)) by (nonlinear_arith)
            requires
                w >= 0,
                h >= 0,
        ;
        assert(PixelFormat::Rgb.spec_frame_size(width, height) == 3 * (w * h)) by (nonlinear_arith)
            requires
                PixelFormat::Rgb.spec_frame_size(width, height) == (width * height * 6 / 2) as nat,
                w == width,
                h == height,
        ;
        lemma_write_extent_bounds(w as int, h as int);
    }
    let s = w / 2;
    proof {
        assert(s * (h / 2) <= w * h) by (nonlinear_arith)
            requires
                s == w / 2,
        ;
        assert(((h / 2 + h % 2) - 1) * s <= w * h) by (nonlinear_arith)
            requires
                s == w / 2,
                h >= 1,
        ;
    }
    w * h + s * (h / 2) + ((h / 2 + h % 2) - 1) * s + (w / 2 + w % 2)
}

/// Where both sizes are even, the writes fill exactly the I420 frame.
pub proof fn lemma_even_write_extent(w: int, h: int)
    requires
        w % 2 == 0,
        h % 2 == 0,
        w >= 0,
        h >= 0,
    ensures
        write_extent(w, h) == w * h + 2 * ((w / 2) * (h / 2)),
{
    if w != 0 && h != 0 {
        assert(((h + 1) / 2 - 1) * (w / 2) + (w + 1) / 2 == (w / 2) * (h / 2)) by (nonlinear_arith)
            requires
                w % 2 == 0,
                h % 2 == 0,
                w > 0,
                h > 0,
        ;
    } else {
        assert(w * h == 0 && (w / 2) * (h / 2) == 0) by (nonlinear_arith)
            requires
                w == 0 || h == 0,
        ;
    }
}

/// The writes stay within three bytes per pixel, and cover the Y plane.
pub proof fn lemma_write_extent_bounds(w: int, h: int)
    requires
        w >= 0,
        h >= 0,
    ensures
        write_extent(w, h) <= 3 * (w * h),
        w * h <= write_extent(w, h),
        w * h <= v_plane_offset(w, h),
        w > 0 && h > 0 ==> v_plane_offset(w, h) <= write_extent(w, h) - chroma_cols(w)
            - (chroma_rows(h) - 1) * chroma_stride(w),
{
    assert(0 <= (w / 2) * (h / 2)) by (nonlinear_arith)
        requires
            w >= 0,
            h >= 0,
    ;
    if w != 0 && h != 0 {
        let s = w / 2;
        let r = (h + 1) / 2;
        let c = (w + 1) / 2;
        assert(s * (h / 2) + (r - 1) * s + c <= 2 * (w * h)) by (nonlinear_arith)
            requires
                s == w / 2,
                r == (h + 1) / 2,
                c == (w + 1) / 2,
                w > 0,
                h > 0,
        ;
    } else {
        assert(w * h == 0) by (nonlinear_arith)
            requires
                w == 0 || h == 0,
        ;
    }
}


/// At even sizes the chroma writes end exactly at the end of one I420 frame, so a buffer
/// that passes the output check holds them.
pub proof fn lemma_even_sizes_stay_in_frame(width: u32, height: u32)
    requires
        width % 2 == 0,
        height % 2 == 0,
    ensures
        write_extent(width as int, height as int) == PixelFormat::I420.spec_frame_size(
            width,
            height,
        ),
{
    let w = width as int;
    let h = height as int;
    lemma_even_write_extent(w, h);
    assert(w * h + 2 * ((w / 2) * (h / 2)) == w * h * 3 / 2) by (nonlinear_arith)
        requires
            w % 2 == 0,
            h % 2 == 0,
            w >= 0,
            h >= 0,
    ;
}

/// A conversion may run exactly where the input holds at least three bytes per pixel and
/// the output at least one and a half (rounded down); an input that is too short is
/// reported whatever the output.
pub proof fn lemma_conversion_thresholds(
    format: PixelFormat,
    input_len: int,
    output_len: int,
    width: u32,
    height: u32,
    res: Result<()>,
)
    requires
        format == PixelFormat::Rgb || format == PixelFormat::Bgr,
        conversion_check(format, input_len, output_len, width, height, res),
    ensures
        res is Ok <==> (input_len >= width * height * 3 && output_len >= width * height * 3 / 2),
        input_len < width * height * 3 ==> (res matches Err(Error::InvalidArgument(m))
            && m@ == short_input_message()),
{
    crate::formats::lemma_frame_size_per_pixel(format, width, height);
    crate::formats::lemma_frame_size_per_pixel(PixelFormat::I420, width, height);
}

} // verus!
