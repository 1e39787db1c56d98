//! FourCC codes: four ASCII bytes packed little-endian into a `u32`.

use vstd::prelude::*;

verus! {

pub type FourCc = u32;

/// The FourCC that packs the four bytes `b0 b1 b2 b3`, first byte lowest.
pub open spec fn spec_fourcc_of(b0: u8, b1: u8, b2: u8, b3: u8) -> int {
    b0 + 256 * b1 + 65536 * b2 + 16777216 * b3
}

/// Packs four bytes into a FourCC, the first byte in the lowest bits.
pub fn encode_fourcc(bytes: &[u8; 4]) -> (code: FourCc)
    ensures
        code == spec_fourcc_of(bytes@[0], bytes@[1], bytes@[2], bytes@[3]),
{
    let b0 = bytes[0];
    let b1 = bytes[1];
    let b2 = bytes[2];
    let b3 = bytes[3];
    let code: u32 = b0 as u32 | ((b1 as u32) << 8) | ((b2 as u32) << 16) | ((b3 as u32) << 24);
    assert(b0 as u32 | ((b1 as u32) << 8) | ((b2 as u32) << 16) | ((b3 as u32) << 24)
        == b0 as u32 + 256 * (b1 as u32) + 65536 * (b2 as u32) + 16777216 * (b3 as u32))
        by (bit_vector);
    code
}

/// `raw `: packed 8-bit R, G, B.
pub const FOURCC_RAW: FourCc = 0x2077_6172;
/// `24BG`: packed 8-bit B, G, R.
pub const FOURCC_24BG: FourCc = 0x4742_3432;
/// `ABGR`: packed 8-bit R, G, B, A.
pub const FOURCC_ABGR: FourCc = 0x5247_4241;
/// `J400`: 8-bit grayscale.
pub const FOURCC_J400: FourCc = 0x3030_344a;
/// `I420`: planar Y, then U and V at half resolution.
pub const FOURCC_I420: FourCc = 0x3032_3449;
/// `NV12`: planar Y, then interleaved U/V at half resolution.
pub const FOURCC_NV12: FourCc = 0x3231_564e;
/// `YUY2`: packed Y0 U Y1 V.
pub const FOURCC_YUY2: FourCc = 0x3259_5559;
/// `UYVY`: packed U Y0 V Y1.
pub const FOURCC_UYVY: FourCc = 0x5956_5955;

/// `GREY`: the V4L2 name of 8-bit grayscale.
pub const V4L2_PIX_FMT_GREY: FourCc = 0x5945_5247;
pub const V4L2_PIX_FMT_NV12: FourCc = FOURCC_NV12;
pub const V4L2_PIX_FMT_UYVY: FourCc = FOURCC_UYVY;
/// `YUYV`: the V4L2 name of packed Y0 U Y1 V.
pub const V4L2_PIX_FMT_YUYV: FourCc = 0x5659_5559;
/// `YU12`: the V4L2 name of planar I420.
pub const V4L2_PIX_FMT_YUV420: FourCc = 0x3231_5559;

/// Each named code is the packing of its four-character name.
pub proof fn lemma_named_codes_pack_their_names()
    ensures
        FOURCC_RAW == spec_fourcc_of(0x72, 0x61, 0x77, 0x20),
        FOURCC_24BG == spec_fourcc_of(0x32, 0x34, 0x42, 0x47),
        FOURCC_ABGR == spec_fourcc_of(0x41, 0x42, 0x47, 0x52),
        FOURCC_J400 == spec_fourcc_of(0x4a, 0x34, 0x30, 0x30),
        FOURCC_I420 == spec_fourcc_of(0x49, 0x34, 0x32, 0x30),
        FOURCC_NV12 == spec_fourcc_of(0x4e, 0x56, 0x31, 0x32),
        FOURCC_YUY2 == spec_fourcc_of(0x59, 0x55, 0x59, 0x32),
        FOURCC_UYVY == spec_fourcc_of(0x55, 0x59, 0x56, 0x59),
        V4L2_PIX_FMT_GREY == spec_fourcc_of(0x47, 0x52, 0x45, 0x59),
        V4L2_PIX_FMT_YUYV == spec_fourcc_of(0x59, 0x55, 0x59, 0x56),
        V4L2_PIX_FMT_YUV420 == spec_fourcc_of(0x59, 0x55, 0x31, 0x32),
{
}

} // verus!
