use pyvirtualcam_core::fourcc::{
    encode_fourcc, FOURCC_24BG, FOURCC_ABGR, FOURCC_I420, FOURCC_J400, FOURCC_NV12, FOURCC_RAW,
    FOURCC_UYVY, FOURCC_YUY2, V4L2_PIX_FMT_GREY, V4L2_PIX_FMT_YUV420, V4L2_PIX_FMT_YUYV,
};

#[test]
fn encodes_fourcc_like_python() {
    assert_eq!(encode_fourcc(b"I420"), 0x30323449);
    assert_eq!(encode_fourcc(b"raw "), 0x20776172);
}

#[test]
fn named_codes_match_their_names() {
    assert_eq!(encode_fourcc(b"raw "), FOURCC_RAW);
    assert_eq!(encode_fourcc(b"24BG"), FOURCC_24BG);
    assert_eq!(encode_fourcc(b"ABGR"), FOURCC_ABGR);
    assert_eq!(encode_fourcc(b"J400"), FOURCC_J400);
    assert_eq!(encode_fourcc(b"I420"), FOURCC_I420);
    assert_eq!(encode_fourcc(b"NV12"), FOURCC_NV12);
    assert_eq!(encode_fourcc(b"YUY2"), FOURCC_YUY2);
    assert_eq!(encode_fourcc(b"UYVY"), FOURCC_UYVY);
    assert_eq!(encode_fourcc(b"GREY"), V4L2_PIX_FMT_GREY);
    assert_eq!(encode_fourcc(b"YUYV"), V4L2_PIX_FMT_YUYV);
    assert_eq!(encode_fourcc(b"YU12"), V4L2_PIX_FMT_YUV420);
}
