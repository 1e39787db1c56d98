use pyvirtualcam_core::formats::PixelFormat;
use pyvirtualcam_core::fourcc::{encode_fourcc, FOURCC_ABGR, FOURCC_I420, FOURCC_RAW};
use pyvirtualcam_core::Error;

#[test]
fn calculates_frame_sizes() {
    assert_eq!(PixelFormat::Rgb.frame_size(4, 2), 24);
    assert_eq!(PixelFormat::Bgr.frame_size(4, 2), 24);
    assert_eq!(PixelFormat::Rgba.frame_size(4, 2), 32);
    assert_eq!(PixelFormat::Gray.frame_size(4, 2), 8);
    assert_eq!(PixelFormat::I420.frame_size(4, 2), 12);
    assert_eq!(PixelFormat::Nv12.frame_size(4, 2), 12);
    assert_eq!(PixelFormat::Yuyv.frame_size(4, 2), 16);
    assert_eq!(PixelFormat::Uyvy.frame_size(4, 2), 16);
}

#[test]
fn maps_supported_fourcc_values() {
    let formats = [
        PixelFormat::Rgb,
        PixelFormat::Bgr,
        PixelFormat::Rgba,
        PixelFormat::Gray,
        PixelFormat::I420,
        PixelFormat::Nv12,
        PixelFormat::Yuyv,
        PixelFormat::Uyvy,
    ];

    for format in formats {
        assert_eq!(
            PixelFormat::from_canonical_fourcc(format.fourcc()).unwrap(),
            format
        );
    }
}

#[test]
fn frame_size_rounds_odd_i420_down() {
    assert_eq!(PixelFormat::I420.frame_size(3, 3), 13);
    assert_eq!(PixelFormat::Gray.frame_size(0, 7), 0);
    assert_eq!(PixelFormat::Rgb.frame_size(640, 480), 921_600);
}

#[test]
fn rejects_unknown_fourcc() {
    let err = PixelFormat::from_canonical_fourcc(0x1234_5678).unwrap_err();
    match err {
        Error::Runtime(message) => assert_eq!(message, "Unsupported image format."),
        _ => panic!("expected a runtime error"),
    }
}

#[test]
fn aliases_are_not_formats() {
    assert!(PixelFormat::from_canonical_fourcc(encode_fourcc(b"RGB3")).is_err());
    assert!(PixelFormat::from_canonical_fourcc(encode_fourcc(b"YU12")).is_err());
}

#[test]
fn formats_have_their_codes() {
    assert_eq!(PixelFormat::Rgb.fourcc(), FOURCC_RAW);
    assert_eq!(PixelFormat::Rgba.fourcc(), FOURCC_ABGR);
    assert_eq!(PixelFormat::I420.fourcc(), FOURCC_I420);
}
