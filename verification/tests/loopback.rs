use pyvirtualcam_core::formats::PixelFormat;
use pyvirtualcam_core::fourcc::{
    FOURCC_24BG, FOURCC_ABGR, FOURCC_J400, FOURCC_NV12, FOURCC_RAW, V4L2_PIX_FMT_GREY,
    V4L2_PIX_FMT_NV12, V4L2_PIX_FMT_YUV420,
};
use pyvirtualcam_core::loopback::{frame_sizes_fit, plan_output, FrameAction, LoopbackState};
use pyvirtualcam_core::Error;

fn devices() -> Vec<String> {
    vec!["/dev/video4".to_string(), "/dev/video5".to_string()]
}

#[test]
fn plans_conversion_of_rgb_to_i420() {
    let plan = plan_output(4, 2, FOURCC_RAW).unwrap();
    assert_eq!(plan.frame_format, PixelFormat::Rgb);
    assert_eq!(plan.native_format, PixelFormat::I420);
    assert_eq!(plan.v4l2_fourcc, V4L2_PIX_FMT_YUV420);
    assert_eq!(plan.out_frame_size, 12);
}

#[test]
fn plans_each_supported_format() {
    let plan = plan_output(4, 2, FOURCC_24BG).unwrap();
    assert_eq!(plan.frame_format, PixelFormat::Bgr);
    assert_eq!(plan.native_format, PixelFormat::I420);
    let plan = plan_output(4, 2, FOURCC_J400).unwrap();
    assert_eq!(plan.native_format, PixelFormat::Gray);
    assert_eq!(plan.v4l2_fourcc, V4L2_PIX_FMT_GREY);
    assert_eq!(plan.out_frame_size, 8);
    let plan = plan_output(4, 2, FOURCC_NV12).unwrap();
    assert_eq!(plan.v4l2_fourcc, V4L2_PIX_FMT_NV12);
}

#[test]
fn refuses_rgba_and_unknown_codes() {
    for code in [FOURCC_ABGR, 0x4750_4a4d, 0x3342_4752] {
        match plan_output(4, 2, code) {
            Err(Error::Runtime(message)) => assert_eq!(message, "Unsupported image format."),
            _ => panic!("expected an unsupported format"),
        }
    }
}

#[test]
fn rgba_is_refused_at_any_size() {
    assert!(frame_sizes_fit(u32::MAX, u32::MAX, FOURCC_ABGR));
    assert!(plan_output(u32::MAX, u32::MAX, FOURCC_ABGR).is_err());
}

#[test]
fn checks_that_frame_sizes_fit() {
    assert!(frame_sizes_fit(640, 480, FOURCC_RAW));
    assert!(frame_sizes_fit(u32::MAX, u32::MAX, FOURCC_RAW) == (usize::MAX as u128 >= 3 * (u32::MAX as u128) * (u32::MAX as u128)));
}

#[test]
fn converts_rgb_and_bgr_frames() {
    let rgb = LoopbackState::new(plan_output(4, 2, FOURCC_RAW).unwrap(), devices());
    assert!(matches!(rgb.prepare_frame(24).unwrap(), FrameAction::ConvertRgb));
    assert!(matches!(rgb.prepare_frame(30).unwrap(), FrameAction::ConvertRgb));
    assert_eq!(rgb.conversion_buffer_len(), 12);
    assert_eq!(rgb.out_frame_size(), 12);
    let bgr = LoopbackState::new(plan_output(4, 2, FOURCC_24BG).unwrap(), devices());
    assert!(matches!(bgr.prepare_frame(24).unwrap(), FrameAction::ConvertBgr));
    assert_eq!(bgr.conversion_buffer_len(), 12);
}

#[test]
fn converts_odd_sizes_that_fit_the_frame() {
    let state = LoopbackState::new(plan_output(5, 5, FOURCC_RAW).unwrap(), devices());
    assert!(state.accepts_frame_len(75));
    assert!(matches!(state.prepare_frame(75).unwrap(), FrameAction::ConvertRgb));
    assert_eq!(state.conversion_buffer_len(), 37);
}

#[test]
fn passes_yuv_frames_through() {
    let state = LoopbackState::new(plan_output(4, 2, FOURCC_NV12).unwrap(), devices());
    assert!(matches!(state.prepare_frame(12).unwrap(), FrameAction::WriteFrame));
    assert_eq!(state.conversion_buffer_len(), 0);
}

#[test]
fn rejects_short_frames() {
    let state = LoopbackState::new(plan_output(4, 2, FOURCC_24BG).unwrap(), devices());
    match state.prepare_frame(23) {
        Err(Error::InvalidArgument(message)) => {
            assert_eq!(message, "input frame is smaller than expected")
        }
        _ => panic!("expected an invalid argument"),
    }
    let gray = LoopbackState::new(plan_output(4, 2, FOURCC_J400).unwrap(), devices());
    assert!(gray.prepare_frame(7).is_err());
}

#[test]
fn stopped_camera_writes_nothing() {
    let mut state = LoopbackState::new(plan_output(4, 2, FOURCC_RAW).unwrap(), devices());
    assert!(state.is_running());
    assert!(state.stop());
    assert!(!state.stop());
    assert!(!state.is_running());
    assert!(matches!(state.prepare_frame(0).unwrap(), FrameAction::Skip));
}

#[test]
fn reports_devices_and_native_format() {
    let state = LoopbackState::new(plan_output(4, 2, FOURCC_RAW).unwrap(), devices());
    assert_eq!(state.device(), "/dev/video4, /dev/video5");
    assert_eq!(state.native_format(), PixelFormat::I420);
    assert_eq!(state.native_fourcc(), PixelFormat::I420.fourcc());
    assert_eq!(state.v4l2_fourcc(), V4L2_PIX_FMT_YUV420);
    assert_eq!(state.devices(), &devices());
    assert_eq!(state.plan().width, 4);
    assert_eq!(state.plan().height, 2);
    let single = LoopbackState::new(plan_output(4, 2, FOURCC_RAW).unwrap(), vec!["/dev/video0".to_string()]);
    assert_eq!(single.device(), "/dev/video0");
}

#[test]
fn accepts_converted_frames_whose_writes_fit() {
    let state = LoopbackState::new(plan_output(3, 2, FOURCC_RAW).unwrap(), devices());
    assert!(state.accepts_frame_len(18));
    let state = LoopbackState::new(plan_output(3, 1, FOURCC_RAW).unwrap(), devices());
    assert!(!state.accepts_frame_len(9));
    assert!(state.accepts_frame_len(8));
    let gray = LoopbackState::new(plan_output(3, 3, FOURCC_J400).unwrap(), devices());
    assert!(gray.accepts_frame_len(9));
}
