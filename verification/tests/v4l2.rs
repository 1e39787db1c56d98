use pyvirtualcam_core::v4l2::{
    check_device_name, configure_error, device_in_use_error, device_path, discovered_devices,
    ioc, nul_terminated_bytes, open_failure_error, requested_devices, validate_capability,
    vidioc_querycap, vidioc_s_fmt, DeviceSelection, OpenFailure, OpenStep, IOC_READ,
    V4L2_CAP_VIDEO_OUTPUT, V4L2_LOOPBACK_DRIVER,
};
use pyvirtualcam_core::Error;

fn invalid_argument_message(err: Error) -> String {
    match err {
        Error::InvalidArgument(message) => message,
        _ => panic!("expected an invalid argument"),
    }
}

fn runtime_message(err: Error) -> String {
    match err {
        Error::Runtime(message) => message,
        _ => panic!("expected a runtime error"),
    }
}

#[test]
fn v4l2_ioctl_numbers_match_linux_headers() {
    assert_eq!(vidioc_querycap(), 0x8068_5600);
    assert_eq!(vidioc_s_fmt(), 0xc0d0_5605);
}

#[test]
fn encodes_ioctl_fields() {
    assert_eq!(ioc(IOC_READ, b'V', 0, 104), 0x8068_5600);
    assert_eq!(ioc(0, 0, 0, 0), 0);
    assert_eq!(ioc(3, 0xff, 0xff, 0x3fff), 0xffff_ffff);
}

#[test]
fn trims_nul_terminated_driver_names() {
    let mut driver = [0; 16];
    driver[..V4L2_LOOPBACK_DRIVER.len()].copy_from_slice(&V4L2_LOOPBACK_DRIVER);

    assert_eq!(nul_terminated_bytes(&driver), &V4L2_LOOPBACK_DRIVER[..]);
}

#[test]
fn keeps_names_without_nul() {
    assert_eq!(nul_terminated_bytes(b"abc"), b"abc");
    assert_eq!(nul_terminated_bytes(b"\0abc"), b"");
    assert_eq!(nul_terminated_bytes(b""), b"");
}

#[test]
fn accepts_loopback_output_devices() {
    let mut driver = [0u8; 16];
    driver[..13].copy_from_slice(b"v4l2 loopback");
    assert!(validate_capability(true, V4L2_CAP_VIDEO_OUTPUT, &driver, "/dev/video3").is_ok());
    assert!(validate_capability(true, 0x8000_0002, b"v4l2 loopback", "/dev/video3").is_ok());
}

#[test]
fn rejects_devices_that_are_no_loopback_outputs() {
    let mut driver = [0u8; 16];
    driver[..13].copy_from_slice(b"v4l2 loopback");
    assert_eq!(
        invalid_argument_message(validate_capability(false, 2, &driver, "/dev/video1").unwrap_err()),
        "Device capabilities of /dev/video1 could not be queried."
    );
    assert_eq!(
        invalid_argument_message(validate_capability(true, 1, &driver, "/dev/video1").unwrap_err()),
        "Device /dev/video1 is not a video output device."
    );
    assert_eq!(
        invalid_argument_message(validate_capability(true, 2, b"uvcvideo\0", "/dev/video1").unwrap_err()),
        "Device /dev/video1 is not a V4L2 device."
    );
    assert!(validate_capability(true, 2, b"v4l2 loopbackX", "/dev/video1").is_err());
    assert!(validate_capability(true, 2, b"v4l2 loop", "/dev/video1").is_err());
}

#[test]
fn rejects_device_names_with_nul() {
    assert!(check_device_name("/dev/video0").is_ok());
    assert_eq!(
        invalid_argument_message(check_device_name("/dev/vid\0eo0").unwrap_err()),
        "device name must not contain NUL bytes"
    );
}

#[test]
fn describes_device_errors() {
    assert_eq!(
        invalid_argument_message(device_in_use_error("/dev/video2")),
        "Device /dev/video2 is already in use."
    );
    assert_eq!(
        runtime_message(open_failure_error("/dev/video2", OpenFailure::PermissionDenied)),
        "Could not access /dev/video2 due to missing permissions. Did you add your user to the 'video' group? Run 'usermod -a -G video myusername' and log out and in again."
    );
    assert_eq!(
        invalid_argument_message(open_failure_error("/dev/video2", OpenFailure::NotFound)),
        "Device /dev/video2 does not exist."
    );
    assert_eq!(
        invalid_argument_message(open_failure_error(
            "/dev/video2",
            OpenFailure::Other("Device or resource busy".to_string())
        )),
        "Device /dev/video2 could not be opened: Device or resource busy"
    );
    assert_eq!(
        runtime_message(configure_error("/dev/video2", "Invalid argument")),
        "Virtual camera device /dev/video2 could not be configured: Invalid argument"
    );
}

#[test]
fn names_device_nodes() {
    assert_eq!(device_path(0), "/dev/video0");
    assert_eq!(device_path(7), "/dev/video7");
    assert_eq!(device_path(10), "/dev/video10");
    assert_eq!(device_path(99), "/dev/video99");
}

#[test]
fn device_lists_must_not_be_empty() {
    assert_eq!(
        runtime_message(discovered_devices(Vec::new()).unwrap_err()),
        "No v4l2 loopback device found at /dev/video[0-99]. Did you run 'modprobe v4l2loopback'? See also pyvirtualcam's documentation."
    );
    assert_eq!(
        invalid_argument_message(requested_devices(Vec::new()).unwrap_err()),
        "Device list cannot be empty."
    );
    let names = vec!["/dev/video0".to_string()];
    assert_eq!(discovered_devices(names.clone()).unwrap(), names);
    assert_eq!(requested_devices(names.clone()).unwrap(), names);
}

#[test]
fn auto_detection_skips_unusable_devices_and_keeps_one() {
    let mut selection = DeviceSelection::new(true);
    assert!(matches!(
        selection.on_open_failed(Error::invalid_argument("Device /dev/video0 does not exist.")),
        OpenStep::Next
    ));
    assert!(matches!(
        selection.on_open_failed(Error::runtime("Could not access /dev/video1")),
        OpenStep::Fail(Error::Runtime(_))
    ));
    assert!(!selection.is_done());
    assert!(matches!(selection.on_configured("/dev/video2".to_string()), OpenStep::Done));
    assert!(selection.is_done());
    assert_eq!(selection.finish().unwrap(), vec!["/dev/video2".to_string()]);
}

#[test]
fn named_devices_must_all_open() {
    let mut selection = DeviceSelection::new(false);
    assert!(matches!(
        selection.on_open_failed(Error::invalid_argument("Device /dev/video0 does not exist.")),
        OpenStep::Fail(Error::InvalidArgument(_))
    ));
    assert!(matches!(selection.on_configured("/dev/video1".to_string()), OpenStep::Next));
    assert!(matches!(selection.on_configured("/dev/video3".to_string()), OpenStep::Next));
    assert!(!selection.is_done());
    assert!(matches!(
        selection.on_configure_failed(Error::runtime("could not be configured")),
        OpenStep::Fail(Error::Runtime(_))
    ));
    assert_eq!(
        selection.finish().unwrap(),
        vec!["/dev/video1".to_string(), "/dev/video3".to_string()]
    );
}

#[test]
fn selection_without_devices_fails() {
    assert_eq!(
        runtime_message(DeviceSelection::new(true).finish().unwrap_err()),
        "All v4l2 loopback devices at /dev/video[0-99] are busy. Is another process using them?"
    );
    assert_eq!(
        runtime_message(DeviceSelection::new(false).finish().unwrap_err()),
        "Failed to open any of the requested devices."
    );
}
