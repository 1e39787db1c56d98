use pyvirtualcam_core::registry::DeviceRegistry;

#[test]
fn reserves_each_device_once() {
    let mut registry = DeviceRegistry::new();
    assert!(!registry.contains("/dev/video0"));
    assert!(registry.try_reserve("/dev/video0"));
    assert!(registry.contains("/dev/video0"));
    assert!(!registry.try_reserve("/dev/video0"));
    assert!(registry.try_reserve("/dev/video1"));
}

#[test]
fn released_devices_can_be_reserved_again() {
    let mut registry = DeviceRegistry::new();
    assert!(registry.try_reserve("/dev/video0"));
    assert!(registry.try_reserve("/dev/video1"));
    registry.release("/dev/video0");
    assert!(!registry.contains("/dev/video0"));
    assert!(registry.contains("/dev/video1"));
    assert!(registry.try_reserve("/dev/video0"));
    registry.release("/dev/video9");
    assert!(registry.contains("/dev/video0"));
}

#[test]
fn one_release_frees_a_device_reserved_twice_over() {
    let mut registry = DeviceRegistry::new();
    assert!(registry.try_reserve("/dev/video2"));
    assert!(!registry.try_reserve("/dev/video2"));
    registry.release("/dev/video2");
    assert!(!registry.contains("/dev/video2"));
}
