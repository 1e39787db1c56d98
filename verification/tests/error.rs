use pyvirtualcam_core::Error;

#[test]
fn builds_errors_with_their_messages() {
    match Error::invalid_argument("bad") {
        Error::InvalidArgument(message) => assert_eq!(message, "bad"),
        _ => panic!("expected an invalid argument"),
    }
    match Error::runtime("failed") {
        Error::Runtime(message) => assert_eq!(message, "failed"),
        _ => panic!("expected a runtime error"),
    }
    match Error::io("open /dev/video0") {
        Error::Io { context, .. } => assert_eq!(context, "open /dev/video0"),
        _ => panic!("expected an io error"),
    }
}

#[test]
fn describes_errors() {
    assert_eq!(Error::invalid_argument("bad").message(), "bad");
    assert_eq!(Error::runtime("failed").message(), "failed");
    let text = Error::io("writing").message();
    assert!(text.starts_with("writing: "));
}
