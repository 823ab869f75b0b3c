use screencapturekit::error_handler::{
    RecordingErrorHandler, StreamErrorHandlerWrapper, UnsafeSCStreamError,
};
use screencapturekit::pixel_buffer::CVPixelBuffer;
use screencapturekit::time::{CMTime, CMTIME_FLAGS_VALID};

#[test]
fn the_wrapper_forwards_every_error() {
    let mut wrapper = StreamErrorHandlerWrapper::new(RecordingErrorHandler::new());
    wrapper.handle_error();
    wrapper.handle_error();
    wrapper.handle_error();
    let handler = wrapper.into_inner();
    assert_eq!(handler.error_count(), 3);
}

#[test]
fn pixel_buffer_lock_discipline_is_balanced() {
    let mut buf = CVPixelBuffer::new(true, 2);
    assert!(buf.is_planar());
    assert_eq!(buf.plane_count(), 2);
    assert!(buf.lock());
    assert!(!buf.lock());
    assert!(buf.unlock());
    assert!(!buf.unlock());
    assert!(buf.lock());
}

#[test]
fn cmtime_validity_flag() {
    let t = CMTime::new(600, 600);
    assert!(t.is_valid());
    assert_eq!(t.flags, CMTIME_FLAGS_VALID);
    let zero = CMTime::default();
    assert!(!zero.is_valid());
    assert_eq!(zero.value, 0);
}
