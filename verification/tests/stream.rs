use screencapturekit::audio::{encode_audio_buffer_list, CopiedAudioBuffer};
use screencapturekit::errors::{
    create_cf_error, DispatchError, SampleDecodeError, StreamEventError,
};
use screencapturekit::frame_status::SCFrameStatus;
use screencapturekit::output::{RecordingOutputHandler, SCStreamOutputType};
use screencapturekit::sample::CMSampleBuffer;
use screencapturekit::stream::SCStream;
use screencapturekit::time::CMTime;

#[test]
fn end_to_end_audio_sample() {
    // Register a handler for the audio channel, synthesize a complete sample
    // with timestamp 1000 and one stereo buffer, and dispatch it.
    let mut stream: SCStream<RecordingOutputHandler> = SCStream::new();
    let id = stream.add_output_handler(RecordingOutputHandler::new(), SCStreamOutputType::Audio);

    let bufs = vec![CopiedAudioBuffer { number_channels: 2, data: vec![1, 2, 3, 4] }];
    let (header, arena) = encode_audio_buffer_list(&bufs);

    let r = stream.handle_sample(
        id,
        Some(0),
        CMTime::new(1000, 1),
        &header,
        &arena,
        SCStreamOutputType::Audio,
    );
    assert_eq!(r, Ok(()));

    let handler = stream.handler(id).unwrap();
    assert_eq!(handler.events.len(), 1);
    let (sample, of_type) = &handler.events[0];
    assert_eq!(*of_type, SCStreamOutputType::Audio);
    assert_eq!(sample.frame_status, SCFrameStatus::Complete);
    assert_eq!(sample.presentation_timestamp.value, 1000);
    assert_eq!(sample.audio_buffers.len(), 1);
    assert_eq!(sample.audio_buffers[0].number_channels, 2);
    assert_eq!(sample.audio_buffers[0].data, vec![1, 2, 3, 4]);
}

#[test]
fn a_sample_reaches_only_the_handler_it_names() {
    let mut stream: SCStream<RecordingOutputHandler> = SCStream::new();
    let screen = stream.add_output_handler(RecordingOutputHandler::new(), SCStreamOutputType::Screen);
    let audio = stream.add_output_handler(RecordingOutputHandler::new(), SCStreamOutputType::Audio);

    let (header, arena) = encode_audio_buffer_list(&Vec::new());
    let r = stream.handle_sample(
        screen,
        None,
        CMTime::new(1, 600),
        &header,
        &arena,
        SCStreamOutputType::Screen,
    );
    assert_eq!(r, Ok(()));
    assert_eq!(stream.handler(screen).unwrap().events.len(), 1);
    assert_eq!(stream.handler(audio).unwrap().events.len(), 0);
    // An absent status attachment decodes to the documented default.
    assert_eq!(stream.handler(screen).unwrap().events[0].0.frame_status, SCFrameStatus::Idle);
}

#[test]
fn removing_a_handler_stops_its_deliveries() {
    let mut stream: SCStream<RecordingOutputHandler> = SCStream::new();
    let id = stream.add_output_handler(RecordingOutputHandler::new(), SCStreamOutputType::Screen);
    assert!(stream.remove_output_handler(id, SCStreamOutputType::Screen));
    assert!(!stream.remove_output_handler(id, SCStreamOutputType::Screen));

    let (header, arena) = encode_audio_buffer_list(&Vec::new());
    let r = stream.handle_sample(
        id,
        Some(0),
        CMTime::new(0, 1),
        &header,
        &arena,
        SCStreamOutputType::Screen,
    );
    assert_eq!(
        r,
        Err(StreamEventError::Dispatch(DispatchError::UnknownHandler))
    );
    assert_eq!(stream.handler_count(), 0);
}

#[test]
fn a_decode_failure_reaches_no_handler() {
    let mut stream: SCStream<RecordingOutputHandler> = SCStream::new();
    let id = stream.add_output_handler(RecordingOutputHandler::new(), SCStreamOutputType::Audio);

    let (header, arena) = encode_audio_buffer_list(&Vec::new());
    let r = stream.handle_sample(
        id,
        Some(9),
        CMTime::new(0, 1),
        &header,
        &arena,
        SCStreamOutputType::Audio,
    );
    assert_eq!(
        r,
        Err(StreamEventError::Decode(SampleDecodeError::UnknownFrameStatus))
    );

    let bad_header = vec![0u8; 10];
    let r2 = stream.handle_sample(
        id,
        Some(0),
        CMTime::new(0, 1),
        &bad_header,
        &arena,
        SCStreamOutputType::Audio,
    );
    assert_eq!(
        r2,
        Err(StreamEventError::Decode(SampleDecodeError::WrongHeaderLength))
    );
    assert_eq!(stream.handler(id).unwrap().events.len(), 0);
}

#[test]
fn start_and_stop_map_completion_outcomes() {
    let mut stream: SCStream<RecordingOutputHandler> = SCStream::new();
    assert!(!stream.running());
    assert!(stream.start_capture(None).is_ok());
    assert!(stream.running());

    let e = stream.stop_capture(Some(create_cf_error("StopDomain", 5))).unwrap_err();
    assert_eq!(e.domain, "StopDomain");
    assert_eq!(e.code, 5);
    assert!(stream.running());

    assert!(stream.stop_capture(None).is_ok());
    assert!(!stream.running());

    let e2 = stream.start_capture(Some(create_cf_error("StartDomain", 6))).unwrap_err();
    assert_eq!(e2.domain, "StartDomain");
    assert!(!stream.running());
}

#[test]
fn test_create_empty() {
    CMSampleBuffer::new_empty();
}
