use screencapturekit::errors::{DispatchError, SampleDecodeError};
use screencapturekit::output::{RecordingOutputHandler, SCStreamOutputType, StreamOutputWrapper};
use screencapturekit::registry::HandleRegistry;
use screencapturekit::sample::CMSampleBuffer;

fn empty_sample() -> CMSampleBuffer {
    CMSampleBuffer::new_empty()
}

#[test]
fn register_allocates_distinct_identifiers() {
    let mut reg: HandleRegistry<RecordingOutputHandler> = HandleRegistry::new();
    let a = reg.register(RecordingOutputHandler::new());
    let b = reg.register(RecordingOutputHandler::new());
    let c = reg.register(RecordingOutputHandler::new());
    assert_ne!(a.raw(), b.raw());
    assert_ne!(a.raw(), c.raw());
    assert_ne!(b.raw(), c.raw());
    assert_eq!(reg.len(), 3);
}

#[test]
fn dispatch_invokes_exactly_the_named_handler() {
    let mut reg: HandleRegistry<RecordingOutputHandler> = HandleRegistry::new();
    let first = reg.register(RecordingOutputHandler::new());
    let second = reg.register(RecordingOutputHandler::new());

    let r = reg.dispatch(first, empty_sample(), SCStreamOutputType::Screen);
    assert_eq!(r, Ok(()));

    let first_events = reg.get(first).unwrap().events.len();
    let second_events = reg.get(second).unwrap().events.len();
    assert_eq!(first_events, 1);
    assert_eq!(second_events, 0);

    let r2 = reg.dispatch(second, empty_sample(), SCStreamOutputType::Audio);
    assert_eq!(r2, Ok(()));
    assert_eq!(reg.get(first).unwrap().events.len(), 1);
    assert_eq!(reg.get(second).unwrap().events.len(), 1);
    assert_eq!(reg.get(second).unwrap().events[0].1, SCStreamOutputType::Audio);
}

#[test]
fn dispatch_to_unknown_identifier_reports_and_changes_nothing() {
    let mut reg: HandleRegistry<RecordingOutputHandler> = HandleRegistry::new();
    let live = reg.register(RecordingOutputHandler::new());
    let dead = reg.register(RecordingOutputHandler::new());
    reg.unregister(dead);

    let r = reg.dispatch(dead, empty_sample(), SCStreamOutputType::Screen);
    assert_eq!(r, Err(DispatchError::UnknownHandler));
    assert_eq!(reg.len(), 1);
    assert_eq!(reg.get(live).unwrap().events.len(), 0);
}

#[test]
fn unregistered_handler_is_never_invoked_again() {
    let mut reg: HandleRegistry<RecordingOutputHandler> = HandleRegistry::new();
    let id = reg.register(RecordingOutputHandler::new());
    assert_eq!(reg.dispatch(id, empty_sample(), SCStreamOutputType::Screen), Ok(()));
    reg.unregister(id);
    assert!(reg.get(id).is_none());
    assert_eq!(
        reg.dispatch(id, empty_sample(), SCStreamOutputType::Screen),
        Err(DispatchError::UnknownHandler)
    );
}

#[test]
fn unregister_is_idempotent() {
    let mut reg: HandleRegistry<RecordingOutputHandler> = HandleRegistry::new();
    let id = reg.register(RecordingOutputHandler::new());
    let other = reg.register(RecordingOutputHandler::new());
    reg.unregister(id);
    reg.unregister(id);
    reg.unregister(screencapturekit::registry::OpaqueIdentifier::new(9999));
    assert_eq!(reg.len(), 1);
    assert!(reg.get(other).is_some());
}

#[test]
fn the_output_wrapper_decodes_the_raw_channel_discriminator() {
    let mut wrapper = StreamOutputWrapper::new(RecordingOutputHandler::new());
    assert_eq!(wrapper.did_output_sample_buffer(empty_sample(), 0), Ok(()));
    assert_eq!(wrapper.did_output_sample_buffer(empty_sample(), 1), Ok(()));
    assert_eq!(
        wrapper.did_output_sample_buffer(empty_sample(), 2),
        Err(SampleDecodeError::UnknownOutputType)
    );
    let handler = wrapper.into_inner();
    assert_eq!(handler.events.len(), 2);
    assert_eq!(handler.events[0].1, SCStreamOutputType::Screen);
    assert_eq!(handler.events[1].1, SCStreamOutputType::Audio);
}

#[test]
fn channel_names_read_as_expected() {
    assert_eq!(SCStreamOutputType::Screen.name(), "Screen");
    assert_eq!(SCStreamOutputType::Audio.name(), "Audio");
    assert_eq!(SCStreamOutputType::from_raw(0), Some(SCStreamOutputType::Screen));
    assert_eq!(SCStreamOutputType::from_raw(1), Some(SCStreamOutputType::Audio));
    assert_eq!(SCStreamOutputType::from_raw(7), None);
    assert_eq!(SCStreamOutputType::Audio.raw(), 1);
}

#[test]
fn mixed_operations_in_randomized_order_keep_the_registry_consistent() {
    // A deterministic pseudo-random interleaving of register, dispatch and
    // unregister, mirrored against a plain model: every dispatch lands on
    // exactly the handler it names, and on nothing after its removal.
    let mut reg: HandleRegistry<RecordingOutputHandler> = HandleRegistry::new();
    let mut live: Vec<(u64, usize)> = Vec::new(); // (raw id, expected event count)
    let mut seed: u64 = 0x2545_f491_4f6c_dd1d;
    let mut step = || {
        seed = seed.wrapping_mul(6364136223846793005).wrapping_add(1442695040888963407);
        (seed >> 33) as usize
    };
    for _ in 0..200 {
        match step() % 4 {
            0 => {
                let id = reg.register(RecordingOutputHandler::new());
                live.push((id.raw(), 0));
            }
            1 | 2 if !live.is_empty() => {
                let pick = step() % live.len();
                let (raw, count) = live[pick];
                let id = screencapturekit::registry::OpaqueIdentifier::new(raw);
                assert_eq!(reg.dispatch(id, empty_sample(), SCStreamOutputType::Audio), Ok(()));
                live[pick].1 = count + 1;
            }
            3 if !live.is_empty() => {
                let pick = step() % live.len();
                let (raw, count) = live.remove(pick);
                let id = screencapturekit::registry::OpaqueIdentifier::new(raw);
                assert_eq!(reg.get(id).unwrap().events.len(), count);
                reg.unregister(id);
                assert_eq!(
                    reg.dispatch(id, empty_sample(), SCStreamOutputType::Audio),
                    Err(DispatchError::UnknownHandler)
                );
            }
            _ => {}
        }
        assert_eq!(reg.len(), live.len());
    }
    for (raw, count) in live {
        let id = screencapturekit::registry::OpaqueIdentifier::new(raw);
        assert_eq!(reg.get(id).unwrap().events.len(), count);
    }
}
