use screencapturekit::errors::SampleDecodeError;
use screencapturekit::frame_status::{SCFrameStatus, SCStreamFrameInfo};

#[test]
fn every_code_in_range_decodes_to_its_variant() {
    assert_eq!(SCFrameStatus::from_code(0), Ok(SCFrameStatus::Complete));
    assert_eq!(SCFrameStatus::from_code(1), Ok(SCFrameStatus::Idle));
    assert_eq!(SCFrameStatus::from_code(2), Ok(SCFrameStatus::Blank));
    assert_eq!(SCFrameStatus::from_code(3), Ok(SCFrameStatus::Suspended));
    assert_eq!(SCFrameStatus::from_code(4), Ok(SCFrameStatus::Started));
    assert_eq!(SCFrameStatus::from_code(5), Ok(SCFrameStatus::Stopped));
}

#[test]
fn every_variant_survives_the_round_trip() {
    let statuses = [
        SCFrameStatus::Complete,
        SCFrameStatus::Idle,
        SCFrameStatus::Blank,
        SCFrameStatus::Suspended,
        SCFrameStatus::Started,
        SCFrameStatus::Stopped,
    ];
    for s in statuses {
        assert_eq!(SCFrameStatus::from_code(s.code()), Ok(s));
    }
}

#[test]
fn out_of_range_codes_are_decode_errors() {
    assert_eq!(SCFrameStatus::from_code(6), Err(SampleDecodeError::UnknownFrameStatus));
    assert_eq!(SCFrameStatus::from_code(-1), Err(SampleDecodeError::UnknownFrameStatus));
    assert_eq!(SCFrameStatus::from_code(i32::MAX), Err(SampleDecodeError::UnknownFrameStatus));
    assert_eq!(SCFrameStatus::from_code(i32::MIN), Err(SampleDecodeError::UnknownFrameStatus));
}

#[test]
fn absent_attachment_decodes_to_the_default() {
    let info = SCStreamFrameInfo::new();
    assert_eq!(info.status(), Ok(SCFrameStatus::Idle));
}

#[test]
fn present_attachment_decodes_by_value() {
    assert_eq!(SCStreamFrameInfo::from_raw_status(3).status(), Ok(SCFrameStatus::Suspended));
    assert_eq!(SCStreamFrameInfo::from_raw_status(0).status(), Ok(SCFrameStatus::Complete));
    assert_eq!(
        SCStreamFrameInfo::from_raw_status(17).status(),
        Err(SampleDecodeError::UnknownFrameStatus)
    );
}
