//! The decoded image of one delivered sample.
//!
//! The foreign sample handle must never be read after the callback that
//! delivered it returns; what the library keeps is copied out of it at the
//! boundary: the frame status, the presentation timestamp, and owned copies
//! of the audio payloads.

use vstd::prelude::*;
use crate::audio::{views_of, AudioBufferView, CopiedAudioBuffer};
use crate::frame_status::SCFrameStatus;
use crate::time::CMTime;

verus! {

/// The mathematical image of a sample: what a handler is shown.
pub ghost struct SampleView {
    pub frame_status: SCFrameStatus,
    pub presentation_timestamp: CMTime,
    pub audio_buffers: Seq<AudioBufferView>,
}

/// A delivered sample, reduced to owned, copied metadata and payloads.
pub struct CMSampleBuffer {
    pub frame_status: SCFrameStatus,
    pub presentation_timestamp: CMTime,
    pub audio_buffers: Vec<CopiedAudioBuffer>,
}

impl View for CMSampleBuffer {
    type V = SampleView;

    open spec fn view(&self) -> SampleView {
        SampleView {
            frame_status: self.frame_status,
            presentation_timestamp: self.presentation_timestamp,
            audio_buffers: views_of(self.audio_buffers@),
        }
    }
}

impl CMSampleBuffer {
    /// A sample from its decoded parts.
    pub fn new(
        frame_status: SCFrameStatus,
        presentation_timestamp: CMTime,
        audio_buffers: Vec<CopiedAudioBuffer>,
    ) -> (r: CMSampleBuffer)
        ensures
            r@ == (SampleView {
                frame_status,
                presentation_timestamp,
                audio_buffers: views_of(audio_buffers@),
            }),
    {
        CMSampleBuffer { frame_status, presentation_timestamp, audio_buffers }
    }

    /// A sample carrying nothing: the default status, the zero timestamp and
    /// no audio payloads.
    pub fn new_empty() -> (r: CMSampleBuffer)
        ensures
            r@.frame_status == SCFrameStatus::Idle,
            r@.presentation_timestamp == (CMTime { value: 0, timescale: 0, flags: 0, epoch: 0 }),
            r@.audio_buffers =~= Seq::<AudioBufferView>::empty(),
    {
        CMSampleBuffer {
            frame_status: SCFrameStatus::Idle,
            presentation_timestamp: CMTime { value: 0, timescale: 0, flags: 0, epoch: 0 },
            audio_buffers: Vec::new(),
        }
    }
}

} // verus!
