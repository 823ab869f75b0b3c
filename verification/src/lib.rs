//! A verified model of a screen/audio capture binding's callback core.
//!
//! The host operating system's capture framework delivers samples through a
//! foreign, callback-driven runtime. The logic worth proving lives here:
//! the handle registry that routes foreign invocations to typed handlers,
//! the decoder for the fixed-capacity audio buffer-list structure, the
//! frame-status decoder, and the completion bridge that turns asynchronous
//! completion callbacks into ordinary results. The foreign edge itself is
//! not part of this library; it hands the library plain values.

pub mod audio;
pub mod completion;
pub mod error_handler;
pub mod errors;
pub mod four_char_code;
pub mod frame_status;
pub mod output;
pub mod pixel_buffer;
pub mod pixel_format;
pub mod registry;
pub mod sample;
pub mod stream;
pub mod time;
