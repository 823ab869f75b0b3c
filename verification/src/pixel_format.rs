//! The closed set of pixel formats a stream can be configured with, and
//! their four-character codes.

use vstd::prelude::*;
use crate::four_char_code::FourCharCode;

verus! {

/// A pixel format for the sample buffers a stream outputs.
#[derive(Copy, Clone, PartialEq, Eq, Structural, Debug)]
pub enum PixelFormat {
    ARGB8888,
    ARGB2101010,
    YCbCr420v,
    YCbCr420f,
}

impl PixelFormat {
    /// The packed four-character code of this format: `BGRA`, `l10r`,
    /// `420v` or `420f`.
    pub open spec fn spec_code(self) -> u32 {
        match self {
            PixelFormat::ARGB8888 => 0x42475241,
            PixelFormat::ARGB2101010 => 0x6c313072,
            PixelFormat::YCbCr420v => 0x34323076,
            PixelFormat::YCbCr420f => 0x34323066,
        }
    }

    /// Which packed codes name a format.
    pub open spec fn spec_from_code(x: u32) -> Option<PixelFormat> {
        if x == 0x42475241 {
            Some(PixelFormat::ARGB8888)
        } else if x == 0x6c313072 {
            Some(PixelFormat::ARGB2101010)
        } else if x == 0x34323076 {
            Some(PixelFormat::YCbCr420v)
        } else if x == 0x34323066 {
            Some(PixelFormat::YCbCr420f)
        } else {
            None
        }
    }

    /// The four-character code of this format.
    pub fn to_four_char_code(self) -> (r: FourCharCode)
        ensures
            r.spec_value() == self.spec_code(),
    {
        match self {
            PixelFormat::ARGB8888 => FourCharCode::from_chars([0x42, 0x47, 0x52, 0x41]),
            PixelFormat::ARGB2101010 => FourCharCode::from_chars([0x6c, 0x31, 0x30, 0x72]),
            PixelFormat::YCbCr420v => FourCharCode::from_chars([0x34, 0x32, 0x30, 0x76]),
            PixelFormat::YCbCr420f => FourCharCode::from_chars([0x34, 0x32, 0x30, 0x66]),
        }
    }

    /// The format named by a four-character code, if any; an unknown code is
    /// rejected rather than guessed at.
    pub fn from_four_char_code(code: FourCharCode) -> (r: Option<PixelFormat>)
        ensures
            r == PixelFormat::spec_from_code(code.spec_value()),
    {
        let x: u32 = code.into_int();
        if x == 0x42475241 {
            Some(PixelFormat::ARGB8888)
        } else if x == 0x6c313072 {
            Some(PixelFormat::ARGB2101010)
        } else if x == 0x34323076 {
            Some(PixelFormat::YCbCr420v)
        } else if x == 0x34323066 {
            Some(PixelFormat::YCbCr420f)
        } else {
            None
        }
    }
}

/// Every format survives the trip through its four-character code, and a
/// code that names a format is the code of that format.
pub proof fn lemma_pixel_format_round_trip(f: PixelFormat, x: u32)
    ensures
        PixelFormat::spec_from_code(f.spec_code()) == Some(f),
        PixelFormat::spec_from_code(x) matches Some(f2) ==> f2.spec_code() == x,
{
}

} // verus!
