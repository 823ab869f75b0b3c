//! Four-character codes: 32-bit values that pack four bytes, conventionally
//! ASCII, in big-endian order. The capture framework uses them to tag media
//! formats and pixel formats.

use vstd::prelude::*;

verus! {

/// The integer packed from four bytes in big-endian order.
pub open spec fn four_char_value(c0: u8, c1: u8, c2: u8, c3: u8) -> int {
    0x1000000 * c0 + 0x10000 * c1 + 0x100 * c2 + c3
}

/// The most significant byte of a packed code.
pub open spec fn be_byte_0(x: u32) -> int {
    (x as int) / 0x1000000
}

pub open spec fn be_byte_1(x: u32) -> int {
    ((x as int) / 0x10000) % 0x100
}

pub open spec fn be_byte_2(x: u32) -> int {
    ((x as int) / 0x100) % 0x100
}

/// The least significant byte of a packed code.
pub open spec fn be_byte_3(x: u32) -> int {
    (x as int) % 0x100
}

/// A 32-bit code holding four big-endian bytes.
#[derive(Copy, Clone, PartialEq, Eq, Structural, Hash, Debug, Default)]
pub struct FourCharCode(u32);

/// One lowercase hexadecimal digit.
pub open spec fn spec_hex_digit(d: u8) -> char {
    if d < 10 {
        (48 + d) as char
    } else {
        (87 + d) as char
    }
}

/// How one byte appears in the escaped rendering of a code: printable ASCII
/// stands for itself, the common control and quote characters get two-character
/// escapes, and everything else becomes a hexadecimal escape.
pub open spec fn escape_byte(b: u8) -> Seq<char> {
    if b == 9 {
        seq!['\\', 't']
    } else if b == 13 {
        seq!['\\', 'r']
    } else if b == 10 {
        seq!['\\', 'n']
    } else if b == 92 {
        seq!['\\', '\\']
    } else if b == 39 {
        seq!['\\', '\'']
    } else if b == 34 {
        seq!['\\', '"']
    } else if 0x20 <= b && b <= 0x7e {
        seq![b as char]
    } else {
        seq!['\\', 'x', spec_hex_digit(b / 16), spec_hex_digit(b % 16)]
    }
}

/// The escaped rendering of a whole code, byte by byte.
pub open spec fn escaped_code(x: u32) -> Seq<char> {
    escape_byte(be_byte_0(x) as u8) + escape_byte(be_byte_1(x) as u8)
        + escape_byte(be_byte_2(x) as u8) + escape_byte(be_byte_3(x) as u8)
}

/// Relies on String::push: appends exactly one character to the string.
#[verifier::external_body]
fn push_char(s: &mut String, c: char)
    ensures
        final(s)@ == old(s)@.push(c),
{
    s.push(c)
}

fn hex_digit(d: u8) -> (c: char)
    requires
        d < 16,
    ensures
        c == spec_hex_digit(d),
{
    if d < 10 {
        (48 + d) as char
    } else {
        (87 + d) as char
    }
}

/// Appends the escaped rendering of one byte.
fn escape_byte_into(out: &mut String, b: u8)
    ensures
        final(out)@ == old(out)@ + escape_byte(b),
{
    if b == 9 {
        push_char(out, '\\');
        push_char(out, 't');
    } else if b == 13 {
        push_char(out, '\\');
        push_char(out, 'r');
    } else if b == 10 {
        push_char(out, '\\');
        push_char(out, 'n');
    } else if b == 92 {
        push_char(out, '\\');
        push_char(out, '\\');
    } else if b == 39 {
        push_char(out, '\\');
        push_char(out, '\'');
    } else if b == 34 {
        push_char(out, '\\');
        push_char(out, '"');
    } else if 0x20 <= b && b <= 0x7e {
        push_char(out, b as char);
    } else {
        push_char(out, '\\');
        push_char(out, 'x');
        push_char(out, hex_digit(b / 16));
        push_char(out, hex_digit(b % 16));
    }
    proof {
        assert(out@ =~= old(out)@ + escape_byte(b));
    }
}

impl FourCharCode {
    /// The packed 32-bit value.
    pub closed spec fn spec_value(self) -> u32 {
        self.0
    }

    /// Returns an instance from the integer value.
    pub fn from_int(value: u32) -> (r: Self)
        ensures
            r.spec_value() == value,
    {
        Self(value)
    }

    /// Returns an instance from the 4-character code.
    pub fn from_chars(chars: [u8; 4]) -> (r: Self)
        ensures
            r.spec_value() == four_char_value(chars@[0], chars@[1], chars@[2], chars@[3]),
    {
        let c0: u32 = chars[0] as u32;
        let c1: u32 = chars[1] as u32;
        let c2: u32 = chars[2] as u32;
        let c3: u32 = chars[3] as u32;
        Self(0x1000000 * c0 + 0x10000 * c1 + 0x100 * c2 + c3)
    }

    /// Returns this descriptor's integer value.
    pub fn into_int(self) -> (r: u32)
        ensures
            r == self.spec_value(),
    {
        self.0
    }

    /// Returns this descriptor's 4-character code.
    pub fn into_chars(self) -> (r: [u8; 4])
        ensures
            r@[0] == be_byte_0(self.spec_value()),
            r@[1] == be_byte_1(self.spec_value()),
            r@[2] == be_byte_2(self.spec_value()),
            r@[3] == be_byte_3(self.spec_value()),
            four_char_value(r@[0], r@[1], r@[2], r@[3]) == self.spec_value(),
    {
        let x: u32 = self.0;
        let b0: u8 = ((x >> 24) & 0xff) as u8;
        let b1: u8 = ((x >> 16) & 0xff) as u8;
        let b2: u8 = ((x >> 8) & 0xff) as u8;
        let b3: u8 = (x & 0xff) as u8;
        proof {
            assert((x >> 24) & 0xff == x / 0x1000000 && (x >> 16) & 0xff == (x / 0x10000) % 0x100
                && (x >> 8) & 0xff == (x / 0x100) % 0x100 && x & 0xff == x % 0x100)
                by (bit_vector);
            assert(0x1000000 * ((x >> 24) & 0xff) + 0x10000 * ((x >> 16) & 0xff) + 0x100 * ((x
                >> 8) & 0xff) + (x & 0xff) == x) by (bit_vector);
        }
        [b0, b1, b2, b3]
    }

    /// Returns `true` if all of the characters in `self` are ASCII.
    pub fn is_ascii(&self) -> (r: bool)
        ensures
            r == (be_byte_0(self.spec_value()) < 128 && be_byte_1(self.spec_value()) < 128
                && be_byte_2(self.spec_value()) < 128 && be_byte_3(self.spec_value()) < 128),
    {
        let chars = self.into_chars();
        chars[0] < 128 && chars[1] < 128 && chars[2] < 128 && chars[3] < 128
    }

    /// Returns `true` if all of the characters in `self` are ASCII graphic
    /// characters: U+0021 '!' ..= U+007E '~'.
    pub fn is_ascii_graphic(&self) -> (r: bool)
        ensures
            r == (0x21 <= be_byte_0(self.spec_value()) <= 0x7e && 0x21 <= be_byte_1(
                self.spec_value(),
            ) <= 0x7e && 0x21 <= be_byte_2(self.spec_value()) <= 0x7e && 0x21 <= be_byte_3(
                self.spec_value(),
            ) <= 0x7e),
    {
        let chars = self.into_chars();
        0x21 <= chars[0] && chars[0] <= 0x7e && 0x21 <= chars[1] && chars[1] <= 0x7e && 0x21
            <= chars[2] && chars[2] <= 0x7e && 0x21 <= chars[3] && chars[3] <= 0x7e
    }

    /// The code as an escaped ASCII string.
    pub fn format(&self) -> (r: String)
        ensures
            r@ == escaped_code(self.spec_value()),
    {
        let chars = self.into_chars();
        let mut out = String::new();
        escape_byte_into(&mut out, chars[0]);
        escape_byte_into(&mut out, chars[1]);
        escape_byte_into(&mut out, chars[2]);
        escape_byte_into(&mut out, chars[3]);
        proof {
            assert(out@ =~= escaped_code(self.spec_value()));
        }
        out
    }
}

} // verus!
