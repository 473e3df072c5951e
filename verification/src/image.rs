//! Process-image addressing.
//!
//! A process image is a byte buffer standing for physical I/O. A boolean tag
//! lives at a (byte offset, bit index) address; a word tag is a 16-bit value
//! in big-endian byte order, as the field devices represent their analogue
//! channels.

use vstd::prelude::*;

verus! {

/// The boolean tag at (`addr`, `bit`) of an image.
pub open spec fn spec_bit(image: Seq<u8>, addr: int, bit: int) -> bool {
    (image[addr] >> (bit as u8)) & 1u8 == 1u8
}

/// The big-endian word tag at byte offset `addr` of an image.
pub open spec fn spec_word(image: Seq<u8>, addr: int) -> u16 {
    ((image[addr] as int) * 256 + (image[addr + 1] as int)) as u16
}

/// Read the boolean tag at (`addr`, `bit`).
pub fn tag_bit(image: &[u8], addr: usize, bit: usize) -> (r: bool)
    requires
        addr < image@.len(),
        bit < 8,
    ensures
        r == spec_bit(image@, addr as int, bit as int),
{
    (image[addr] >> (bit as u8)) & 1u8 == 1u8
}

/// Read the big-endian word tag at byte offset `addr`.
pub fn tag_word(image: &[u8], addr: usize) -> (r: u16)
    requires
        addr + 1 < image@.len(),
    ensures
        r == spec_word(image@, addr as int),
{
    let hi = image[addr] as u16;
    let lo = image[addr + 1] as u16;
    hi * 256 + lo
}

/// Write the boolean tag at (`addr`, `bit`), leaving every other tag as it
/// was.
pub fn set_bit(image: &mut Vec<u8>, addr: usize, bit: usize, value: bool)
    requires
        addr < old(image)@.len(),
        bit < 8,
    ensures
        final(image)@.len() == old(image)@.len(),
        spec_bit(final(image)@, addr as int, bit as int) == value,
        forall|a: int, b: int|
            0 <= a < old(image)@.len() && 0 <= b < 8 && !(a == addr && b == bit)
                ==> spec_bit(final(image)@, a, b) == spec_bit(old(image)@, a, b),
        forall|a: int|
            0 <= a < old(image)@.len() && a != addr ==> final(image)@[a] == old(image)@[a],
{
    let old_byte = image[addr];
    let b8 = bit as u8;
    let new_byte = if value {
        old_byte | (1u8 << b8)
    } else {
        old_byte & !(1u8 << b8)
    };
    proof {
        if value {
            assert(((old_byte | (1u8 << b8)) >> b8) & 1u8 == 1u8) by (bit_vector)
                requires
                    b8 < 8,
            ;
            assert(forall|c: u8|
                c < 8 && c != b8 ==> ((old_byte | (1u8 << b8)) >> c) & 1u8 == (old_byte >> c)
                    & 1u8) by (bit_vector)
                requires
                    b8 < 8,
            ;
        } else {
            assert(((old_byte & !(1u8 << b8)) >> b8) & 1u8 == 0u8) by (bit_vector)
                requires
                    b8 < 8,
            ;
            assert(forall|c: u8|
                c < 8 && c != b8 ==> ((old_byte & !(1u8 << b8)) >> c) & 1u8 == (old_byte >> c)
                    & 1u8) by (bit_vector)
                requires
                    b8 < 8,
            ;
        }
    }
    image.set(addr, new_byte);
    proof {
        assert forall|a: int, b: int|
            0 <= a < old(image)@.len() && 0 <= b < 8 && !(a == addr && b == bit)
                implies spec_bit(image@, a, b) == spec_bit(old(image)@, a, b) by {
            if a == addr {
                assert((new_byte >> (b as u8)) & 1u8 == (old_byte >> (b as u8)) & 1u8);
            }
        }
    }
}

/// Why a checked tag access was refused.
#[derive(Debug, Clone, Copy, PartialEq, Eq, Structural)]
pub enum ImageError {
    AddressOutOfRange,
    BitOutOfRange,
}

/// The result of a checked boolean tag access with untrusted coordinates.
pub open spec fn spec_tag_boolean(image: Seq<u8>, addr: int, bit: int) -> Result<bool, ImageError> {
    if addr < 0 {
        Err(ImageError::AddressOutOfRange)
    } else if bit < 0 {
        Err(ImageError::BitOutOfRange)
    } else if addr >= image.len() {
        Err(ImageError::AddressOutOfRange)
    } else if bit > 7 {
        Err(ImageError::BitOutOfRange)
    } else {
        Ok(spec_bit(image, addr, bit))
    }
}

/// Checked boolean tag access for remote queries.
pub fn tag_boolean(image: &[u8], addr: i32, bit: i32) -> (r: Result<bool, ImageError>)
    ensures
        r == spec_tag_boolean(image@, addr as int, bit as int),
{
    if addr < 0 {
        return Err(ImageError::AddressOutOfRange);
    }
    if bit < 0 {
        return Err(ImageError::BitOutOfRange);
    }
    let addr = addr as usize;
    let bit = bit as usize;
    if addr >= image.len() {
        return Err(ImageError::AddressOutOfRange);
    }
    if bit > 7 {
        return Err(ImageError::BitOutOfRange);
    }
    Ok(tag_bit(image, addr, bit))
}

/// The result of a checked word tag access with an untrusted offset. The
/// word spans two bytes, so the offset must leave room for both.
pub open spec fn spec_tag_word(image: Seq<u8>, addr: int) -> Result<u16, ImageError> {
    if addr < 0 || addr + 1 >= image.len() {
        Err(ImageError::AddressOutOfRange)
    } else {
        Ok(spec_word(image, addr))
    }
}

/// Checked word tag access for remote queries.
pub fn tag_word_checked(image: &[u8], addr: i32) -> (r: Result<u16, ImageError>)
    ensures
        r == spec_tag_word(image@, addr as int),
{
    if addr < 0 {
        return Err(ImageError::AddressOutOfRange);
    }
    let addr = addr as usize;
    if addr >= image.len() || addr + 1 >= image.len() {
        return Err(ImageError::AddressOutOfRange);
    }
    Ok(tag_word(image, addr))
}

} // verus!
