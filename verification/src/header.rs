//! Decoding the fixed-layout header of a GameCube-format disc image.
//!
//! The caller maps or streams at least the leading header region of the
//! image and hands the bytes in; only that region is ever inspected, so
//! an arbitrarily large image never has to fit in memory.

use vstd::prelude::*;

use crate::errors::IoError;

verus! {

/// Length in bytes of the header region that must be present at the
/// start of a disc image before any field can be decoded.
pub const HEADER_REGION_LEN: usize = 0x440;

/// Byte offset of the disc-id field within the header region.
pub const DISC_ID_OFFSET: usize = 6;

/// Byte offset of the version field within the header region.
pub const VERSION_OFFSET: usize = 7;

/// The raw identification fields of a disc image header: the 6-byte
/// game identifier that opens the image, followed by a disc-id byte and
/// a version byte. Immutable once read.
#[derive(Clone, Copy, PartialEq, Eq, Debug)]
pub struct DiscHeader {
    pub game_id: [u8; 6],
    pub disc_id: u8,
    pub version: u8,
}

/// Decodes the identification fields from the leading bytes of a disc
/// image. Succeeds exactly when the supplied bytes cover the whole
/// header region; a shorter image is an I/O error, never a panic.
pub fn read_header(bytes: &[u8]) -> (r: Result<DiscHeader, IoError>)
    ensures
        bytes@.len() < HEADER_REGION_LEN ==> r == Err::<DiscHeader, IoError>(IoError::TooShort),
        bytes@.len() >= HEADER_REGION_LEN ==> (r matches Ok(h)
            && h.game_id@ == bytes@.subrange(0, 6)
            && h.disc_id == bytes@[DISC_ID_OFFSET as int]
            && h.version == bytes@[VERSION_OFFSET as int]),
{
    if bytes.len() < HEADER_REGION_LEN {
        return Err(IoError::TooShort);
    }
    let game_id: [u8; 6] = [bytes[0], bytes[1], bytes[2], bytes[3], bytes[4], bytes[5]];
    proof {
        assert(game_id@ =~= bytes@.subrange(0, 6));
    }
    Ok(DiscHeader { game_id, disc_id: bytes[DISC_ID_OFFSET], version: bytes[VERSION_OFFSET] })
}

} // verus!
