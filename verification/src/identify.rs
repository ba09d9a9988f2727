//! Classification of a decoded disc header as one of the supported
//! revisions: a closed, exact-match dispatch over the raw header
//! fields, with no partial matching and no best-guess fallback.

use vstd::prelude::*;

use crate::errors::IoError;
use crate::header::{read_header, DiscHeader, DISC_ID_OFFSET, HEADER_REGION_LEN, VERSION_OFFSET};
use crate::revision::{spec_version_str, version_to_str, Revision};

verus! {

/// The game identifier of the NTSC-U and NTSC-K discs: the bytes of
/// `GM8E01` in ASCII.
pub open spec fn spec_id_gm8e01() -> Seq<u8> {
    seq![71u8, 77u8, 56u8, 69u8, 48u8, 49u8]
}

/// The game identifier of the NTSC-J disc: the bytes of `GM8J01` in
/// ASCII.
pub open spec fn spec_id_gm8j01() -> Seq<u8> {
    seq![71u8, 77u8, 56u8, 74u8, 48u8, 49u8]
}

/// The game identifier of the PAL disc: the bytes of `GM8P01` in ASCII.
pub open spec fn spec_id_gm8p01() -> Seq<u8> {
    seq![71u8, 77u8, 56u8, 80u8, 48u8, 49u8]
}

/// The exact dispatch table from raw header fields to a revision. Every
/// tuple outside the six listed rows is unrecognized.
pub open spec fn spec_identify(game_id: Seq<u8>, disc_id: u8, version: u8) -> Option<Revision> {
    if game_id == spec_id_gm8e01() && disc_id == 0 {
        if version == 0 {
            Some(Revision::NtscU0_00)
        } else if version == 1 {
            Some(Revision::NtscU0_01)
        } else if version == 2 {
            Some(Revision::NtscU0_02)
        } else if version == 48 {
            Some(Revision::NtscK)
        } else {
            None
        }
    } else if game_id == spec_id_gm8j01() && disc_id == 0 && version == 0 {
        Some(Revision::NtscJ)
    } else if game_id == spec_id_gm8p01() && disc_id == 0 && version == 0 {
        Some(Revision::Pal)
    } else {
        None
    }
}

/// The dispatch-table row of a revision: the exact raw header fields
/// that identify it.
pub open spec fn spec_row(v: Revision) -> (Seq<u8>, u8, u8) {
    match v {
        Revision::NtscU0_00 => (spec_id_gm8e01(), 0u8, 0u8),
        Revision::NtscU0_01 => (spec_id_gm8e01(), 0u8, 1u8),
        Revision::NtscU0_02 => (spec_id_gm8e01(), 0u8, 2u8),
        Revision::NtscK => (spec_id_gm8e01(), 0u8, 48u8),
        Revision::NtscJ => (spec_id_gm8j01(), 0u8, 0u8),
        Revision::Pal => (spec_id_gm8p01(), 0u8, 0u8),
    }
}

/// Identification is a closed, exact-match classification: a header
/// tuple is recognized as a revision exactly when it is that revision's
/// dispatch-table row, so each of the six rows maps to its revision and
/// every other tuple — near-misses included — maps to nothing.
pub proof fn lemma_identify_exact(game_id: Seq<u8>, disc_id: u8, version: u8)
    ensures
        spec_identify(game_id, disc_id, version) matches Some(v) ==> (game_id, disc_id, version)
            == spec_row(v),
        forall|v: Revision|
            (game_id, disc_id, version) == #[trigger] spec_row(v) ==> spec_identify(
                game_id,
                disc_id,
                version,
            ) == Some(v),
{
    assert(spec_id_gm8e01()[3] == 69u8);
    assert(spec_id_gm8j01()[3] == 74u8);
    assert(spec_id_gm8p01()[3] == 80u8);
}

/// Compares two 6-byte game identifiers.
fn game_id_eq(a: &[u8; 6], b: &[u8; 6]) -> (r: bool)
    ensures
        r == (a@ == b@),
{
    let r = a[0] == b[0] && a[1] == b[1] && a[2] == b[2] && a[3] == b[3] && a[4] == b[4]
        && a[5] == b[5];
    proof {
        if r {
            assert(a@ =~= b@);
        }
    }
    r
}

/// Classifies a decoded header. Returns exactly the dispatch-table row
/// matching the header's raw fields, and `None` for any other tuple —
/// never an error, never a default revision.
pub fn identify(h: &DiscHeader) -> (r: Option<Revision>)
    ensures
        r == spec_identify(h.game_id@, h.disc_id, h.version),
{
    let gm8e01: [u8; 6] = [71u8, 77u8, 56u8, 69u8, 48u8, 49u8];
    let gm8j01: [u8; 6] = [71u8, 77u8, 56u8, 74u8, 48u8, 49u8];
    let gm8p01: [u8; 6] = [71u8, 77u8, 56u8, 80u8, 48u8, 49u8];
    proof {
        assert(gm8e01@ =~= spec_id_gm8e01());
        assert(gm8j01@ =~= spec_id_gm8j01());
        assert(gm8p01@ =~= spec_id_gm8p01());
    }
    if game_id_eq(&h.game_id, &gm8e01) && h.disc_id == 0 {
        if h.version == 0 {
            Some(Revision::NtscU0_00)
        } else if h.version == 1 {
            Some(Revision::NtscU0_01)
        } else if h.version == 2 {
            Some(Revision::NtscU0_02)
        } else if h.version == 48 {
            Some(Revision::NtscK)
        } else {
            None
        }
    } else if game_id_eq(&h.game_id, &gm8j01) && h.disc_id == 0 && h.version == 0 {
        Some(Revision::NtscJ)
    } else if game_id_eq(&h.game_id, &gm8p01) && h.disc_id == 0 && h.version == 0 {
        Some(Revision::Pal)
    } else {
        None
    }
}

/// Identifies the revision of a disc image from the leading bytes of
/// the image. Fails exactly when the bytes do not cover the header
/// region; an unrecognized header is `Ok(None)`, a recognized one is
/// the revision's canonical string identifier.
pub fn identify_image(bytes: &[u8]) -> (r: Result<Option<String>, IoError>)
    ensures
        bytes@.len() < HEADER_REGION_LEN ==> r == Err::<Option<String>, IoError>(
            IoError::TooShort,
        ),
        bytes@.len() >= HEADER_REGION_LEN ==> match spec_identify(
            bytes@.subrange(0, 6),
            bytes@[DISC_ID_OFFSET as int],
            bytes@[VERSION_OFFSET as int],
        ) {
            Some(v) => r matches Ok(s) && s matches Some(name) && name@ == spec_version_str(v),
            None => r matches Ok(s) && s is None,
        },
{
    let header = match read_header(bytes) {
        Ok(h) => h,
        Err(e) => {
            return Err(e);
        },
    };
    match identify(&header) {
        Some(v) => Ok(Some(version_to_str(v))),
        None => Ok(None),
    }
}

} // verus!
