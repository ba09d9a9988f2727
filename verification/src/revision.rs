//! The closed set of supported disc revisions and the canonical
//! string identifiers used to name them externally.

use vstd::prelude::*;

verus! {

/// A supported revision of the game disc. The set is closed: headers or
/// strings that match no member are reported as `None`, never defaulted.
#[derive(Clone, Copy, PartialEq, Eq, Structural, Debug)]
pub enum Revision {
    NtscU0_00,
    NtscU0_01,
    NtscU0_02,
    NtscJ,
    NtscK,
    Pal,
}

/// The canonical string identifier of a revision.
pub open spec fn spec_version_str(v: Revision) -> Seq<char> {
    match v {
        Revision::NtscU0_00 => "0-00"@,
        Revision::NtscU0_01 => "0-01"@,
        Revision::NtscU0_02 => "0-02"@,
        Revision::NtscJ => "jap"@,
        Revision::NtscK => "kor"@,
        Revision::Pal => "pal"@,
    }
}

/// The revision named by a string, if the string is one of the six
/// canonical identifiers; `None` for every other string.
pub open spec fn spec_version_of_str(s: Seq<char>) -> Option<Revision> {
    if s == "0-00"@ {
        Some(Revision::NtscU0_00)
    } else if s == "0-01"@ {
        Some(Revision::NtscU0_01)
    } else if s == "0-02"@ {
        Some(Revision::NtscU0_02)
    } else if s == "kor"@ {
        Some(Revision::NtscK)
    } else if s == "jap"@ {
        Some(Revision::NtscJ)
    } else if s == "pal"@ {
        Some(Revision::Pal)
    } else {
        None
    }
}

/// Parses a canonical revision identifier. Case-sensitive and exact:
/// any string outside the canonical set yields `None`.
pub fn version_from_str(s: &str) -> (r: Option<Revision>)
    ensures
        r == spec_version_of_str(s@),
{
    let owned = s.to_owned();
    if owned == "0-00".to_owned() {
        Some(Revision::NtscU0_00)
    } else if owned == "0-01".to_owned() {
        Some(Revision::NtscU0_01)
    } else if owned == "0-02".to_owned() {
        Some(Revision::NtscU0_02)
    } else if owned == "kor".to_owned() {
        Some(Revision::NtscK)
    } else if owned == "jap".to_owned() {
        Some(Revision::NtscJ)
    } else if owned == "pal".to_owned() {
        Some(Revision::Pal)
    } else {
        None
    }
}

/// Renders a revision as its canonical string identifier.
pub fn version_to_str(v: Revision) -> (r: String)
    ensures
        r@ == spec_version_str(v),
{
    match v {
        Revision::NtscU0_00 => "0-00".to_owned(),
        Revision::NtscU0_01 => "0-01".to_owned(),
        Revision::NtscU0_02 => "0-02".to_owned(),
        Revision::NtscJ => "jap".to_owned(),
        Revision::NtscK => "kor".to_owned(),
        Revision::Pal => "pal".to_owned(),
    }
}

/// The string-to-revision mapping is a bijection over the supported set:
/// parsing the canonical identifier of any revision gives back exactly
/// that revision.
pub proof fn lemma_version_str_round_trip(v: Revision)
    ensures
        spec_version_of_str(spec_version_str(v)) == Some(v),
{
    reveal_strlit("0-00");
    reveal_strlit("0-01");
    reveal_strlit("0-02");
    reveal_strlit("kor");
    reveal_strlit("jap");
    reveal_strlit("pal");
    assert("0-00"@.len() == 4 && "0-01"@.len() == 4 && "0-02"@.len() == 4);
    assert("kor"@.len() == 3 && "jap"@.len() == 3 && "pal"@.len() == 3);
    assert("0-00"@[3] == '0' && "0-01"@[3] == '1' && "0-02"@[3] == '2');
    assert("kor"@[0] == 'k' && "jap"@[0] == 'j' && "pal"@[0] == 'p');
}

/// Parsing is exact: a string maps to a revision only when it is that
/// revision's canonical identifier, and a string that is no revision's
/// canonical identifier maps to `None`.
pub proof fn lemma_version_str_exact(s: Seq<char>)
    ensures
        spec_version_of_str(s) matches Some(v) ==> s == spec_version_str(v),
        (forall|v: Revision| s != spec_version_str(v)) ==> spec_version_of_str(s) is None,
{
    if s == "0-00"@ {
        assert(s == spec_version_str(Revision::NtscU0_00));
    } else if s == "0-01"@ {
        assert(s == spec_version_str(Revision::NtscU0_01));
    } else if s == "0-02"@ {
        assert(s == spec_version_str(Revision::NtscU0_02));
    } else if s == "kor"@ {
        assert(s == spec_version_str(Revision::NtscK));
    } else if s == "jap"@ {
        assert(s == spec_version_str(Revision::NtscJ));
    } else if s == "pal"@ {
        assert(s == spec_version_str(Revision::Pal));
    }
}

} // verus!
