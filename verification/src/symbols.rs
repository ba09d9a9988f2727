//! Per-revision resolution of a fixed catalogue of named executable
//! symbols. The address data is an injected read-only table; resolution
//! is a pure function of the table and the revision. A symbol that does
//! not exist in a given revision resolves to an absent value, never to
//! an omitted key and never to an error.

use vstd::prelude::*;

use crate::errors::PatchError;
use crate::revision::{spec_version_of_str, Revision};

verus! {

/// One row of the symbol address table: a symbol name and its address
/// in each supported revision, absent where the symbol does not exist
/// in that revision's executable.
#[derive(Debug)]
pub struct SymbolEntry {
    pub name: String,
    pub addr_0_00: Option<u32>,
    pub addr_0_01: Option<u32>,
    pub addr_0_02: Option<u32>,
    pub addr_jap: Option<u32>,
    pub addr_kor: Option<u32>,
    pub addr_pal: Option<u32>,
}

/// The address a table row gives for a revision.
pub open spec fn spec_addr_of(e: SymbolEntry, v: Revision) -> Option<u32> {
    match v {
        Revision::NtscU0_00 => e.addr_0_00,
        Revision::NtscU0_01 => e.addr_0_01,
        Revision::NtscU0_02 => e.addr_0_02,
        Revision::NtscJ => e.addr_jap,
        Revision::NtscK => e.addr_kor,
        Revision::Pal => e.addr_pal,
    }
}

impl SymbolEntry {
    /// Selects this row's address for the given revision.
    pub fn addr_of(&self, v: Revision) -> (r: Option<u32>)
        ensures
            r == spec_addr_of(*self, v),
    {
        match v {
            Revision::NtscU0_00 => self.addr_0_00,
            Revision::NtscU0_01 => self.addr_0_01,
            Revision::NtscU0_02 => self.addr_0_02,
            Revision::NtscJ => self.addr_jap,
            Revision::NtscK => self.addr_kor,
            Revision::Pal => self.addr_pal,
        }
    }
}

/// A closed, versioned symbol catalogue: the rows of the address table,
/// in catalogue order.
#[derive(Debug)]
pub struct SymbolTable {
    pub entries: Vec<SymbolEntry>,
}

impl SymbolTable {
    /// Builds a table from the supplied rows.
    pub fn new(entries: Vec<SymbolEntry>) -> (r: SymbolTable)
        ensures
            r.entries == entries,
    {
        SymbolTable { entries }
    }

    /// Resolves every symbol of the catalogue for one revision. The
    /// result has exactly one pair per catalogue row, in catalogue
    /// order, pairing the row's name with the row's address for the
    /// revision — so the key set always equals the full catalogue,
    /// whatever the revision, with individual values possibly absent.
    pub fn resolve(&self, v: Revision) -> (r: Vec<(String, Option<u32>)>)
        ensures
            r@.len() == self.entries@.len(),
            forall|i: int| #![trigger r@[i]]
                0 <= i < r@.len() ==> r@[i].0@ == self.entries@[i].name@ && r@[i].1
                    == spec_addr_of(self.entries@[i], v),
    {
        let mut out: Vec<(String, Option<u32>)> = Vec::new();
        let mut i: usize = 0;
        while i < self.entries.len()
            invariant
                i <= self.entries@.len(),
                out@.len() == i as int,
                forall|j: int| #![trigger out@[j]]
                    0 <= j < i as int ==> out@[j].0@ == self.entries@[j].name@ && out@[j].1
                        == spec_addr_of(self.entries@[j], v),
            decreases self.entries@.len() - i,
        {
            let entry = &self.entries[i];
            let pair = (entry.name.clone(), entry.addr_of(v));
            let ghost prev = out@;
            out.push(pair);
            proof {
                assert forall|j: int| #![trigger out@[j]]
                    0 <= j <= i as int implies out@[j].0@ == self.entries@[j].name@ && out@[j].1
                        == spec_addr_of(self.entries@[j], v) by {
                    if j < i as int {
                        assert(out@[j] == prev[j]);
                    } else {
                        assert(out@[j] == pair);
                    }
                }
            }
            i = i + 1;
        }
        out
    }

    /// Resolves the catalogue for a revision named by its canonical
    /// string. Fails exactly when the string is outside the closed
    /// canonical set; the failure is a validation error, raised before
    /// any lookup.
    pub fn resolve_for_str(&self, version: &str) -> (r: Result<
        Vec<(String, Option<u32>)>,
        PatchError,
    >)
        ensures
            spec_version_of_str(version@) is None ==> r == Err::<
                Vec<(String, Option<u32>)>,
                PatchError,
            >(PatchError::UnknownRevision),
            spec_version_of_str(version@) matches Some(v) ==> (r matches Ok(m) && m.len()
                == self.entries@.len() && forall|i: int| #![trigger m@[i]]
                0 <= i < m@.len() ==> m@[i].0@ == self.entries@[i].name@ && m@[i].1
                    == spec_addr_of(self.entries@[i], v)),
    {
        match crate::revision::version_from_str(version) {
            None => Err(PatchError::UnknownRevision),
            Some(v) => Ok(self.resolve(v)),
        }
    }
}

/// The fixed catalogue of symbol names that a full address table
/// resolves: state-manager and HUD update routines, player inventory
/// adjustment routines, world-layer activation, the player-freeze
/// routine, and two global object addresses. The catalogue is baked in
/// and not user-extensible; what varies per revision is only whether an
/// address exists for each name.
pub fn catalogue_names() -> (r: Vec<String>)
    ensures
        r@.len() == 11,
        r@[0]@ == "UpdateHintState__13CStateManagerFf"@,
        r@[1]@ == "wstring_l__4rstlFPCw"@,
        r@[2]@ == "DisplayHudMemo__9CSamusHudFRC7wstringRC12SHudMemoInfo"@,
        r@[3]@ == "InitializePowerUp__12CPlayerStateFQ212CPlayerState9EItemTypei"@,
        r@[4]@ == "IncrPickUp__12CPlayerStateFQ212CPlayerState9EItemTypei"@,
        r@[5]@ == "DecrPickUp__12CPlayerStateFQ212CPlayerState9EItemTypei"@,
        r@[6]@ == "g_StateManager"@,
        r@[7]@ == "g_GameState"@,
        r@[8]@ == "StateForWorld__10CGameStateFUi"@,
        r@[9]@ == "SetLayerActive__16CWorldLayerStateFiib"@,
        r@[10]@ == "Freeze__7CPlayerFR13CStateManagerUiUsUi"@,
{
    let mut names: Vec<String> = Vec::new();
    names.push("UpdateHintState__13CStateManagerFf".to_owned());
    names.push("wstring_l__4rstlFPCw".to_owned());
    names.push("DisplayHudMemo__9CSamusHudFRC7wstringRC12SHudMemoInfo".to_owned());
    names.push("InitializePowerUp__12CPlayerStateFQ212CPlayerState9EItemTypei".to_owned());
    names.push("IncrPickUp__12CPlayerStateFQ212CPlayerState9EItemTypei".to_owned());
    names.push("DecrPickUp__12CPlayerStateFQ212CPlayerState9EItemTypei".to_owned());
    names.push("g_StateManager".to_owned());
    names.push("g_GameState".to_owned());
    names.push("StateForWorld__10CGameStateFUi".to_owned());
    names.push("SetLayerActive__16CWorldLayerStateFiib".to_owned());
    names.push("Freeze__7CPlayerFR13CStateManagerUiUsUi".to_owned());
    names
}

} // verus!
