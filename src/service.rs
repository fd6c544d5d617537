use vstd::prelude::*;

use crate::player::Player;
use crate::store::{Store, StoreError, ids_unique, roster_ok, squads_unique};

verus! {

/// Why the records loaded at startup cannot make a store.
#[derive(PartialEq, Eq, Structural, Clone, Copy, Debug)]
pub enum LoadError {
    /// Two records share an identifier.
    DuplicateId,
    /// Two records share a squad number.
    DuplicateSquadNumber,
}

/// The greeting served at the root path.
pub fn index() -> (r: &'static str)
    ensures
        r@ == "Sample REST API with Rust and Rocket"@,
{
    "Sample REST API with Rust and Rocket"
}

/// Whether the identifiers of `records` are pairwise distinct.
fn all_ids_distinct(records: &Vec<Player>) -> (r: bool)
    ensures
        r == ids_unique(records@),
{
    let mut i: usize = 0;
    while i < records.len()
        invariant
            i <= records@.len(),
            forall|a: int, b: int|
                0 <= a < i && 0 <= b < i && a != b ==> #[trigger] records@[a].id
                    != #[trigger] records@[b].id,
        decreases records@.len() - i,
    {
        let mut j: usize = 0;
        while j < i
            invariant
                i < records@.len(),
                j <= i,
                forall|b: int| 0 <= b < j ==> #[trigger] records@[b].id != records@[i as int].id,
            decreases i - j,
        {
            if records[j].id == records[i].id {
                return false;
            }
            j = j + 1;
        }
        i = i + 1;
    }
    true
}

/// Whether the squad numbers of `records` are pairwise distinct.
fn all_squads_distinct(records: &Vec<Player>) -> (r: bool)
    ensures
        r == squads_unique(records@),
{
    let mut i: usize = 0;
    while i < records.len()
        invariant
            i <= records@.len(),
            forall|a: int, b: int|
                0 <= a < i && 0 <= b < i && a != b ==> #[trigger] records@[a].squad_number
                    != #[trigger] records@[b].squad_number,
        decreases records@.len() - i,
    {
        let mut j: usize = 0;
        while j < i
            invariant
                i < records@.len(),
                j <= i,
                forall|b: int|
                    0 <= b < j ==> #[trigger] records@[b].squad_number
                        != records@[i as int].squad_number,
            decreases i - j,
        {
            if records[j].squad_number == records[i].squad_number {
                return false;
            }
            j = j + 1;
        }
        i = i + 1;
    }
    true
}

/// Builds the service's store from the records loaded at startup, in their order. A roster
/// with a repeated identifier, or else a repeated squad number, is a fatal load failure.
pub fn rocket(records: Vec<Player>) -> (r: Result<Store, LoadError>)
    ensures
        r.is_ok() == roster_ok(records@),
        r matches Ok(st) ==> st.wf() && st@ == records@,
        !ids_unique(records@) ==> r == Err::<Store, LoadError>(LoadError::DuplicateId),
        ids_unique(records@) && !squads_unique(records@) ==> r == Err::<Store, LoadError>(
            LoadError::DuplicateSquadNumber,
        ),
{
    if !all_ids_distinct(&records) {
        return Err(LoadError::DuplicateId);
    }
    if !all_squads_distinct(&records) {
        return Err(LoadError::DuplicateSquadNumber);
    }
    Ok(Store::from_roster(records))
}

impl StoreError {
    /// The HTTP status code that reports this error.
    pub fn status(&self) -> (r: u16)
        ensures
            *self == StoreError::NotFound ==> r == 404,
            *self == StoreError::Conflict ==> r == 409,
    {
        match self {
            StoreError::NotFound => 404,
            StoreError::Conflict => 409,
        }
    }
}

} // verus!
