use vstd::prelude::*;

use crate::player::{Player, PlayerRequest};
use crate::store::{has_id, roster_ok, squad_taken_by_other};

verus! {

/// Updating a record with the squad number it already holds never conflicts: in a valid
/// roster no other record can hold that number.
pub proof fn lemma_update_own_squad_no_conflict(s: Seq<Player>, id: u64, req: PlayerRequest)
    requires
        roster_ok(s),
        exists|i: int|
            0 <= i < s.len() && #[trigger] s[i].id == id && s[i].squad_number == req.squad_number,
    ensures
        !squad_taken_by_other(s, id, req.squad_number),
{
    let i = choose|i: int|
        0 <= i < s.len() && #[trigger] s[i].id == id && s[i].squad_number == req.squad_number;
    assert forall|k: int| 0 <= k < s.len() && #[trigger] s[k].squad_number == req.squad_number
        implies s[k].id == id by {
        if k != i {
            assert(s[k].squad_number != s[i].squad_number);
        }
    }
}

/// Once the record with identifier `id` is removed from a valid roster, no record has `id`:
/// a second deletion of the same identifier reports that nothing was found.
pub proof fn lemma_delete_twice_not_found(s: Seq<Player>, i: int, id: u64)
    requires
        roster_ok(s),
        0 <= i < s.len(),
        s[i].id == id,
    ensures
        !has_id(s.remove(i), id),
{
    let r = s.remove(i);
    assert forall|k: int| 0 <= k < r.len() implies #[trigger] r[k].id != id by {
        if k < i {
            assert(r[k] == s[k]);
        } else {
            assert(r[k] == s[k + 1]);
        }
    }
}

/// Replacing the record at position `i` leaves every other record at its position.
pub proof fn lemma_update_keeps_others(s: Seq<Player>, i: int, p: Player)
    requires
        0 <= i < s.len(),
    ensures
        s.update(i, p).len() == s.len(),
        forall|j: int| 0 <= j < s.len() && j != i ==> #[trigger] s.update(i, p)[j] == s[j],
{
}

/// Removing the record at position `i` keeps the others in their relative order: those
/// before it stay where they were, and those after it move up by one.
pub proof fn lemma_delete_keeps_order(s: Seq<Player>, i: int)
    requires
        0 <= i < s.len(),
    ensures
        s.remove(i).len() == s.len() - 1,
        forall|j: int| 0 <= j < i ==> #[trigger] s.remove(i)[j] == s[j],
        forall|j: int| i <= j < s.len() - 1 ==> #[trigger] s.remove(i)[j] == s[j + 1],
{
}

} // verus!
