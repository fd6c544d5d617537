use vstd::prelude::*;

use crate::player::{Player, PlayerRequest, player_of};

verus! {

/// Why a store operation did not apply.
#[derive(PartialEq, Eq, Structural, Clone, Copy, Debug)]
pub enum StoreError {
    /// No record has the requested identifier or squad number.
    NotFound,
    /// Another record already holds the requested squad number.
    Conflict,
}

/// No two records share an identifier.
pub open spec fn ids_unique(s: Seq<Player>) -> bool {
    forall|i: int, j: int|
        0 <= i < s.len() && 0 <= j < s.len() && i != j ==> #[trigger] s[i].id != #[trigger] s[j].id
}

/// No two records share a squad number.
pub open spec fn squads_unique(s: Seq<Player>) -> bool {
    forall|i: int, j: int|
        0 <= i < s.len() && 0 <= j < s.len() && i != j ==> #[trigger] s[i].squad_number
            != #[trigger] s[j].squad_number
}

/// The invariant of a roster: identifiers and squad numbers are both unique.
pub open spec fn roster_ok(s: Seq<Player>) -> bool {
    ids_unique(s) && squads_unique(s)
}

/// Some record has the identifier `id`.
pub open spec fn has_id(s: Seq<Player>, id: u64) -> bool {
    exists|i: int| 0 <= i < s.len() && #[trigger] s[i].id == id
}

/// Some record has the squad number `n`.
pub open spec fn has_squad(s: Seq<Player>, n: u32) -> bool {
    exists|i: int| 0 <= i < s.len() && #[trigger] s[i].squad_number == n
}

/// A record other than the one with identifier `id` holds the squad number `n`.
pub open spec fn squad_taken_by_other(s: Seq<Player>, id: u64, n: u32) -> bool {
    exists|i: int| 0 <= i < s.len() && #[trigger] s[i].squad_number == n && s[i].id != id
}

/// The largest identifier in `s`, or 0 when `s` is empty.
pub open spec fn max_id(s: Seq<Player>) -> nat
    decreases s.len(),
{
    if s.len() == 0 {
        0
    } else {
        let m = max_id(s.drop_last());
        if s.last().id > m {
            s.last().id as nat
        } else {
            m
        }
    }
}

/// Every identifier in `s` is at most `max_id(s)`, and the maximum is reached when `s` is not empty.
pub proof fn lemma_max_id(s: Seq<Player>)
    ensures
        forall|i: int| 0 <= i < s.len() ==> #[trigger] s[i].id <= max_id(s),
        s.len() > 0 ==> exists|i: int| 0 <= i < s.len() && #[trigger] s[i].id == max_id(s),
        max_id(s) <= u64::MAX,
    decreases s.len(),
{
    if s.len() > 0 {
        let t = s.drop_last();
        lemma_max_id(t);
        assert forall|i: int| 0 <= i < s.len() implies #[trigger] s[i].id <= max_id(s) by {
            if i < s.len() - 1 {
                assert(s[i] == t[i]);
            }
        }
        if s.last().id <= max_id(t) && t.len() > 0 {
            let k = choose|k: int| 0 <= k < t.len() && #[trigger] t[k].id == max_id(t);
            assert(s[k] == t[k]);
        } else {
            assert(s[s.len() - 1].id == max_id(s));
        }
    }
}

/// The identifier that a new record receives: one past the largest present, or `None` when
/// the identifier space is used up.
pub fn next_id(records: &Vec<Player>) -> (r: Option<u64>)
    ensures
        max_id(records@) < u64::MAX ==> r == Some((max_id(records@) + 1) as u64),
        max_id(records@) >= u64::MAX ==> r.is_none(),
{
    let mut m: u64 = 0;
    let mut i: usize = 0;
    while i < records.len()
        invariant
            i <= records@.len(),
            m == max_id(records@.subrange(0, i as int)),
        decreases records@.len() - i,
    {
        proof {
            let s = records@.subrange(0, i as int + 1);
            assert(s.drop_last() =~= records@.subrange(0, i as int));
        }
        if records[i].id > m {
            m = records[i].id;
        }
        i = i + 1;
    }
    assert(records@.subrange(0, records@.len() as int) =~= records@);
    if m < u64::MAX {
        Some(m + 1)
    } else {
        None
    }
}

/// The in-memory roster: an ordered collection of player records in which identifiers and
/// squad numbers are unique. Records keep the order in which they were added.
pub struct Store {
    players: Vec<Player>,
}

impl View for Store {
    type V = Seq<Player>;

    closed spec fn view(&self) -> Seq<Player> {
        self.players@
    }
}

impl Store {
    /// The store's invariant.
    pub open spec fn wf(&self) -> bool {
        roster_ok(self@)
    }

    /// An empty store.
    pub fn new() -> (r: Store)
        ensures
            r.wf(),
            r@ == Seq::<Player>::empty(),
    {
        Store { players: Vec::new() }
    }

    /// The position of the record with identifier `id`, if any.
    fn position_of_id(&self, id: u64) -> (r: Option<usize>)
        ensures
            r.is_none() == !has_id(self@, id),
            r matches Some(i) ==> i < self@.len() && self@[i as int].id == id,
    {
        let mut i: usize = 0;
        while i < self.players.len()
            invariant
                i <= self@.len(),
                self@ == self.players@,
                forall|k: int| 0 <= k < i ==> #[trigger] self@[k].id != id,
            decreases self@.len() - i,
        {
            if self.players[i].id == id {
                return Some(i);
            }
            i = i + 1;
        }
        None
    }

    /// The position of the record with squad number `n`, if any.
    fn position_of_squad(&self, n: u32) -> (r: Option<usize>)
        ensures
            r.is_none() == !has_squad(self@, n),
            r matches Some(i) ==> i < self@.len() && self@[i as int].squad_number == n,
    {
        let mut i: usize = 0;
        while i < self.players.len()
            invariant
                i <= self@.len(),
                self@ == self.players@,
                forall|k: int| 0 <= k < i ==> #[trigger] self@[k].squad_number != n,
            decreases self@.len() - i,
        {
            if self.players[i].squad_number == n {
                return Some(i);
            }
            i = i + 1;
        }
        None
    }

    /// A copy of every record, in the store's order.
    pub fn list_all(&self) -> (r: Vec<Player>)
        ensures
            r@ == self@,
    {
        let mut out: Vec<Player> = Vec::new();
        let mut i: usize = 0;
        while i < self.players.len()
            invariant
                i <= self@.len(),
                self@ == self.players@,
                out@ == self@.subrange(0, i as int),
            decreases self@.len() - i,
        {
            out.push(self.players[i].duplicate());
            i = i + 1;
            assert(out@ =~= self@.subrange(0, i as int));
        }
        assert(self@.subrange(0, self@.len() as int) =~= self@);
        out
    }

    /// A copy of the record with identifier `id`, or `NotFound`.
    pub fn get_by_id(&self, id: u64) -> (r: Result<Player, StoreError>)
        ensures
            r.is_ok() == has_id(self@, id),
            r matches Err(e) ==> e == StoreError::NotFound,
            r matches Ok(p) ==> p.id == id && self@.contains(p),
    {
        match self.position_of_id(id) {
            Some(i) => Ok(self.players[i].duplicate()),
            None => Err(StoreError::NotFound),
        }
    }

    /// A copy of the record with squad number `n`, or `NotFound`.
    pub fn get_by_squad_number(&self, n: u32) -> (r: Result<Player, StoreError>)
        ensures
            r.is_ok() == has_squad(self@, n),
            r matches Err(e) ==> e == StoreError::NotFound,
            r matches Ok(p) ==> p.squad_number == n && self@.contains(p),
    {
        match self.position_of_squad(n) {
            Some(i) => Ok(self.players[i].duplicate()),
            None => Err(StoreError::NotFound),
        }
    }

    /// The identifier that the next created record receives.
    pub fn next_id(&self) -> (r: Option<u64>)
        ensures
            max_id(self@) < u64::MAX ==> r == Some((max_id(self@) + 1) as u64),
            max_id(self@) >= u64::MAX ==> r.is_none(),
    {
        next_id(&self.players)
    }
    /// Adds a record for `req` at the end, under the next identifier, and returns a copy of it;
    /// `Conflict`, with the store unchanged, when the squad number is already held.
    pub fn create(&mut self, req: PlayerRequest) -> (r: Result<Player, StoreError>)
        requires
            old(self).wf(),
            max_id(old(self)@) < u64::MAX,
        ensures
            final(self).wf(),
            has_squad(old(self)@, req.squad_number) ==> r == Err::<Player, StoreError>(
                StoreError::Conflict,
            ) && final(self)@ == old(self)@,
            !has_squad(old(self)@, req.squad_number) ==> r == Ok::<Player, StoreError>(
                player_of((max_id(old(self)@) + 1) as u64, req),
            ) && final(self)@ == old(self)@.push(player_of((max_id(old(self)@) + 1) as u64, req)),
            r matches Ok(p) ==> (forall|i: int|
                0 <= i < old(self)@.len() ==> #[trigger] old(self)@[i].id < p.id),
            r matches Ok(p) ==> (old(self)@.len() == 0 ==> p.id == 1),
    {
        if self.position_of_squad(req.squad_number).is_some() {
            return Err(StoreError::Conflict);
        }
        let id = self.next_id().unwrap();
        proof {
            lemma_max_id(self@);
        }
        let p = Player::from_request(id, req);
        let copy = p.duplicate();
        self.players.push(p);
        proof {
            let s = self@;
            assert forall|i: int, j: int|
                0 <= i < s.len() && 0 <= j < s.len() && i != j implies #[trigger] s[i].id
                != #[trigger] s[j].id by {
                if i < s.len() - 1 && j < s.len() - 1 {
                    assert(s[i] == old(self)@[i] && s[j] == old(self)@[j]);
                } else if i < s.len() - 1 {
                    assert(s[i] == old(self)@[i]);
                } else {
                    assert(s[j] == old(self)@[j]);
                }
            }
            assert forall|i: int, j: int|
                0 <= i < s.len() && 0 <= j < s.len() && i != j implies #[trigger] s[i].squad_number
                != #[trigger] s[j].squad_number by {
                if i < s.len() - 1 && j < s.len() - 1 {
                    assert(s[i] == old(self)@[i] && s[j] == old(self)@[j]);
                } else if i < s.len() - 1 {
                    assert(s[i] == old(self)@[i]);
                } else {
                    assert(s[j] == old(self)@[j]);
                }
            }
        }
        Ok(copy)
    }
    /// Replaces every field but the identifier of the record with identifier `id`, in place,
    /// and returns a copy of it. `NotFound` when no record has `id`; `Conflict` when another
    /// record holds the requested squad number. On failure the store is unchanged.
    pub fn update(&mut self, id: u64, req: PlayerRequest) -> (r: Result<Player, StoreError>)
        requires
            old(self).wf(),
        ensures
            final(self).wf(),
            !has_id(old(self)@, id) ==> r == Err::<Player, StoreError>(StoreError::NotFound)
                && final(self)@ == old(self)@,
            has_id(old(self)@, id) && squad_taken_by_other(old(self)@, id, req.squad_number) ==> r
                == Err::<Player, StoreError>(StoreError::Conflict) && final(self)@ == old(self)@,
            has_id(old(self)@, id) && !squad_taken_by_other(old(self)@, id, req.squad_number) ==> r
                == Ok::<Player, StoreError>(player_of(id, req)) && exists|i: int|
                0 <= i < old(self)@.len() && #[trigger] old(self)@[i].id == id && final(self)@
                    == old(self)@.update(i, player_of(id, req)),
    {
        let i = match self.position_of_id(id) {
            Some(i) => i,
            None => {
                return Err(StoreError::NotFound);
            },
        };
        match self.position_of_squad(req.squad_number) {
            Some(j) => {
                if self.players[j].id != id {
                    return Err(StoreError::Conflict);
                }
            },
            None => {},
        }
        proof {
            let s = old(self)@;
            if squad_taken_by_other(s, id, req.squad_number) {
                let k = choose|k: int|
                    0 <= k < s.len() && #[trigger] s[k].squad_number == req.squad_number && s[k].id
                        != id;
            }
        }
        let p = Player::from_request(id, req);
        let copy = p.duplicate();
        self.players.set(i, p);
        proof {
            let s = self@;
            let o = old(self)@;
            assert(s == o.update(i as int, player_of(id, req)));
            assert forall|a: int, b: int|
                0 <= a < s.len() && 0 <= b < s.len() && a != b implies #[trigger] s[a].id
                != #[trigger] s[b].id by {
                if a != i && b != i {
                    assert(s[a] == o[a] && s[b] == o[b]);
                } else if a != i {
                    assert(s[a] == o[a]);
                    assert(o[i as int].id == id);
                } else {
                    assert(s[b] == o[b]);
                    assert(o[i as int].id == id);
                }
            }
            assert forall|a: int, b: int|
                0 <= a < s.len() && 0 <= b < s.len() && a != b implies #[trigger] s[a].squad_number
                != #[trigger] s[b].squad_number by {
                if a != i && b != i {
                    assert(s[a] == o[a] && s[b] == o[b]);
                } else if a != i {
                    assert(s[a] == o[a]);
                    assert(o[a].id != id);
                } else {
                    assert(s[b] == o[b]);
                    assert(o[b].id != id);
                }
            }
        }
        Ok(copy)
    }

    /// Removes the record with identifier `id`, keeping the order of the others; `NotFound`,
    /// with the store unchanged, when there is none.
    pub fn delete(&mut self, id: u64) -> (r: Result<(), StoreError>)
        requires
            old(self).wf(),
        ensures
            final(self).wf(),
            !has_id(old(self)@, id) ==> r == Err::<(), StoreError>(StoreError::NotFound)
                && final(self)@ == old(self)@,
            has_id(old(self)@, id) ==> r == Ok::<(), StoreError>(()) && exists|i: int|
                0 <= i < old(self)@.len() && #[trigger] old(self)@[i].id == id && final(self)@
                    == old(self)@.remove(i),
    {
        match self.position_of_id(id) {
            Some(i) => {
                self.players.remove(i);
                proof {
                    let s = self@;
                    let o = old(self)@;
                    assert forall|a: int| 0 <= a < s.len() implies #[trigger] s[a] == o[if a < i {
                        a
                    } else {
                        a + 1
                    }] by {}
                    assert forall|a: int, b: int|
                        0 <= a < s.len() && 0 <= b < s.len() && a != b implies #[trigger] s[a].id
                        != #[trigger] s[b].id by {
                        assert(s[a] == o[if a < i { a } else { a + 1 }]);
                        assert(s[b] == o[if b < i { b } else { b + 1 }]);
                    }
                    assert forall|a: int, b: int|
                        0 <= a < s.len() && 0 <= b < s.len() && a != b implies #[trigger] s[a].squad_number
                        != #[trigger] s[b].squad_number by {
                        assert(s[a] == o[if a < i { a } else { a + 1 }]);
                        assert(s[b] == o[if b < i { b } else { b + 1 }]);
                    }
                }
                Ok(())
            },
            None => Err(StoreError::NotFound),
        }
    }
    /// The store over `players`, in their order.
    pub(crate) fn from_roster(players: Vec<Player>) -> (r: Store)
        requires
            roster_ok(players@),
        ensures
            r.wf(),
            r@ == players@,
    {
        Store { players }
    }
}

} // verus!
