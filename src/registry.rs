use vstd::prelude::*;

use crate::error::ProgramError;
use crate::state::EscrowAccount;

verus! {

/// The identity of a party: a payer or a receiver.
pub type Identity = u64;

/// Where a record is kept: the ordered pair (receiver, payer).
pub type PairKey = (Identity, Identity);

/// One escrow record together with the value held in its custody slot.
#[derive(Clone, Copy, Debug, PartialEq, Eq, Structural)]
pub struct Holding {
    /// The persisted state of the record.
    pub account: EscrowAccount,
    /// The value held in custody for this record.
    pub lamports: u64,
    /// The nonce that addresses this record; every later operation must supply it.
    pub bump: u8,
}

/// A stored record and the pair it belongs to.
#[derive(Clone, Copy, Debug)]
struct Entry {
    receiver: Identity,
    payer: Identity,
    holding: Holding,
}

/// The store of active escrow records, at most one per (receiver, payer) pair.
pub struct Registry {
    entries: Vec<Entry>,
    records: Ghost<Map<PairKey, Holding>>,
    reject_zero_amount: bool,
}

impl View for Registry {
    type V = Map<PairKey, Holding>;

    closed spec fn view(&self) -> Map<PairKey, Holding> {
        self.records@
    }
}

spec fn key_of(e: Entry) -> PairKey {
    (e.receiver, e.payer)
}

impl Registry {
    /// Whether this registry refuses deposits of zero.
    pub closed spec fn rejects_zero_amount(&self) -> bool {
        self.reject_zero_amount
    }

    /// The stored entries hold each pair at most once, and hold exactly the
    /// records of the view.
    pub closed spec fn wf(&self) -> bool {
        &&& forall|i: int, j: int|
            0 <= i < self.entries@.len() && 0 <= j < self.entries@.len() && i != j
                ==> key_of(self.entries@[i]) != key_of(self.entries@[j])
        &&& forall|i: int|
            0 <= i < self.entries@.len() ==> {
                &&& #[trigger] self.records@.contains_key(key_of(self.entries@[i]))
                &&& self.records@[key_of(self.entries@[i])] == self.entries@[i].holding
            }
        &&& forall|k: PairKey|
            #[trigger] self.records@.contains_key(k) ==> exists|i: int|
                0 <= i < self.entries@.len() && key_of(self.entries@[i]) == k
    }

    /// An empty registry. With `reject_zero_amount` set it refuses deposits of
    /// zero; otherwise it accepts them.
    pub fn new(reject_zero_amount: bool) -> (r: Registry)
        ensures
            r.wf(),
            r@ == Map::<PairKey, Holding>::empty(),
            r.rejects_zero_amount() == reject_zero_amount,
    {
        Registry { entries: Vec::new(), records: Ghost(Map::empty()), reject_zero_amount }
    }

    /// Whether this registry refuses deposits of zero.
    pub fn reject_zero_amount(&self) -> (r: bool)
        ensures
            r == self.rejects_zero_amount(),
    {
        self.reject_zero_amount
    }

    /// The position of the entry for `(receiver, payer)`, if one is stored.
    fn position(&self, receiver: Identity, payer: Identity) -> (r: Option<usize>)
        requires
            self.wf(),
        ensures
            r is None ==> !self@.contains_key((receiver, payer)),
            r matches Some(i) ==> i < self.entries@.len() && key_of(self.entries@[i as int])
                == (receiver, payer),
    {
        let mut i: usize = 0;
        while i < self.entries.len()
            invariant
                self.wf(),
                i <= self.entries@.len(),
                forall|j: int| 0 <= j < i ==> key_of(self.entries@[j]) != (receiver, payer),
            decreases self.entries@.len() - i,
        {
            if self.entries[i].receiver == receiver && self.entries[i].payer == payer {
                return Some(i);
            }
            i = i + 1;
        }
        None
    }

    /// The record held for `(receiver, payer)`, if any.
    pub fn get(&self, receiver: Identity, payer: Identity) -> (r: Option<Holding>)
        requires
            self.wf(),
        ensures
            r == (if self@.contains_key((receiver, payer)) {
                Some(self@[(receiver, payer)])
            } else {
                None
            }),
    {
        match self.position(receiver, payer) {
            Some(i) => Some(self.entries[i].holding),
            None => None,
        }
    }

    /// Brings a persisted record into the registry, whatever state it holds.
    /// Fails, changing nothing, where the pair already has a record.
    pub fn load(&mut self, receiver: Identity, payer: Identity, holding: Holding) -> (r: Result<
        (),
        ProgramError,
    >)
        requires
            old(self).wf(),
        ensures
            final(self).wf(),
            final(self).rejects_zero_amount() == old(self).rejects_zero_amount(),
            old(self)@.contains_key((receiver, payer)) ==> r == Err::<(), ProgramError>(
                ProgramError::AccountAlreadyInUse,
            ) && *final(self) == *old(self),
            !old(self)@.contains_key((receiver, payer)) ==> r is Ok && final(self)@ == old(
                self,
            )@.insert((receiver, payer), holding),
    {
        if self.position(receiver, payer).is_some() {
            return Err(ProgramError::AccountAlreadyInUse);
        }
        self.insert_new(receiver, payer, holding);
        Ok(())
    }

    /// Creates the record for a pair that has none.
    pub(crate) fn insert_new(&mut self, receiver: Identity, payer: Identity, holding: Holding)
        requires
            old(self).wf(),
            !old(self)@.contains_key((receiver, payer)),
        ensures
            final(self).wf(),
            final(self)@ == old(self)@.insert((receiver, payer), holding),
            final(self).rejects_zero_amount() == old(self).rejects_zero_amount(),
    {
        let ghost old_entries = self.entries@;
        let ghost k = (receiver, payer);
        proof {
            assert forall|i: int| 0 <= i < old_entries.len() implies key_of(old_entries[i]) != k by {
                assert(self.records@.contains_key(key_of(old_entries[i])));
            }
        }
        self.entries.push(Entry { receiver, payer, holding });
        self.records = Ghost(self.records@.insert(k, holding));
        proof {
            assert(key_of(self.entries@[old_entries.len() as int]) == k);
            assert forall|kk: PairKey| #[trigger] self.records@.contains_key(kk) implies exists|i: int|
                0 <= i < self.entries@.len() && key_of(self.entries@[i]) == kk by {
                if kk != k {
                    let w = choose|i: int| 0 <= i < old_entries.len() && key_of(old_entries[i]) == kk;
                    assert(key_of(self.entries@[w]) == kk);
                } else {
                    assert(key_of(self.entries@[old_entries.len() as int]) == kk);
                }
            }
        }
    }

    /// Replaces the record of a pair that has one.
    pub(crate) fn update(&mut self, receiver: Identity, payer: Identity, holding: Holding)
        requires
            old(self).wf(),
            old(self)@.contains_key((receiver, payer)),
        ensures
            final(self).wf(),
            final(self)@ == old(self)@.insert((receiver, payer), holding),
            final(self).rejects_zero_amount() == old(self).rejects_zero_amount(),
    {
        let ghost k = (receiver, payer);
        let ghost old_entries = self.entries@;
        let pos = self.position(receiver, payer);
        let i = pos.unwrap();
        self.entries.set(i, Entry { receiver, payer, holding });
        self.records = Ghost(self.records@.insert(k, holding));
        proof {
            assert forall|kk: PairKey| #[trigger] self.records@.contains_key(kk) implies exists|j: int|
                0 <= j < self.entries@.len() && key_of(self.entries@[j]) == kk by {
                if kk != k {
                    let w = choose|j: int| 0 <= j < old_entries.len() && key_of(old_entries[j]) == kk;
                    assert(key_of(self.entries@[w]) == kk);
                } else {
                    assert(key_of(self.entries@[i as int]) == kk);
                }
            }
        }
    }

    /// Deletes the record of a pair that has one, and returns it.
    pub(crate) fn remove(&mut self, receiver: Identity, payer: Identity) -> (r: Holding)
        requires
            old(self).wf(),
            old(self)@.contains_key((receiver, payer)),
        ensures
            final(self).wf(),
            r == old(self)@[(receiver, payer)],
            final(self)@ == old(self)@.remove((receiver, payer)),
            final(self).rejects_zero_amount() == old(self).rejects_zero_amount(),
    {
        let ghost k = (receiver, payer);
        let ghost old_entries = self.entries@;
        let pos = self.position(receiver, payer);
        let i = pos.unwrap();
        let e = self.entries.remove(i);
        self.records = Ghost(self.records@.remove(k));
        proof {
            assert forall|j: int| 0 <= j < self.entries@.len() implies {
                &&& #[trigger] self.records@.contains_key(key_of(self.entries@[j]))
                &&& self.records@[key_of(self.entries@[j])] == self.entries@[j].holding
            } by {
                if j < i {
                    assert(self.entries@[j] == old_entries[j]);
                } else {
                    assert(self.entries@[j] == old_entries[j + 1]);
                }
            }
            assert forall|kk: PairKey| #[trigger] self.records@.contains_key(kk) implies exists|j: int|
                0 <= j < self.entries@.len() && key_of(self.entries@[j]) == kk by {
                let w = choose|j: int| 0 <= j < old_entries.len() && key_of(old_entries[j]) == kk;
                if w < i {
                    assert(key_of(self.entries@[w]) == kk);
                } else {
                    assert(w != i);
                    assert(key_of(self.entries@[w - 1]) == kk);
                }
            }
        }
        e.holding
    }
}

} // verus!
