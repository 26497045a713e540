//! A keyed store from accounts to submission lists, held in memory.

use crate::identity::{AccountId, ContentHash};
use vstd::prelude::*;

verus! {

/// One account together with the list stored under it.
struct Entry {
    account: AccountId,
    hashes: Vec<ContentHash>,
}

/// A store with one slot per account: `get` reads a slot, `put` fills it.
///
/// Its view is the map from every account that has a slot to the list in it.
/// No account has more than one slot.
pub struct SubmissionStore {
    entries: Vec<Entry>,
}

/// An owned copy of `list`, element for element.
pub fn copy_list(list: &Vec<ContentHash>) -> (copy: Vec<ContentHash>)
    ensures
        copy@ == list@,
{
    let mut copy: Vec<ContentHash> = Vec::new();
    let mut i: usize = 0;
    while i < list.len()
        invariant
            i <= list.len(),
            copy@ == list@.take(i as int),
        decreases list.len() - i,
    {
        copy.push(list[i]);
        i += 1;
    }
    assert(list@.take(list.len() as int) == list@);
    copy
}

impl View for SubmissionStore {
    type V = Map<AccountId, Seq<ContentHash>>;

    closed spec fn view(&self) -> Map<AccountId, Seq<ContentHash>> {
        Map::new(
            |account: AccountId| self.has_slot(account),
            |account: AccountId| self.entries[self.slot_of(account)].hashes@,
        )
    }
}

impl SubmissionStore {
    #[verifier::type_invariant]
    spec fn slots_distinct(self) -> bool {
        forall|i: int, j: int|
            0 <= i < j < self.entries.len() ==> self.entries[i].account
                != self.entries[j].account
    }

    spec fn has_slot(self, account: AccountId) -> bool {
        exists|i: int| 0 <= i < self.entries.len() && #[trigger] self.entries[i].account == account
    }

    spec fn slot_of(self, account: AccountId) -> int {
        choose|i: int| 0 <= i < self.entries.len() && #[trigger] self.entries[i].account == account
    }

    /// Where slots are distinct, an account's slot is the one place that
    /// holds it.
    proof fn slot_is_unique(self, account: AccountId, i: int)
        requires
            self.slots_distinct(),
            0 <= i < self.entries.len(),
            self.entries[i].account == account,
        ensures
            self.slot_of(account) == i,
    {
        let k = self.slot_of(account);
        if k < i {
            assert(self.entries[k].account != self.entries[i].account);
        } else if i < k {
            assert(self.entries[i].account != self.entries[k].account);
        }
    }

    /// A store in which no account has a slot.
    pub fn new() -> (store: SubmissionStore)
        ensures
            store@ == Map::<AccountId, Seq<ContentHash>>::empty(),
    {
        let store = SubmissionStore { entries: Vec::new() };
        assert(store@ =~= Map::<AccountId, Seq<ContentHash>>::empty());
        store
    }

    /// Where the slot of `account` lies, if it has one.
    fn position(&self, account: &AccountId) -> (found: Option<usize>)
        ensures
            match found {
                Some(i) => i < self.entries.len() && self.entries[i as int].account == *account
                    && self.slot_of(*account) == i,
                None => !self.has_slot(*account),
            },
    {
        proof {
            use_type_invariant(self);
        }
        let mut i: usize = 0;
        while i < self.entries.len()
            invariant
                i <= self.entries.len(),
                self.slots_distinct(),
                forall|j: int| 0 <= j < i ==> self.entries[j].account != *account,
            decreases self.entries.len() - i,
        {
            if self.entries[i].account == *account {
                return Some(i);
            }
            i += 1;
        }
        None
    }

    /// The list stored under `account`, or `None` where the account has no
    /// slot. The store is left as it was.
    pub fn get(&self, account: &AccountId) -> (found: Option<Vec<ContentHash>>)
        ensures
            found is Some <==> self@.dom().contains(*account),
            found is Some ==> found->0@ == self@[*account],
    {
        match self.position(account) {
            Some(i) => Some(copy_list(&self.entries[i].hashes)),
            None => None,
        }
    }

    /// Stores `list` under `account`, in place of whatever was stored there.
    /// Every other slot is left as it was.
    pub fn put(&mut self, account: AccountId, list: Vec<ContentHash>)
        ensures
            final(self)@ == old(self)@.insert(account, list@),
    {
        proof {
            use_type_invariant(&*self);
        }
        let slot = self.position(&account);
        let mut entries: Vec<Entry> = Vec::new();
        core::mem::swap(&mut self.entries, &mut entries);
        match slot {
            Some(i) => {
                entries[i].hashes = list;
            },
            None => {
                entries.push(Entry { account, hashes: list });
            },
        }
        core::mem::swap(&mut self.entries, &mut entries);
        proof {
            let before = *old(self);
            let after = *self;
            let wanted = before@.insert(account, list@);
            assert forall|a: AccountId| after@.dom().contains(a) <==> wanted.dom().contains(a) by {
                if before.has_slot(a) {
                    let k = before.slot_of(a);
                    assert(after.entries[k].account == a);
                }
                if a == account {
                    let k = match slot {
                        Some(i) => i as int,
                        None => before.entries.len() as int,
                    };
                    assert(after.entries[k].account == a);
                }
                if after.has_slot(a) && a != account {
                    let k = after.slot_of(a);
                    assert(before.entries[k].account == a);
                }
            }
            assert forall|a: AccountId| after@.dom().contains(a) implies after@[a] == wanted[a] by {
                let k = after.slot_of(a);
                if a != account {
                    assert(before.entries[k].account == a);
                    before.slot_is_unique(a, k);
                } else {
                    let at = match slot {
                        Some(i) => i as int,
                        None => before.entries.len() as int,
                    };
                    assert(after.entries[at].account == a);
                    after.slot_is_unique(a, at);
                }
            }
            assert(after@ =~= wanted);
        }
    }
}

} // verus!
