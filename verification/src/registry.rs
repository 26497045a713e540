//! The registry: who owns it, and what each account has submitted.

use crate::identity::{AccountId, ContentHash};
use crate::store::SubmissionStore;
use vstd::prelude::*;

verus! {

/// The record of one accepted submission: who submitted, and what.
///
/// `submit_contract` hands back exactly one such record per call, after the
/// registry has taken the submission in. Reading the registry yields none.
#[derive(Clone, Copy, Debug, PartialEq, Eq)]
pub struct ContractSubmitted {
    pub submitter: AccountId,
    pub contract_hash: ContentHash,
}

/// What a registry is, mathematically: its owner, and for every account that
/// has submitted at least once the hashes it submitted, oldest first.
pub struct RegistryState {
    pub owner: AccountId,
    pub submissions: Map<AccountId, Seq<ContentHash>>,
}

impl RegistryState {
    /// The state right after `owner` has created the registry.
    pub open spec fn created_by(owner: AccountId) -> RegistryState {
        RegistryState { owner, submissions: Map::empty() }
    }

    /// The list an account reads back: what is stored under it, and the
    /// empty list where nothing is.
    pub open spec fn submissions_of(self, account: AccountId) -> Seq<ContentHash> {
        if self.submissions.dom().contains(account) {
            self.submissions[account]
        } else {
            Seq::empty()
        }
    }

    /// The state after `caller` has submitted `contract_hash`: the hash
    /// stands at the end of the caller's list, and nothing else has changed.
    pub open spec fn submit(self, caller: AccountId, contract_hash: ContentHash) -> RegistryState {
        RegistryState {
            owner: self.owner,
            submissions: self.submissions.insert(
                caller,
                self.submissions_of(caller).push(contract_hash),
            ),
        }
    }

    /// The state after `caller` has submitted each of `hashes` in turn.
    pub open spec fn submit_all(self, caller: AccountId, hashes: Seq<ContentHash>) -> RegistryState
        decreases hashes.len(),
    {
        if hashes.len() == 0 {
            self
        } else {
            self.submit_all(caller, hashes.drop_last()).submit(caller, hashes.last())
        }
    }

    /// The state after the submissions that `log` records, taken in the
    /// order of the log.
    pub open spec fn replay(self, log: Seq<ContractSubmitted>) -> RegistryState
        decreases log.len(),
    {
        if log.len() == 0 {
            self
        } else {
            self.replay(log.drop_last()).submit(log.last().submitter, log.last().contract_hash)
        }
    }

    /// Only accounts that have submitted are stored: no stored list is empty.
    pub open spec fn stores_only_submitters(self) -> bool {
        forall|account: AccountId| #[trigger]
            self.submissions.dom().contains(account) ==> self.submissions[account].len() > 0
    }
}

/// The hashes that `log` records for `account`, in the order of the log.
pub open spec fn submitted_by(log: Seq<ContractSubmitted>, account: AccountId) -> Seq<ContentHash>
    decreases log.len(),
{
    if log.len() == 0 {
        Seq::empty()
    } else if log.last().submitter == account {
        submitted_by(log.drop_last(), account).push(log.last().contract_hash)
    } else {
        submitted_by(log.drop_last(), account)
    }
}

/// What a lookup stands for: the list that was found, and the empty list
/// where none was. An account without a stored list is no error.
pub open spec fn stored_or_empty(found: Option<Vec<ContentHash>>) -> Seq<ContentHash> {
    match found {
        Some(list) => list@,
        None => Seq::empty(),
    }
}

/// Turns the result of a lookup into the list to hand to the reader.
pub fn submissions_or_empty(found: Option<Vec<ContentHash>>) -> (list: Vec<ContentHash>)
    ensures
        list@ == stored_or_empty(found),
{
    match found {
        Some(list) => list,
        None => Vec::new(),
    }
}

/// Decides what one submission does, given what a lookup of `caller` found.
///
/// The first part of the result is the list to store under `caller` in place
/// of `prior`: the same hashes with `contract_hash` behind them. The second
/// is the one record to publish once that list is stored.
pub fn record_submission(
    caller: AccountId,
    prior: Option<Vec<ContentHash>>,
    contract_hash: ContentHash,
) -> (outcome: (Vec<ContentHash>, ContractSubmitted))
    ensures
        outcome.0@ == stored_or_empty(prior).push(contract_hash),
        outcome.1 == (ContractSubmitted { submitter: caller, contract_hash }),
{
    let mut updated = submissions_or_empty(prior);
    updated.push(contract_hash);
    (updated, ContractSubmitted { submitter: caller, contract_hash })
}

/// An append-only registry of content hashes, one list per account.
pub struct AuditRegistry {
    submissions: SubmissionStore,
    owner: AccountId,
}

impl View for AuditRegistry {
    type V = RegistryState;

    closed spec fn view(&self) -> RegistryState {
        RegistryState { owner: self.owner, submissions: self.submissions@ }
    }
}

impl AuditRegistry {
    /// Creates the registry on behalf of `caller`, who becomes its owner.
    /// No account has submitted anything yet.
    pub fn new(caller: AccountId) -> (registry: AuditRegistry)
        ensures
            registry@ == RegistryState::created_by(caller),
    {
        AuditRegistry { submissions: SubmissionStore::new(), owner: caller }
    }

    /// Appends `contract_hash` to the list of `caller` and reports the
    /// submission.
    ///
    /// Any account may submit, and the same hash may be submitted again: it
    /// is then stored again. The lists of all other accounts and the owner
    /// stay as they were.
    pub fn submit_contract(&mut self, caller: AccountId, contract_hash: ContentHash) -> (event:
        ContractSubmitted)
        ensures
            final(self)@ == old(self)@.submit(caller, contract_hash),
            event == (ContractSubmitted { submitter: caller, contract_hash }),
    {
        let prior = self.submissions.get(&caller);
        let (updated, event) = record_submission(caller, prior, contract_hash);
        self.submissions.put(caller, updated);
        event
    }

    /// The hashes that `user` has submitted, oldest first; empty for an
    /// account that never submitted.
    pub fn get_submissions(&self, user: AccountId) -> (list: Vec<ContentHash>)
        ensures
            list@ == self@.submissions_of(user),
    {
        submissions_or_empty(self.submissions.get(&user))
    }

    /// The account that created the registry.
    pub fn get_owner(&self) -> (owner: AccountId)
        ensures
            owner == self@.owner,
    {
        self.owner
    }
}

} // verus!
