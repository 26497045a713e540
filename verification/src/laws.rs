//! What holds of every registry, whatever is submitted to it.

use crate::identity::{AccountId, ContentHash};
use crate::registry::{submitted_by, ContractSubmitted, RegistryState};
use vstd::prelude::*;

verus! {

/// A registry is owned by the account that created it.
pub proof fn owner_is_creator(creator: AccountId)
    ensures
        RegistryState::created_by(creator).owner == creator,
{
}

/// No submission changes the owner, and so no run of submissions does.
pub proof fn owner_never_changes(state: RegistryState, log: Seq<ContractSubmitted>)
    ensures
        state.replay(log).owner == state.owner,
    decreases log.len(),
{
    if log.len() > 0 {
        owner_never_changes(state, log.drop_last());
    }
}

/// In a registry that was just created every account reads back the empty
/// list, the owner too.
pub proof fn new_registry_is_empty(creator: AccountId, account: AccountId)
    ensures
        RegistryState::created_by(creator).submissions_of(account) == Seq::<ContentHash>::empty(),
{
}

/// One submission adds the hash at the end of the submitter's list.
pub proof fn submission_is_appended(
    state: RegistryState,
    caller: AccountId,
    contract_hash: ContentHash,
)
    ensures
        state.submit(caller, contract_hash).submissions_of(caller) == state.submissions_of(
            caller,
        ).push(contract_hash),
{
}

/// A submission by one account leaves the list of every other account as it
/// was.
pub proof fn submission_leaves_others_alone(
    state: RegistryState,
    caller: AccountId,
    contract_hash: ContentHash,
    other: AccountId,
)
    requires
        other != caller,
    ensures
        state.submit(caller, contract_hash).submissions_of(other) == state.submissions_of(other),
{
}

/// Hashes that one account submits one after the other are read back in the
/// order of submission, behind what the account had before.
pub proof fn submissions_keep_their_order(
    state: RegistryState,
    caller: AccountId,
    hashes: Seq<ContentHash>,
)
    ensures
        state.submit_all(caller, hashes).submissions_of(caller) == state.submissions_of(caller)
            + hashes,
    decreases hashes.len(),
{
    if hashes.len() == 0 {
        assert(state.submissions_of(caller) + hashes =~= state.submissions_of(caller));
    } else {
        submissions_keep_their_order(state, caller, hashes.drop_last());
        assert(state.submissions_of(caller) + hashes =~= (state.submissions_of(caller)
            + hashes.drop_last()).push(hashes.last()));
    }
}

/// In a new registry, the list of an account that submits `hashes` one after
/// the other is `hashes` itself: every hash once, in order.
pub proof fn new_registry_reads_back_submissions(
    creator: AccountId,
    caller: AccountId,
    hashes: Seq<ContentHash>,
)
    ensures
        RegistryState::created_by(creator).submit_all(caller, hashes).submissions_of(caller)
            == hashes,
{
    let fresh = RegistryState::created_by(creator);
    submissions_keep_their_order(fresh, caller, hashes);
    assert(fresh.submissions_of(caller) + hashes =~= hashes);
}

/// A hash that is submitted twice is stored twice.
pub proof fn duplicates_are_kept(state: RegistryState, caller: AccountId, contract_hash: ContentHash)
    ensures
        state.submit(caller, contract_hash).submit(caller, contract_hash).submissions_of(caller)
            == state.submissions_of(caller).push(contract_hash).push(contract_hash),
        state.submissions_of(caller).len() == 0 ==> state.submit(caller, contract_hash).submit(
            caller,
            contract_hash,
        ).submissions_of(caller) == seq![contract_hash, contract_hash],
{
    assert(Seq::<ContentHash>::empty().push(contract_hash).push(contract_hash)
        =~= seq![contract_hash, contract_hash]);
    if state.submissions_of(caller).len() == 0 {
        assert(state.submissions_of(caller) =~= Seq::<ContentHash>::empty());
    }
}

/// After any run of submissions, by any accounts in any order, an account's
/// list is what it had before followed by exactly the hashes it submitted, in
/// the order in which it submitted them. Nothing is dropped, reordered or
/// merged, and nothing that another account submitted is in it.
pub proof fn list_is_own_history(
    state: RegistryState,
    log: Seq<ContractSubmitted>,
    account: AccountId,
)
    ensures
        state.replay(log).submissions_of(account) == state.submissions_of(account) + submitted_by(
            log,
            account,
        ),
    decreases log.len(),
{
    if log.len() == 0 {
        assert(state.submissions_of(account) + submitted_by(log, account)
            =~= state.submissions_of(account));
    } else {
        list_is_own_history(state, log.drop_last(), account);
        let before = submitted_by(log.drop_last(), account);
        if log.last().submitter == account {
            assert(state.submissions_of(account) + before.push(log.last().contract_hash) =~= (
            state.submissions_of(account) + before).push(log.last().contract_hash));
        }
    }
}

/// An account that never submitted reads back the empty list, whatever
/// others have submitted since the registry was created.
pub proof fn silent_account_reads_empty(
    creator: AccountId,
    log: Seq<ContractSubmitted>,
    account: AccountId,
)
    requires
        forall|i: int| 0 <= i < log.len() ==> log[i].submitter != account,
    ensures
        RegistryState::created_by(creator).replay(log).submissions_of(account) == Seq::<
            ContentHash,
        >::empty(),
{
    let fresh = RegistryState::created_by(creator);
    list_is_own_history(fresh, log, account);
    nothing_from_the_silent(log, account);
    assert(fresh.submissions_of(account) + submitted_by(log, account) =~= Seq::<
        ContentHash,
    >::empty());
}

/// A log in which an account does not occur records no hash for it.
proof fn nothing_from_the_silent(log: Seq<ContractSubmitted>, account: AccountId)
    requires
        forall|i: int| 0 <= i < log.len() ==> log[i].submitter != account,
    ensures
        submitted_by(log, account) == Seq::<ContentHash>::empty(),
    decreases log.len(),
{
    if log.len() > 0 {
        nothing_from_the_silent(log.drop_last(), account);
    }
}

/// A registry stores a list only for accounts that have submitted: a new
/// registry stores none, and a submission never leaves an empty list behind.
pub proof fn only_submitters_are_stored(
    creator: AccountId,
    state: RegistryState,
    caller: AccountId,
    contract_hash: ContentHash,
)
    ensures
        RegistryState::created_by(creator).stores_only_submitters(),
        state.stores_only_submitters() ==> state.submit(
            caller,
            contract_hash,
        ).stores_only_submitters(),
{
}

} // verus!
