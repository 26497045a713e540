use audit_registry::{AccountId, AuditRegistry, ContentHash, ContractSubmitted};

struct Accounts {
    alice: AccountId,
    bob: AccountId,
    charlie: AccountId,
}

fn default_accounts() -> Accounts {
    Accounts {
        alice: AccountId::from([0x01; 32]),
        bob: AccountId::from([0x02; 32]),
        charlie: AccountId::from([0x03; 32]),
    }
}

#[test]
fn new_works() {
    let accounts = default_accounts();
    let contract = AuditRegistry::new(accounts.alice);
    assert_eq!(contract.get_owner(), accounts.alice);
    assert_eq!(contract.get_submissions(accounts.alice).len(), 0);
}

#[test]
fn submit_contract_works() {
    let accounts = default_accounts();
    let mut contract = AuditRegistry::new(accounts.alice);
    let sample_hash = ContentHash::from([0x01; 32]);

    contract.submit_contract(accounts.bob, sample_hash);

    let bob_submissions = contract.get_submissions(accounts.bob);
    assert_eq!(bob_submissions.len(), 1);
    assert_eq!(bob_submissions[0], sample_hash);

    let alice_submissions = contract.get_submissions(accounts.alice);
    assert_eq!(alice_submissions.len(), 0);

    let sample_hash_2 = ContentHash::from([0x02; 32]);
    contract.submit_contract(accounts.bob, sample_hash_2);
    let bob_submissions_updated = contract.get_submissions(accounts.bob);
    assert_eq!(bob_submissions_updated.len(), 2);
    assert_eq!(bob_submissions_updated[1], sample_hash_2);
}

#[test]
fn get_submissions_works() {
    let accounts = default_accounts();
    let mut contract = AuditRegistry::new(accounts.alice);
    let hash1 = ContentHash::from([0x11; 32]);
    let hash2 = ContentHash::from([0x22; 32]);

    contract.submit_contract(accounts.charlie, hash1);
    contract.submit_contract(accounts.charlie, hash2);

    let charlie_submissions = contract.get_submissions(accounts.charlie);
    assert_eq!(charlie_submissions.len(), 2);
    assert!(charlie_submissions.contains(&hash1));
    assert!(charlie_submissions.contains(&hash2));

    let empty_submissions = contract.get_submissions(accounts.alice);
    assert_eq!(empty_submissions.len(), 0);
}

#[test]
fn owner_is_the_creator_and_stays() {
    let accounts = default_accounts();
    let mut contract = AuditRegistry::new(accounts.charlie);
    assert_eq!(contract.get_owner(), accounts.charlie);
    contract.submit_contract(accounts.alice, ContentHash::from([0x07; 32]));
    contract.submit_contract(accounts.charlie, ContentHash::from([0x08; 32]));
    assert_eq!(contract.get_owner(), accounts.charlie);
    assert_ne!(contract.get_owner(), accounts.alice);
}

#[test]
fn unknown_account_reads_empty() {
    let accounts = default_accounts();
    let mut contract = AuditRegistry::new(accounts.alice);
    let stranger = AccountId::from([0xEE; 32]);
    assert_eq!(contract.get_submissions(stranger), Vec::<ContentHash>::new());
    contract.submit_contract(accounts.bob, ContentHash::from([0x01; 32]));
    assert_eq!(contract.get_submissions(stranger), Vec::<ContentHash>::new());
    assert_eq!(contract.get_submissions(accounts.alice), Vec::<ContentHash>::new());
}

#[test]
fn submissions_come_back_in_order() {
    let accounts = default_accounts();
    let mut contract = AuditRegistry::new(accounts.alice);
    let mut expected = Vec::new();
    for i in 0..40u8 {
        let mut bytes = [0u8; 32];
        bytes[0] = 40 - i;
        bytes[31] = i;
        let hash = ContentHash::from(bytes);
        contract.submit_contract(accounts.bob, hash);
        expected.push(hash);
        assert_eq!(contract.get_submissions(accounts.bob), expected);
    }
    assert_eq!(contract.get_submissions(accounts.bob).len(), 40);
}

#[test]
fn accounts_do_not_see_each_other() {
    let accounts = default_accounts();
    let mut contract = AuditRegistry::new(accounts.alice);
    let a1 = ContentHash::from([0xA1; 32]);
    let a2 = ContentHash::from([0xA2; 32]);
    let b1 = ContentHash::from([0xB1; 32]);
    let c1 = ContentHash::from([0xC1; 32]);

    contract.submit_contract(accounts.alice, a1);
    contract.submit_contract(accounts.bob, b1);
    contract.submit_contract(accounts.alice, a2);
    contract.submit_contract(accounts.charlie, c1);

    assert_eq!(contract.get_submissions(accounts.alice), vec![a1, a2]);
    assert_eq!(contract.get_submissions(accounts.bob), vec![b1]);
    assert_eq!(contract.get_submissions(accounts.charlie), vec![c1]);
    assert!(!contract.get_submissions(accounts.bob).contains(&a1));
    assert!(!contract.get_submissions(accounts.alice).contains(&b1));
}

#[test]
fn accounts_that_differ_in_one_byte_are_apart() {
    let mut near = [0x02; 32];
    near[31] = 0x03;
    let bob = AccountId::from([0x02; 32]);
    let almost_bob = AccountId::from(near);
    let mut contract = AuditRegistry::new(bob);
    let hash = ContentHash::from([0x55; 32]);

    contract.submit_contract(bob, hash);

    assert_eq!(contract.get_submissions(bob), vec![hash]);
    assert_eq!(contract.get_submissions(almost_bob).len(), 0);
}

#[test]
fn same_hash_twice_is_stored_twice() {
    let accounts = default_accounts();
    let mut contract = AuditRegistry::new(accounts.alice);
    let hash = ContentHash::from([0x42; 32]);

    contract.submit_contract(accounts.bob, hash);
    contract.submit_contract(accounts.bob, hash);

    assert_eq!(contract.get_submissions(accounts.bob), vec![hash, hash]);
}

#[test]
fn same_hash_from_two_accounts_is_stored_for_each() {
    let accounts = default_accounts();
    let mut contract = AuditRegistry::new(accounts.alice);
    let hash = ContentHash::from([0x42; 32]);

    contract.submit_contract(accounts.bob, hash);
    contract.submit_contract(accounts.charlie, hash);

    assert_eq!(contract.get_submissions(accounts.bob), vec![hash]);
    assert_eq!(contract.get_submissions(accounts.charlie), vec![hash]);
}

#[test]
fn each_submission_reports_caller_and_hash() {
    let accounts = default_accounts();
    let mut contract = AuditRegistry::new(accounts.alice);
    let first = ContentHash::from([0x01; 32]);
    let second = ContentHash::from([0x02; 32]);

    let event = contract.submit_contract(accounts.bob, first);
    assert_eq!(event, ContractSubmitted { submitter: accounts.bob, contract_hash: first });
    assert_eq!(event.submitter, accounts.bob);
    assert_eq!(event.contract_hash, first);

    let event = contract.submit_contract(accounts.alice, second);
    assert_eq!(event.submitter, accounts.alice);
    assert_eq!(event.contract_hash, second);
}

#[test]
fn owner_may_submit_like_anyone() {
    let accounts = default_accounts();
    let mut contract = AuditRegistry::new(accounts.alice);
    let hash = ContentHash::from([0x09; 32]);

    let event = contract.submit_contract(accounts.alice, hash);

    assert_eq!(event.submitter, accounts.alice);
    assert_eq!(contract.get_submissions(accounts.alice), vec![hash]);
    assert_eq!(contract.get_owner(), accounts.alice);
}

#[test]
fn reading_changes_nothing() {
    let accounts = default_accounts();
    let mut contract = AuditRegistry::new(accounts.alice);
    let hash = ContentHash::from([0x10; 32]);
    contract.submit_contract(accounts.bob, hash);

    let mut copy = contract.get_submissions(accounts.bob);
    copy.push(ContentHash::from([0x99; 32]));
    copy.clear();

    assert_eq!(contract.get_submissions(accounts.bob), vec![hash]);
    assert_eq!(contract.get_submissions(accounts.charlie).len(), 0);
    assert_eq!(contract.get_submissions(accounts.bob), vec![hash]);
}

#[test]
fn log_rebuilds_every_list() {
    let accounts = default_accounts();
    let mut contract = AuditRegistry::new(accounts.alice);
    let calls = [
        (accounts.bob, 0x01u8),
        (accounts.charlie, 0x11),
        (accounts.bob, 0x02),
        (accounts.alice, 0x21),
        (accounts.charlie, 0x11),
        (accounts.bob, 0x03),
    ];
    let mut log = Vec::new();
    for (caller, byte) in calls {
        log.push(contract.submit_contract(caller, ContentHash::from([byte; 32])));
    }
    assert_eq!(log.len(), calls.len());

    for account in [accounts.alice, accounts.bob, accounts.charlie] {
        let mut rebuilt = Vec::new();
        for event in &log {
            if event.submitter == account {
                rebuilt.push(event.contract_hash);
            }
        }
        assert_eq!(contract.get_submissions(account), rebuilt);
    }
    assert_eq!(
        contract.get_submissions(accounts.bob),
        vec![
            ContentHash::from([0x01; 32]),
            ContentHash::from([0x02; 32]),
            ContentHash::from([0x03; 32]),
        ]
    );
}
