use pallet_grant::hashing::digest;
use pallet_grant::{
    AccountId, Config, CurrencySnapshot, Error, Event, Hashing, Pallet, Pays, Receipt, Requesters,
};

const ALICE: AccountId = [0xA1; 32];
const ALICE_100: [u8; 32] = [
    0xda, 0x18, 0xa6, 0xf5, 0xfd, 0x34, 0x58, 0xb0, 0xdc, 0xc4, 0xdb, 0x33, 0x7b, 0x12, 0xe4, 0x80,
    0x8d, 0xcb, 0x71, 0xe2, 0xc8, 0xd0, 0xf2, 0x12, 0x41, 0x17, 0xc4, 0x26, 0xb4, 0xe0, 0x47, 0x21,
];
const BOB: AccountId = [0xB0; 32];
const CAROL: AccountId = [0xC4; 32];

fn limits() -> Config {
    Config {
        max_username_len: 16,
        max_interests_len: 32,
        max_additional_information_len: 64,
        max_completed_tasks_len: 3,
        hashing: Hashing::BlakeTwo256,
    }
}

fn keccak_limits() -> Config {
    Config { hashing: Hashing::Keccak256, ..limits() }
}

fn seen(free_balance: u128) -> CurrencySnapshot {
    CurrencySnapshot { free_balance, total_issuance: 100_000 }
}

#[test]
fn new_ledger_is_empty() {
    let ledger = Pallet::new(limits());
    assert_eq!(ledger.profile_count(), 0);
    assert_eq!(ledger.config(), limits());
    assert_eq!(ledger.storage_requesters(&ALICE), None);
    assert!(ledger.profiles(&ALICE).is_none());
    assert!(ledger.completed_tasks(&ALICE).is_none());
}

#[test]
fn request_grant_records_snapshot_and_counts() {
    let mut ledger = Pallet::new(limits());
    let outcome = ledger.request_grant(CAROL, ALICE, seen(100));
    assert_eq!(
        outcome,
        Ok(Receipt {
            event: Event::GrantRequested { who: CAROL },
            pays_fee: Pays::No,
            record_id: Some(ALICE_100),
        })
    );
    assert_eq!(
        ledger.storage_requesters(&ALICE),
        Some(Requesters { owner: ALICE, balance: Some(100) })
    );
    assert_eq!(ledger.profile_count(), 1);
    assert_eq!(ledger.storage_requesters(&CAROL), None);
    assert_eq!(ledger.requesters().len(), 1);
}

#[test]
fn request_grant_at_maximum_count_fails() {
    let mut ledger = Pallet::with_profile_count(limits(), u32::MAX);
    let untouched = Pallet::with_profile_count(limits(), u32::MAX);
    let outcome = ledger.request_grant(CAROL, ALICE, seen(100));
    assert_eq!(outcome, Err(Error::ProfileCountOverflow));
    assert_eq!(ledger.storage_requesters(&ALICE), None);
    assert_eq!(ledger.profile_count(), u32::MAX);
    assert_eq!(ledger, untouched);
}

#[test]
fn request_grant_at_maximum_count_keeps_earlier_record() {
    let mut ledger = Pallet::with_profile_count(limits(), u32::MAX - 1);
    assert!(ledger.request_grant(CAROL, ALICE, seen(100)).is_ok());
    assert_eq!(ledger.profile_count(), u32::MAX);
    assert_eq!(ledger.request_grant(CAROL, ALICE, seen(7)), Err(Error::ProfileCountOverflow));
    assert_eq!(
        ledger.storage_requesters(&ALICE),
        Some(Requesters { owner: ALICE, balance: Some(100) })
    );
    assert_eq!(ledger.profile_count(), u32::MAX);
}

#[test]
fn winner_is_emits_event_and_changes_nothing() {
    let ledger = Pallet::new(limits());
    let before = format!("{:?}", ledger);
    let outcome = ledger.winner_is(BOB);
    assert_eq!(
        outcome,
        Ok(Receipt { event: Event::WinnerSelected { who: BOB }, pays_fee: Pays::No, record_id: None })
    );
    assert_eq!(format!("{:?}", ledger), before);
    assert_eq!(ledger, Pallet::new(limits()));
}

#[test]
fn winner_is_leaves_a_used_ledger_alone() {
    let mut ledger = Pallet::new(limits());
    let mut twin = Pallet::new(limits());
    assert!(ledger.request_grant(CAROL, ALICE, seen(5)).is_ok());
    assert!(twin.request_grant(CAROL, ALICE, seen(5)).is_ok());
    assert!(ledger.append_completed_task(ALICE, [9; 32]).is_ok());
    assert!(twin.append_completed_task(ALICE, [9; 32]).is_ok());
    assert!(ledger.winner_is(ALICE).is_ok());
    assert_eq!(ledger, twin);
}

#[test]
fn counter_counts_successful_calls() {
    let mut ledger = Pallet::with_profile_count(limits(), u32::MAX - 2);
    let targets = [ALICE, BOB, CAROL, ALICE];
    let mut successes = 0u32;
    for (i, target) in targets.iter().enumerate() {
        let count_before = ledger.profile_count();
        let record_before = ledger.storage_requesters(target);
        match ledger.request_grant(CAROL, *target, seen(i as u128)) {
            Ok(_) => {
                successes += 1;
                assert_eq!(ledger.profile_count(), count_before + 1);
            }
            Err(error) => {
                assert_eq!(error, Error::ProfileCountOverflow);
                assert_eq!(ledger.profile_count(), count_before);
                assert_eq!(ledger.storage_requesters(target), record_before);
            }
        }
    }
    assert_eq!(successes, 2);
    assert_eq!(ledger.profile_count(), u32::MAX - 2 + successes);
    assert_eq!(ledger.storage_requesters(&CAROL), None);
    assert_eq!(
        ledger.storage_requesters(&ALICE),
        Some(Requesters { owner: ALICE, balance: Some(0) })
    );
}

#[test]
fn counter_starts_at_zero_and_grows_by_one() {
    let mut ledger = Pallet::new(limits());
    for n in 1u32..=5 {
        assert!(ledger.request_grant(ALICE, BOB, seen(1)).is_ok());
        assert_eq!(ledger.profile_count(), n);
    }
}

#[test]
fn latest_request_overwrites_snapshot() {
    let mut ledger = Pallet::new(limits());
    assert!(ledger.request_grant(CAROL, ALICE, seen(100)).is_ok());
    assert!(ledger.request_grant(BOB, BOB, seen(1)).is_ok());
    assert!(ledger.request_grant(BOB, ALICE, seen(250)).is_ok());
    assert_eq!(
        ledger.storage_requesters(&ALICE),
        Some(Requesters { owner: ALICE, balance: Some(250) })
    );
    assert_eq!(
        ledger.storage_requesters(&BOB),
        Some(Requesters { owner: BOB, balance: Some(1) })
    );
    assert_eq!(ledger.profile_count(), 3);
    assert_eq!(ledger.requesters().len(), 2);
    assert_eq!(
        ledger.requesters().get(&ALICE),
        Some(&Requesters { owner: ALICE, balance: Some(250) })
    );
}

#[test]
fn repeated_requests_keep_a_single_record() {
    let mut ledger = Pallet::new(limits());
    for balance in 0u128..10 {
        assert!(ledger.request_grant(CAROL, ALICE, seen(balance)).is_ok());
        assert_eq!(ledger.requesters().len(), 1);
        assert_eq!(
            ledger.storage_requesters(&ALICE),
            Some(Requesters { owner: ALICE, balance: Some(balance) })
        );
    }
    assert_eq!(ledger.profile_count(), 10);
}

#[test]
fn request_grant_names_the_record_written() {
    let mut ledger = Pallet::new(limits());
    let receipt = ledger.request_grant(CAROL, BOB, seen(42)).unwrap();
    let expected =
        <sp_runtime::traits::BlakeTwo256 as sp_runtime::traits::Hash>::hash_of(&(BOB, Some(42u128)));
    assert_eq!(receipt.record_id, Some(expected.0));
}

#[test]
fn caller_may_request_for_itself() {
    let mut ledger = Pallet::new(limits());
    let receipt = ledger.request_grant(ALICE, ALICE, seen(0)).unwrap();
    assert_eq!(receipt.event, Event::GrantRequested { who: ALICE });
    assert_eq!(receipt.pays_fee, Pays::No);
    assert!(receipt.record_id.is_some());
    assert_eq!(
        ledger.storage_requesters(&ALICE),
        Some(Requesters { owner: ALICE, balance: Some(0) })
    );
}

#[test]
fn total_issuance_does_not_matter() {
    let mut one = Pallet::new(limits());
    let mut other = Pallet::new(limits());
    let a = one.request_grant(CAROL, ALICE, CurrencySnapshot { free_balance: 8, total_issuance: 8 });
    let b = other.request_grant(
        CAROL,
        ALICE,
        CurrencySnapshot { free_balance: 8, total_issuance: u128::MAX },
    );
    assert_eq!(a, b);
    assert_eq!(one, other);
}

#[test]
fn has_made_requests_follows_history() {
    let mut ledger = Pallet::new(limits());
    assert_eq!(ledger.has_made_requests(&ALICE), Err(Error::RequestAlreadyMade));
    assert!(ledger.request_grant(CAROL, ALICE, seen(100)).is_ok());
    assert_eq!(ledger.has_made_requests(&ALICE), Ok(true));
    assert_eq!(ledger.has_made_requests(&CAROL), Err(Error::RequestAlreadyMade));
    assert_eq!(ledger.has_made_requests(&BOB), Err(Error::RequestAlreadyMade));
    assert!(ledger.request_grant(CAROL, ALICE, seen(3)).is_ok());
    assert_eq!(ledger.has_made_requests(&ALICE), Ok(true));
}

#[test]
fn has_made_requests_ignores_refused_calls() {
    let mut ledger = Pallet::with_profile_count(limits(), u32::MAX);
    assert!(ledger.request_grant(CAROL, ALICE, seen(100)).is_err());
    assert_eq!(ledger.has_made_requests(&ALICE), Err(Error::RequestAlreadyMade));
}

#[test]
fn generate_requests_returns_the_digest_of_the_record() {
    let mut ledger = Pallet::new(limits());
    let id = ledger.generate_requests(&ALICE, seen(100));
    assert_eq!(id, Ok(ALICE_100));
    assert_eq!(ledger.profile_count(), 1);
    assert_eq!(
        ledger.storage_requesters(&ALICE),
        Some(Requesters { owner: ALICE, balance: Some(100) })
    );
}

#[test]
fn generate_requests_digest_depends_on_the_balance() {
    let mut ledger = Pallet::new(limits());
    let first = ledger.generate_requests(&ALICE, seen(100)).unwrap();
    let second = ledger.generate_requests(&ALICE, seen(250)).unwrap();
    let again = ledger.generate_requests(&ALICE, seen(100)).unwrap();
    assert_ne!(first, second);
    assert_eq!(first, again);
    assert_eq!(
        second,
        [
            0x36, 0x4b, 0x31, 0x14, 0x00, 0x41, 0x5a, 0xfd, 0x85, 0x71, 0x75, 0x1e, 0x32, 0x91,
            0x08, 0xb1, 0x8e, 0x9e, 0x14, 0xa5, 0x38, 0x1e, 0xa1, 0x1f, 0xfc, 0x9d, 0x5c, 0xbe,
            0xd1, 0xeb, 0xc1, 0xd4,
        ]
    );
    assert_ne!(first, ALICE);
}

#[test]
fn generate_requests_matches_the_runtime_hasher() {
    let mut ledger = Pallet::new(limits());
    let id = ledger.generate_requests(&BOB, seen(42)).unwrap();
    let expected =
        <sp_runtime::traits::BlakeTwo256 as sp_runtime::traits::Hash>::hash_of(&(BOB, Some(42u128)));
    assert_eq!(id, expected.0);
}

#[test]
fn generate_requests_with_keccak() {
    let mut ledger = Pallet::new(keccak_limits());
    let id = ledger.generate_requests(&ALICE, seen(100));
    assert_eq!(
        id,
        Ok([
            0xa9, 0x9a, 0xec, 0x59, 0xa8, 0x09, 0x3f, 0xb9, 0x3b, 0x7d, 0x15, 0xed, 0x04, 0xec,
            0x3d, 0x45, 0xfc, 0x99, 0x81, 0xd3, 0x1e, 0xb3, 0xaf, 0x96, 0x7d, 0x0c, 0x67, 0xa5,
            0x7d, 0xc5, 0xe9, 0x9b,
        ])
    );
    assert_eq!(
        ledger.storage_requesters(&ALICE),
        Some(Requesters { owner: ALICE, balance: Some(100) })
    );
}

#[test]
fn generate_requests_with_keccak_matches_the_runtime_hasher() {
    let mut ledger = Pallet::new(keccak_limits());
    let id = ledger.generate_requests(&BOB, seen(42)).unwrap();
    let expected =
        <sp_runtime::traits::Keccak256 as sp_runtime::traits::Hash>::hash_of(&(BOB, Some(42u128)));
    assert_eq!(id, expected.0);
}

#[test]
fn digest_of_no_bytes() {
    assert_eq!(
        digest(Hashing::BlakeTwo256, &[]),
        [
            0x0e, 0x57, 0x51, 0xc0, 0x26, 0xe5, 0x43, 0xb2, 0xe8, 0xab, 0x2e, 0xb0, 0x60, 0x99,
            0xda, 0xa1, 0xd1, 0xe5, 0xdf, 0x47, 0x77, 0x8f, 0x77, 0x87, 0xfa, 0xab, 0x45, 0xcd,
            0xf1, 0x2f, 0xe3, 0xa8,
        ]
    );
    assert_eq!(
        digest(Hashing::Keccak256, &[]),
        [
            0xc5, 0xd2, 0x46, 0x01, 0x86, 0xf7, 0x23, 0x3c, 0x92, 0x7e, 0x7d, 0xb2, 0xdc, 0xc7,
            0x03, 0xc0, 0xe5, 0x00, 0xb6, 0x53, 0xca, 0x82, 0x27, 0x3b, 0x7b, 0xfa, 0xd8, 0x04,
            0x5d, 0x85, 0xa4, 0x70,
        ]
    );
}

#[test]
fn digest_is_that_of_the_record_bytes() {
    let record = Requesters { owner: ALICE, balance: Some(100) };
    assert_eq!(digest(Hashing::BlakeTwo256, &record.encode()), ALICE_100);
}

#[test]
fn generate_requests_at_maximum_count_fails() {
    let mut ledger = Pallet::with_profile_count(limits(), u32::MAX);
    assert_eq!(ledger.generate_requests(&ALICE, seen(100)), Err(Error::ProfileCountOverflow));
    assert_eq!(ledger, Pallet::with_profile_count(limits(), u32::MAX));
}

#[test]
fn commit_request_hands_the_identifier_back() {
    let mut ledger = Pallet::new(limits());
    let record = Requesters { owner: BOB, balance: None };
    assert_eq!(ledger.commit_request(record, [7; 32]), Ok([7; 32]));
    assert_eq!(ledger.storage_requesters(&BOB), Some(record));
    assert_eq!(ledger.profile_count(), 1);
}

#[test]
fn commit_request_at_maximum_count_fails() {
    let mut ledger = Pallet::with_profile_count(limits(), u32::MAX);
    let record = Requesters { owner: BOB, balance: Some(1) };
    assert_eq!(ledger.commit_request(record, [7; 32]), Err(Error::ProfileCountOverflow));
    assert_eq!(ledger.storage_requesters(&BOB), None);
    assert_eq!(ledger.profile_count(), u32::MAX);
}
