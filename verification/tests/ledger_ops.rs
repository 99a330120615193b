use xiiid_token_solana::ledger::{Ledger, ProgramError};
use xiiid_token_solana::pubkey::Pubkey;
use xiiid_token_solana::records::{CreateClassArgs, Record, ReportBugArgs};
use xiiid_token_solana::address::RecordKey;

fn owner() -> Pubkey {
    Pubkey::new(1, 2, 3, 4)
}

fn mint() -> Pubkey {
    Pubkey::new(5, 6, 7, 8)
}

fn student() -> Pubkey {
    Pubkey::new(9, 10, 11, 12)
}

fn stranger() -> Pubkey {
    Pubkey::new(13, 14, 15, 16)
}

fn class_args(id: &str) -> CreateClassArgs {
    CreateClassArgs {
        class_id: id.as_bytes().to_vec(),
        title: b"Intro".to_vec(),
        description: b"A first course".to_vec(),
        category: b"blockchain".to_vec(),
        topic: b"accounts".to_vec(),
        difficulty: b"easy".to_vec(),
        reward: 50,
        question_count: 10,
        time_limit: 3600,
        is_private: false,
        creator_address: owner(),
    }
}

fn report_args(id: &str, user: Pubkey) -> ReportBugArgs {
    ReportBugArgs {
        report_id: id.as_bytes().to_vec(),
        question_id: b"q-7".to_vec(),
        title: b"Broken question".to_vec(),
        description: b"The answer key is wrong".to_vec(),
        category: b"content".to_vec(),
        priority: b"high".to_vec(),
        user_address: user,
    }
}

/// A ledger with the configuration initialized and one class registered.
fn initialized_ledger(class_id: &str) -> Ledger {
    let mut l = Ledger::new();
    assert_eq!(l.initialize_config(owner(), mint(), 1000), Ok(()));
    assert_eq!(l.create_class(class_args(class_id)), Ok(()));
    l
}

#[test]
fn initialize_config_succeeds_once() {
    let mut l = Ledger::new();
    assert_eq!(l.initialize_config(owner(), mint(), 1000), Ok(()));
    assert_eq!(
        l.initialize_config(owner(), mint(), 1000),
        Err(ProgramError::DuplicateRecord)
    );
    assert_eq!(
        l.initialize_config(stranger(), mint(), 7),
        Err(ProgramError::DuplicateRecord)
    );
}

#[test]
fn initialize_config_stores_fields() {
    let mut l = Ledger::new();
    assert_eq!(l.initialize_config(owner(), mint(), 1000), Ok(()));
    match l.get(&RecordKey::Config) {
        Some(Record::Config(c)) => {
            assert!(c.owner == owner());
            assert!(c.mint == mint());
            assert_eq!(c.cap, 1000);
        }
        _ => panic!("configuration record missing"),
    }
}

#[test]
fn create_class_duplicate_fails() {
    let mut l = initialized_ledger("solana-101");
    assert_eq!(
        l.create_class(class_args("solana-101")),
        Err(ProgramError::DuplicateRecord)
    );
}

#[test]
fn create_class_distinct_ids_succeed() {
    let mut l = initialized_ledger("solana-101");
    assert_eq!(l.create_class(class_args("solana-102")), Ok(()));
    let k1 = RecordKey::Class { class_id: b"solana-101".to_vec() };
    let k2 = RecordKey::Class { class_id: b"solana-102".to_vec() };
    assert!(l.contains(&k1));
    assert!(l.contains(&k2));
}

#[test]
fn create_class_needs_no_owner_gate() {
    let mut l = Ledger::new();
    // No configuration exists yet; registration is open to any payer.
    assert_eq!(l.create_class(class_args("open-course")), Ok(()));
}

#[test]
fn create_class_stores_fields_verbatim() {
    let mut l = initialized_ledger("solana-101");
    let key = RecordKey::Class { class_id: b"solana-101".to_vec() };
    match l.get(&key) {
        Some(Record::Class(c)) => {
            assert_eq!(c.class_id, b"solana-101".to_vec());
            assert_eq!(c.title, b"Intro".to_vec());
            assert_eq!(c.description, b"A first course".to_vec());
            assert_eq!(c.category, b"blockchain".to_vec());
            assert_eq!(c.topic, b"accounts".to_vec());
            assert_eq!(c.difficulty, b"easy".to_vec());
            assert_eq!(c.reward, 50);
            assert_eq!(c.question_count, 10);
            assert_eq!(c.time_limit, 3600);
            assert!(!c.is_private);
            assert!(c.creator == owner());
            assert_eq!(c.completion_count, 0);
        }
        _ => panic!("class record missing"),
    }
}

#[test]
fn complete_class_at_most_once_per_pair() {
    let mut l = initialized_ledger("solana-101");
    let id = b"solana-101".to_vec();
    assert_eq!(
        l.complete_class(owner(), &id, student(), b"res-1".to_vec(), b"Done".to_vec(), 95),
        Ok(())
    );
    // Same (class, student) pair: fails even with a different score and title.
    assert_eq!(
        l.complete_class(owner(), &id, student(), b"res-2".to_vec(), b"Again".to_vec(), 40),
        Err(ProgramError::DuplicateRecord)
    );
    // A different student for the same class still succeeds.
    assert_eq!(
        l.complete_class(owner(), &id, stranger(), b"res-3".to_vec(), b"Done".to_vec(), 80),
        Ok(())
    );
}

#[test]
fn complete_class_stores_fields() {
    let mut l = initialized_ledger("solana-101");
    let id = b"solana-101".to_vec();
    assert_eq!(
        l.complete_class(owner(), &id, student(), b"res-1".to_vec(), b"Done".to_vec(), 95),
        Ok(())
    );
    let key = RecordKey::Completion { class_id: id, student: student() };
    match l.get(&key) {
        Some(Record::Completion(c)) => {
            assert_eq!(c.class_result_id, b"res-1".to_vec());
            assert_eq!(c.title, b"Done".to_vec());
            assert!(c.student == student());
            assert_eq!(c.score, 95);
        }
        _ => panic!("completion record missing"),
    }
}

#[test]
fn complete_class_denies_non_owner() {
    let mut l = initialized_ledger("solana-101");
    let id = b"solana-101".to_vec();
    assert_eq!(
        l.complete_class(stranger(), &id, student(), b"res-1".to_vec(), b"Done".to_vec(), 95),
        Err(ProgramError::AccessDenied)
    );
    // Nothing was stored for the pair.
    let key = RecordKey::Completion { class_id: id, student: student() };
    assert!(!l.contains(&key));
}

#[test]
fn report_bug_at_most_once_per_triple() {
    let mut l = initialized_ledger("solana-101");
    let id = b"solana-101".to_vec();
    assert_eq!(l.report_bug(owner(), &id, report_args("rep-1", student())), Ok(()));
    assert_eq!(
        l.report_bug(owner(), &id, report_args("rep-1", student())),
        Err(ProgramError::DuplicateRecord)
    );
    // A different report id, or a different user, is a different triple.
    assert_eq!(l.report_bug(owner(), &id, report_args("rep-2", student())), Ok(()));
    assert_eq!(l.report_bug(owner(), &id, report_args("rep-1", stranger())), Ok(()));
}

#[test]
fn report_bug_denies_non_owner() {
    let mut l = initialized_ledger("solana-101");
    let id = b"solana-101".to_vec();
    assert_eq!(
        l.report_bug(stranger(), &id, report_args("rep-1", student())),
        Err(ProgramError::AccessDenied)
    );
}

#[test]
fn report_bug_stores_fields() {
    let mut l = initialized_ledger("solana-101");
    let id = b"solana-101".to_vec();
    assert_eq!(l.report_bug(owner(), &id, report_args("rep-1", student())), Ok(()));
    let key = RecordKey::Report {
        class_id: id,
        report_id: b"rep-1".to_vec(),
        user: student(),
    };
    match l.get(&key) {
        Some(Record::Report(r)) => {
            assert_eq!(r.report_id, b"rep-1".to_vec());
            assert_eq!(r.question_id, b"q-7".to_vec());
            assert_eq!(r.title, b"Broken question".to_vec());
            assert_eq!(r.description, b"The answer key is wrong".to_vec());
            assert_eq!(r.category, b"content".to_vec());
            assert_eq!(r.priority, b"high".to_vec());
            assert!(r.user == student());
        }
        _ => panic!("report record missing"),
    }
}

#[test]
fn get_misses_absent_keys() {
    let l = Ledger::new();
    assert!(l.get(&RecordKey::Config).is_none());
    assert!(!l.contains(&RecordKey::Class { class_id: b"solana-101".to_vec() }));
}

#[test]
fn example_deployment_walkthrough() {
    // Initialize with cap 1000; register "solana-101" with ten questions;
    // one completion with score 95 succeeds and a repeat fails; a report
    // from a non-owner signer is denied.
    let mut l = Ledger::new();
    assert_eq!(l.initialize_config(owner(), mint(), 1000), Ok(()));
    let mut args = class_args("solana-101");
    args.question_count = 10;
    assert_eq!(l.create_class(args), Ok(()));
    let id = b"solana-101".to_vec();
    assert_eq!(
        l.complete_class(owner(), &id, student(), b"res-1".to_vec(), b"Done".to_vec(), 95),
        Ok(())
    );
    assert_eq!(
        l.complete_class(owner(), &id, student(), b"res-1".to_vec(), b"Done".to_vec(), 95),
        Err(ProgramError::DuplicateRecord)
    );
    assert_eq!(
        l.report_bug(stranger(), &id, report_args("rep-1", student())),
        Err(ProgramError::AccessDenied)
    );
}
