use xiiid_token_solana::layout::{
    class_space, completion_space, config_space, report_space, str_len, MAX_CLASS_ID,
    MAX_CLASS_RESULT_ID, MAX_DESC, MAX_REPORT_ID, MAX_TITLE,
};
use xiiid_token_solana::ledger::{Ledger, ProgramError};
use xiiid_token_solana::pubkey::Pubkey;
use xiiid_token_solana::records::{CreateClassArgs, ReportBugArgs};
use xiiid_token_solana::address::RecordKey;

fn owner() -> Pubkey {
    Pubkey::new(1, 2, 3, 4)
}

fn mint() -> Pubkey {
    Pubkey::new(5, 6, 7, 8)
}

fn student() -> Pubkey {
    Pubkey::new(9, 10, 11, 12)
}

fn plain_class_args(class_id: Vec<u8>) -> CreateClassArgs {
    CreateClassArgs {
        class_id,
        title: Vec::new(),
        description: Vec::new(),
        category: Vec::new(),
        topic: Vec::new(),
        difficulty: Vec::new(),
        reward: 0,
        question_count: 0,
        time_limit: 0,
        is_private: false,
        creator_address: owner(),
    }
}

fn plain_report_args(report_id: Vec<u8>, description: Vec<u8>) -> ReportBugArgs {
    ReportBugArgs {
        report_id,
        question_id: Vec::new(),
        title: Vec::new(),
        description,
        category: Vec::new(),
        priority: Vec::new(),
        user_address: student(),
    }
}

#[test]
fn class_id_at_maximum_is_accepted() {
    let mut l = Ledger::new();
    let args = plain_class_args(vec![b'x'; MAX_CLASS_ID]);
    assert_eq!(l.create_class(args), Ok(()));
}

#[test]
fn class_id_over_maximum_is_rejected() {
    let mut l = Ledger::new();
    let long_id = vec![b'x'; MAX_CLASS_ID + 1];
    let args = plain_class_args(long_id.clone());
    assert_eq!(l.create_class(args), Err(ProgramError::SizeMismatch));
    // Rejected outright: nothing was stored, not even a truncated record.
    assert!(!l.contains(&RecordKey::Class { class_id: long_id }));
    assert!(!l.contains(&RecordKey::Class { class_id: vec![b'x'; MAX_CLASS_ID] }));
}

#[test]
fn class_title_over_maximum_is_rejected() {
    let mut l = Ledger::new();
    let mut args = plain_class_args(b"solana-101".to_vec());
    args.title = vec![b't'; MAX_TITLE + 1];
    assert_eq!(l.create_class(args), Err(ProgramError::SizeMismatch));
}

#[test]
fn completion_result_id_over_maximum_is_rejected() {
    let mut l = Ledger::new();
    assert_eq!(l.initialize_config(owner(), mint(), 1000), Ok(()));
    assert_eq!(l.create_class(plain_class_args(b"solana-101".to_vec())), Ok(()));
    let id = b"solana-101".to_vec();
    let long_rid = vec![b'r'; MAX_CLASS_RESULT_ID + 1];
    assert_eq!(
        l.complete_class(owner(), &id, student(), long_rid, Vec::new(), 95),
        Err(ProgramError::SizeMismatch)
    );
    // At the maximum it is accepted.
    let max_rid = vec![b'r'; MAX_CLASS_RESULT_ID];
    assert_eq!(
        l.complete_class(owner(), &id, student(), max_rid, Vec::new(), 95),
        Ok(())
    );
}

#[test]
fn report_description_over_maximum_is_rejected() {
    let mut l = Ledger::new();
    assert_eq!(l.initialize_config(owner(), mint(), 1000), Ok(()));
    assert_eq!(l.create_class(plain_class_args(b"solana-101".to_vec())), Ok(()));
    let id = b"solana-101".to_vec();
    let args = plain_report_args(vec![b'r'; MAX_REPORT_ID], vec![b'd'; MAX_DESC + 1]);
    assert_eq!(l.report_bug(owner(), &id, args), Err(ProgramError::SizeMismatch));
    // The owner gate is checked before the size: a non-owner signer with the
    // same oversized arguments is denied, not size-rejected.
    let args = plain_report_args(vec![b'r'; MAX_REPORT_ID], vec![b'd'; MAX_DESC + 1]);
    assert_eq!(
        l.report_bug(student(), &id, args),
        Err(ProgramError::AccessDenied)
    );
}

#[test]
fn string_field_layout() {
    assert_eq!(str_len(0), 4);
    assert_eq!(str_len(MAX_CLASS_ID), 68);
    assert_eq!(str_len(MAX_TITLE), 132);
    assert_eq!(str_len(MAX_DESC), 260);
}

#[test]
fn record_allocation_sizes() {
    assert_eq!(config_space(), 81);
    assert_eq!(class_space(), 698);
    assert_eq!(completion_space(), 245);
    assert_eq!(report_space(), 673);
}
