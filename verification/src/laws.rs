use vstd::prelude::*;

use crate::address::KeyV;
use crate::ledger::complete_class_next;
use crate::ledger::config_owner;
use crate::ledger::create_class_next;
use crate::ledger::has_config;
use crate::ledger::initialize_config_next;
use crate::ledger::report_bug_next;
use crate::ledger::ProgramError;
use crate::pubkey::Pubkey;
use crate::records::class_args_bounded;
use crate::records::class_record_of;
use crate::records::completion_fields_bounded;
use crate::records::report_args_bounded;
use crate::records::allocated_size;
use crate::records::record_bounded;
use crate::records::record_size;
use crate::records::CreateClassArgsV;
use crate::records::RecordV;
use crate::records::ReportBugArgsV;

verus! {

/// Initialization succeeds exactly once per deployment: on a state without
/// a configuration it succeeds for all arguments, and once it has
/// succeeded, a second call with any arguments fails with a
/// duplicate-creation error and leaves the state unchanged.
pub proof fn lemma_initialize_config_once(
    m: Map<KeyV, RecordV>,
    owner1: Pubkey,
    mint1: Pubkey,
    cap1: u64,
    owner2: Pubkey,
    mint2: Pubkey,
    cap2: u64,
)
    ensures
        !m.contains_key(KeyV::Config) ==> initialize_config_next(m, owner1, mint1, cap1).1 == Ok::<
            (),
            ProgramError,
        >(()),
        initialize_config_next(m, owner1, mint1, cap1).1 == Ok::<(), ProgramError>(()) ==> ({
            let m1 = initialize_config_next(m, owner1, mint1, cap1).0;
            initialize_config_next(m1, owner2, mint2, cap2) == (
                m1,
                Err::<(), ProgramError>(ProgramError::DuplicateRecord),
            )
        }),
{
}

/// Registering the same class identifier twice fails: after a successful
/// registration, a second one with the same identifier — whatever the other
/// attributes — fails with a duplicate-creation error and leaves the state
/// unchanged.
pub proof fn lemma_create_class_duplicate(
    m: Map<KeyV, RecordV>,
    a: CreateClassArgsV,
    b: CreateClassArgsV,
)
    requires
        create_class_next(m, a).1 == Ok::<(), ProgramError>(()),
        b.class_id == a.class_id,
    ensures
        ({
            let m1 = create_class_next(m, a).0;
            create_class_next(m1, b) == (m1, Err::<(), ProgramError>(ProgramError::DuplicateRecord))
        }),
{
}

/// Distinct class identifiers are independent: a registration under one
/// identifier has the same outcome after a successful registration under
/// another, and when both succeed, both records stand in the store.
pub proof fn lemma_create_class_independent(
    m: Map<KeyV, RecordV>,
    a: CreateClassArgsV,
    b: CreateClassArgsV,
)
    requires
        create_class_next(m, a).1 == Ok::<(), ProgramError>(()),
        b.class_id != a.class_id,
    ensures
        create_class_next(create_class_next(m, a).0, b).1 == create_class_next(m, b).1,
        create_class_next(m, b).1 == Ok::<(), ProgramError>(()) ==> ({
            let m2 = create_class_next(create_class_next(m, a).0, b).0;
            &&& m2[KeyV::Class { class_id: a.class_id }] == RecordV::Class(class_record_of(a))
            &&& m2[KeyV::Class { class_id: b.class_id }] == RecordV::Class(class_record_of(b))
        }),
{
}

/// At most one completion per (class, student) pair: after a successful
/// completion, a second attempt for the same pair fails and changes
/// nothing, regardless of its score, title or result identifier — with a
/// duplicate-creation error when the owner signs it, and with an
/// access-denial error otherwise.
pub proof fn lemma_complete_class_once(
    m: Map<KeyV, RecordV>,
    signer: Pubkey,
    class_id: Seq<u8>,
    student: Pubkey,
    rid1: Seq<u8>,
    title1: Seq<u8>,
    score1: u32,
    signer2: Pubkey,
    rid2: Seq<u8>,
    title2: Seq<u8>,
    score2: u32,
)
    requires
        has_config(m),
        complete_class_next(m, signer, class_id, student, rid1, title1, score1).1 == Ok::<
            (),
            ProgramError,
        >(()),
    ensures
        ({
            let m1 = complete_class_next(m, signer, class_id, student, rid1, title1, score1).0;
            let second = complete_class_next(
                m1,
                signer2,
                class_id,
                student,
                rid2,
                title2,
                score2,
            );
            &&& second.0 == m1
            &&& second.1 is Err
            &&& signer2 == config_owner(m) ==> second.1 == Err::<(), ProgramError>(
                ProgramError::DuplicateRecord,
            )
            &&& signer2 != config_owner(m) ==> second.1 == Err::<(), ProgramError>(
                ProgramError::AccessDenied,
            )
        }),
{
    let m1 = complete_class_next(m, signer, class_id, student, rid1, title1, score1).0;
    assert(m1[KeyV::Config] == m[KeyV::Config]);
}

/// At most one report per (class, report, user) triple: after a successful
/// report, a second attempt for the same triple fails and changes nothing.
pub proof fn lemma_report_bug_once(
    m: Map<KeyV, RecordV>,
    signer: Pubkey,
    class_id: Seq<u8>,
    a: ReportBugArgsV,
    signer2: Pubkey,
    b: ReportBugArgsV,
)
    requires
        has_config(m),
        report_bug_next(m, signer, class_id, a).1 == Ok::<(), ProgramError>(()),
        b.report_id == a.report_id,
        b.user_address == a.user_address,
    ensures
        ({
            let m1 = report_bug_next(m, signer, class_id, a).0;
            let second = report_bug_next(m1, signer2, class_id, b);
            &&& second.0 == m1
            &&& second.1 is Err
            &&& signer2 == config_owner(m) ==> second.1 == Err::<(), ProgramError>(
                ProgramError::DuplicateRecord,
            )
            &&& signer2 != config_owner(m) ==> second.1 == Err::<(), ProgramError>(
                ProgramError::AccessDenied,
            )
        }),
{
    let m1 = report_bug_next(m, signer, class_id, a).0;
    assert(m1[KeyV::Config] == m[KeyV::Config]);
}

/// The owner gate: when the signer differs from the owner recorded in the
/// configuration, recording a completion or a report fails with an
/// access-denial error and changes nothing, whatever the other inputs are.
pub proof fn lemma_non_owner_denied(
    m: Map<KeyV, RecordV>,
    signer: Pubkey,
    class_id: Seq<u8>,
    student: Pubkey,
    rid: Seq<u8>,
    title: Seq<u8>,
    score: u32,
    a: ReportBugArgsV,
)
    requires
        has_config(m),
        signer != config_owner(m),
    ensures
        complete_class_next(m, signer, class_id, student, rid, title, score) == (
            m,
            Err::<(), ProgramError>(ProgramError::AccessDenied),
        ),
        report_bug_next(m, signer, class_id, a) == (
            m,
            Err::<(), ProgramError>(ProgramError::AccessDenied),
        ),
{
}

/// An over-length string field makes class registration fail with a
/// size-mismatch error instead of storing a truncated record.
pub proof fn lemma_oversize_create_class_rejected(m: Map<KeyV, RecordV>, a: CreateClassArgsV)
    requires
        !m.contains_key(KeyV::Class { class_id: a.class_id }),
        !class_args_bounded(a),
    ensures
        create_class_next(m, a) == (m, Err::<(), ProgramError>(ProgramError::SizeMismatch)),
{
}

/// An over-length string field makes completion recording fail with a
/// size-mismatch error instead of storing a truncated record.
pub proof fn lemma_oversize_complete_class_rejected(
    m: Map<KeyV, RecordV>,
    signer: Pubkey,
    class_id: Seq<u8>,
    student: Pubkey,
    rid: Seq<u8>,
    title: Seq<u8>,
    score: u32,
)
    requires
        has_config(m),
        signer == config_owner(m),
        !m.contains_key(KeyV::Completion { class_id, student }),
        !completion_fields_bounded(rid, title),
    ensures
        complete_class_next(m, signer, class_id, student, rid, title, score) == (
            m,
            Err::<(), ProgramError>(ProgramError::SizeMismatch),
        ),
{
}

/// An over-length string field makes bug reporting fail with a
/// size-mismatch error instead of storing a truncated record.
pub proof fn lemma_oversize_report_bug_rejected(
    m: Map<KeyV, RecordV>,
    signer: Pubkey,
    class_id: Seq<u8>,
    a: ReportBugArgsV,
)
    requires
        has_config(m),
        signer == config_owner(m),
        !m.contains_key(
            KeyV::Report { class_id, report_id: a.report_id, user: a.user_address },
        ),
        !report_args_bounded(a),
    ensures
        report_bug_next(m, signer, class_id, a) == (
            m,
            Err::<(), ProgramError>(ProgramError::SizeMismatch),
        ),
{
}

/// The field bounds are exactly what the fixed-width layout enforces: a
/// record whose string fields are within their declared maxima fits the
/// preallocated buffer of its kind, so every record the operations store
/// fits its allocation.
pub proof fn lemma_bounded_record_fits(r: RecordV)
    requires
        record_bounded(r),
    ensures
        record_size(r) <= allocated_size(r),
{
}

} // verus!
