use vstd::prelude::*;

use crate::layout::MAX_CATEGORY;
use crate::layout::MAX_CLASS_ID;
use crate::layout::MAX_CLASS_RESULT_ID;
use crate::layout::MAX_DESC;
use crate::layout::MAX_DIFFICULTY;
use crate::layout::MAX_PRIORITY;
use crate::layout::MAX_QUESTION_ID;
use crate::layout::MAX_REPORT_ID;
use crate::layout::MAX_TITLE;
use crate::layout::MAX_TOPIC;
use crate::pubkey::Pubkey;

verus! {

// The record types stored by the program. String fields are byte strings,
// since their declared maxima are byte lengths. Each record also carries
// the salt byte (`bump`) under which its storage key was derived.

/// The canonical value of the derivation salt stored in every record.
pub const RECORD_BUMP: u8 = 255;

/// The singleton configuration: the owner identity that gates the completion
/// and report recorders, the token mint it references, and a supply cap.
pub struct Config {
    pub owner: Pubkey,
    pub mint: Pubkey,
    pub cap: u64,
    pub bump: u8,
}

/// One record per registered class, keyed by `class_id`.
pub struct ClassAccount {
    pub class_id: Vec<u8>,
    pub title: Vec<u8>,
    pub description: Vec<u8>,
    pub category: Vec<u8>,
    pub topic: Vec<u8>,
    pub difficulty: Vec<u8>,
    pub reward: u64,
    pub question_count: u32,
    pub time_limit: u32,
    pub is_private: bool,
    pub creator: Pubkey,
    /// Declared by the layout but never incremented by any operation:
    /// records are immutable once created, so this stays at zero.
    pub completion_count: u64,
    pub bump: u8,
}

/// One record per (class, student) pair.
pub struct CompletionAccount {
    pub class_result_id: Vec<u8>,
    pub title: Vec<u8>,
    pub student: Pubkey,
    pub score: u32,
    pub bump: u8,
}

/// One record per (class, report, user) triple.
pub struct ReportAccount {
    pub report_id: Vec<u8>,
    pub question_id: Vec<u8>,
    pub title: Vec<u8>,
    pub description: Vec<u8>,
    pub category: Vec<u8>,
    pub priority: Vec<u8>,
    pub user: Pubkey,
    pub bump: u8,
}

/// The argument bundle of the class registrar.
pub struct CreateClassArgs {
    pub class_id: Vec<u8>,
    pub title: Vec<u8>,
    pub description: Vec<u8>,
    pub category: Vec<u8>,
    pub topic: Vec<u8>,
    pub difficulty: Vec<u8>,
    pub reward: u64,
    pub question_count: u32,
    pub time_limit: u32,
    pub is_private: bool,
    pub creator_address: Pubkey,
}

/// The argument bundle of the bug report recorder.
pub struct ReportBugArgs {
    pub report_id: Vec<u8>,
    pub question_id: Vec<u8>,
    pub title: Vec<u8>,
    pub description: Vec<u8>,
    pub category: Vec<u8>,
    pub priority: Vec<u8>,
    pub user_address: Pubkey,
}

// Mathematical views of the records: byte strings become sequences.

pub struct ConfigV {
    pub owner: Pubkey,
    pub mint: Pubkey,
    pub cap: u64,
    pub bump: u8,
}

pub struct ClassAccountV {
    pub class_id: Seq<u8>,
    pub title: Seq<u8>,
    pub description: Seq<u8>,
    pub category: Seq<u8>,
    pub topic: Seq<u8>,
    pub difficulty: Seq<u8>,
    pub reward: u64,
    pub question_count: u32,
    pub time_limit: u32,
    pub is_private: bool,
    pub creator: Pubkey,
    pub completion_count: u64,
    pub bump: u8,
}

pub struct CompletionAccountV {
    pub class_result_id: Seq<u8>,
    pub title: Seq<u8>,
    pub student: Pubkey,
    pub score: u32,
    pub bump: u8,
}

pub struct ReportAccountV {
    pub report_id: Seq<u8>,
    pub question_id: Seq<u8>,
    pub title: Seq<u8>,
    pub description: Seq<u8>,
    pub category: Seq<u8>,
    pub priority: Seq<u8>,
    pub user: Pubkey,
    pub bump: u8,
}

pub struct CreateClassArgsV {
    pub class_id: Seq<u8>,
    pub title: Seq<u8>,
    pub description: Seq<u8>,
    pub category: Seq<u8>,
    pub topic: Seq<u8>,
    pub difficulty: Seq<u8>,
    pub reward: u64,
    pub question_count: u32,
    pub time_limit: u32,
    pub is_private: bool,
    pub creator_address: Pubkey,
}

pub struct ReportBugArgsV {
    pub report_id: Seq<u8>,
    pub question_id: Seq<u8>,
    pub title: Seq<u8>,
    pub description: Seq<u8>,
    pub category: Seq<u8>,
    pub priority: Seq<u8>,
    pub user_address: Pubkey,
}

impl View for Config {
    type V = ConfigV;

    open spec fn view(&self) -> ConfigV {
        ConfigV { owner: self.owner, mint: self.mint, cap: self.cap, bump: self.bump }
    }
}

impl View for ClassAccount {
    type V = ClassAccountV;

    open spec fn view(&self) -> ClassAccountV {
        ClassAccountV {
            class_id: self.class_id@,
            title: self.title@,
            description: self.description@,
            category: self.category@,
            topic: self.topic@,
            difficulty: self.difficulty@,
            reward: self.reward,
            question_count: self.question_count,
            time_limit: self.time_limit,
            is_private: self.is_private,
            creator: self.creator,
            completion_count: self.completion_count,
            bump: self.bump,
        }
    }
}

impl View for CompletionAccount {
    type V = CompletionAccountV;

    open spec fn view(&self) -> CompletionAccountV {
        CompletionAccountV {
            class_result_id: self.class_result_id@,
            title: self.title@,
            student: self.student,
            score: self.score,
            bump: self.bump,
        }
    }
}

impl View for ReportAccount {
    type V = ReportAccountV;

    open spec fn view(&self) -> ReportAccountV {
        ReportAccountV {
            report_id: self.report_id@,
            question_id: self.question_id@,
            title: self.title@,
            description: self.description@,
            category: self.category@,
            priority: self.priority@,
            user: self.user,
            bump: self.bump,
        }
    }
}

impl View for CreateClassArgs {
    type V = CreateClassArgsV;

    open spec fn view(&self) -> CreateClassArgsV {
        CreateClassArgsV {
            class_id: self.class_id@,
            title: self.title@,
            description: self.description@,
            category: self.category@,
            topic: self.topic@,
            difficulty: self.difficulty@,
            reward: self.reward,
            question_count: self.question_count,
            time_limit: self.time_limit,
            is_private: self.is_private,
            creator_address: self.creator_address,
        }
    }
}

impl View for ReportBugArgs {
    type V = ReportBugArgsV;

    open spec fn view(&self) -> ReportBugArgsV {
        ReportBugArgsV {
            report_id: self.report_id@,
            question_id: self.question_id@,
            title: self.title@,
            description: self.description@,
            category: self.category@,
            priority: self.priority@,
            user_address: self.user_address,
        }
    }
}

/// A stored record of any of the four kinds.
pub enum Record {
    Config(Config),
    Class(ClassAccount),
    Completion(CompletionAccount),
    Report(ReportAccount),
}

/// Mathematical view of a stored record.
pub enum RecordV {
    Config(ConfigV),
    Class(ClassAccountV),
    Completion(CompletionAccountV),
    Report(ReportAccountV),
}

impl View for Record {
    type V = RecordV;

    open spec fn view(&self) -> RecordV {
        match self {
            Record::Config(c) => RecordV::Config(c@),
            Record::Class(c) => RecordV::Class(c@),
            Record::Completion(c) => RecordV::Completion(c@),
            Record::Report(c) => RecordV::Report(c@),
        }
    }
}

// Field bounds: a record can be stored only when every string field fits
// its declared maximum.

pub open spec fn class_args_bounded(a: CreateClassArgsV) -> bool {
    &&& a.class_id.len() <= MAX_CLASS_ID
    &&& a.title.len() <= MAX_TITLE
    &&& a.description.len() <= MAX_DESC
    &&& a.category.len() <= MAX_CATEGORY
    &&& a.topic.len() <= MAX_TOPIC
    &&& a.difficulty.len() <= MAX_DIFFICULTY
}

pub open spec fn completion_fields_bounded(class_result_id: Seq<u8>, title: Seq<u8>) -> bool {
    &&& class_result_id.len() <= MAX_CLASS_RESULT_ID
    &&& title.len() <= MAX_TITLE
}

pub open spec fn report_args_bounded(a: ReportBugArgsV) -> bool {
    &&& a.report_id.len() <= MAX_REPORT_ID
    &&& a.question_id.len() <= MAX_QUESTION_ID
    &&& a.title.len() <= MAX_TITLE
    &&& a.description.len() <= MAX_DESC
    &&& a.category.len() <= MAX_CATEGORY
    &&& a.priority.len() <= MAX_PRIORITY
}

/// Every string field of the record fits its declared maximum. Records are
/// only ever created within these bounds, so everything stored satisfies
/// this.
pub open spec fn record_bounded(r: RecordV) -> bool {
    match r {
        RecordV::Config(_) => true,
        RecordV::Class(c) => {
            &&& c.class_id.len() <= MAX_CLASS_ID
            &&& c.title.len() <= MAX_TITLE
            &&& c.description.len() <= MAX_DESC
            &&& c.category.len() <= MAX_CATEGORY
            &&& c.topic.len() <= MAX_TOPIC
            &&& c.difficulty.len() <= MAX_DIFFICULTY
        },
        RecordV::Completion(c) => completion_fields_bounded(c.class_result_id, c.title),
        RecordV::Report(c) => {
            &&& c.report_id.len() <= MAX_REPORT_ID
            &&& c.question_id.len() <= MAX_QUESTION_ID
            &&& c.title.len() <= MAX_TITLE
            &&& c.description.len() <= MAX_DESC
            &&& c.category.len() <= MAX_CATEGORY
            &&& c.priority.len() <= MAX_PRIORITY
        },
    }
}

/// Bytes a record occupies in its fixed-width layout: the tag, the scalar
/// fields, and for each string field a 4-byte length prefix plus the bytes
/// actually held.
pub open spec fn record_size(r: RecordV) -> nat {
    match r {
        RecordV::Config(_) => 8 + 32 + 32 + 8 + 1,
        RecordV::Class(c) => 8 + (4 + c.class_id.len()) + (4 + c.title.len()) + (4
            + c.description.len()) + (4 + c.category.len()) + (4 + c.topic.len()) + (4
            + c.difficulty.len()) + 8 + 4 + 4 + 1 + 32 + 8 + 1,
        RecordV::Completion(c) => 8 + (4 + c.class_result_id.len()) + (4 + c.title.len()) + 32 + 4
            + 1,
        RecordV::Report(c) => 8 + (4 + c.report_id.len()) + (4 + c.question_id.len()) + (4
            + c.title.len()) + (4 + c.description.len()) + (4 + c.category.len()) + (4
            + c.priority.len()) + 32 + 1,
    }
}

/// Bytes preallocated for a record of this kind: every string buffer at its
/// declared maximum.
pub open spec fn allocated_size(r: RecordV) -> nat {
    match r {
        RecordV::Config(_) => 81,
        RecordV::Class(_) => 698,
        RecordV::Completion(_) => 245,
        RecordV::Report(_) => 673,
    }
}

/// The class record created from a registrar argument bundle: fields are
/// taken verbatim and the completion counter starts at zero.
pub open spec fn class_record_of(a: CreateClassArgsV) -> ClassAccountV {
    ClassAccountV {
        class_id: a.class_id,
        title: a.title,
        description: a.description,
        category: a.category,
        topic: a.topic,
        difficulty: a.difficulty,
        reward: a.reward,
        question_count: a.question_count,
        time_limit: a.time_limit,
        is_private: a.is_private,
        creator: a.creator_address,
        completion_count: 0,
        bump: RECORD_BUMP,
    }
}

/// The report record created from a recorder argument bundle.
pub open spec fn report_record_of(a: ReportBugArgsV) -> ReportAccountV {
    ReportAccountV {
        report_id: a.report_id,
        question_id: a.question_id,
        title: a.title,
        description: a.description,
        category: a.category,
        priority: a.priority,
        user: a.user_address,
        bump: RECORD_BUMP,
    }
}

} // verus!
