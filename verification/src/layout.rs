use vstd::prelude::*;

verus! {

// Maximum byte lengths of the variable-length string fields, and the
// fixed-width storage layout of each record kind.
//
// Every record is stored in a preallocated buffer of fixed size: an 8-byte
// discriminant tag, fixed-width scalar fields, and for each string field a
// 4-byte length prefix followed by a buffer of the field's declared maximum.
// A string longer than its declared maximum cannot be stored; creation
// rejects it instead of truncating.

pub const MAX_CLASS_ID: usize = 64;
pub const MAX_TITLE: usize = 128;
pub const MAX_DESC: usize = 256;
pub const MAX_CATEGORY: usize = 64;
pub const MAX_TOPIC: usize = 64;
pub const MAX_DIFFICULTY: usize = 32;
pub const MAX_QUESTION_ID: usize = 64;
pub const MAX_PRIORITY: usize = 32;
pub const MAX_CLASS_RESULT_ID: usize = 64;
pub const MAX_REPORT_ID: usize = 64;

/// Size of the record tag that precedes every stored record.
pub const TAG_LEN: usize = 8;

/// Bytes occupied by a string field of the given length: a 4-byte length
/// prefix plus the bytes themselves.
pub fn str_len(len: usize) -> (r: usize)
    requires
        len <= usize::MAX - 4,
    ensures
        r == len + 4,
{
    4 + len
}

/// Bytes allocated for the singleton configuration record: tag, owner key,
/// mint key, cap, salt.
pub fn config_space() -> (r: usize)
    ensures
        r == 81,
{
    TAG_LEN + 32 + 32 + 8 + 1
}

/// Bytes allocated for a class record: tag, six string buffers, reward,
/// question count, time limit, visibility flag, creator key, completion
/// counter, salt.
pub fn class_space() -> (r: usize)
    ensures
        r == 698,
{
    TAG_LEN + str_len(MAX_CLASS_ID) + str_len(MAX_TITLE) + str_len(MAX_DESC)
        + str_len(MAX_CATEGORY) + str_len(MAX_TOPIC) + str_len(MAX_DIFFICULTY) + 8 + 4 + 4 + 1
        + 32 + 8 + 1
}

/// Bytes allocated for a completion record: tag, two string buffers, student
/// key, score, salt.
pub fn completion_space() -> (r: usize)
    ensures
        r == 245,
{
    TAG_LEN + str_len(MAX_CLASS_RESULT_ID) + str_len(MAX_TITLE) + 32 + 4 + 1
}

/// Bytes allocated for a report record: tag, six string buffers, reporter
/// key, salt.
pub fn report_space() -> (r: usize)
    ensures
        r == 673,
{
    TAG_LEN + str_len(MAX_REPORT_ID) + str_len(MAX_QUESTION_ID) + str_len(MAX_TITLE)
        + str_len(MAX_DESC) + str_len(MAX_CATEGORY) + str_len(MAX_PRIORITY) + 32 + 1
}

} // verus!
