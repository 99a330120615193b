use vstd::prelude::*;

use crate::pubkey::Pubkey;

verus! {

/// Storage keys. On the hosting chain every record lives at an address
/// derived deterministically from a list of seeds: a fixed string salt
/// ("config", "class", "completion" or "report") followed by the record's
/// identifying fields. Distinct seed lists derive distinct addresses, and
/// the derivation is the uniqueness mechanism of the whole program: creating
/// a record whose address is already occupied fails. A `RecordKey` models
/// the seed list itself, so distinctness of keys is structural.
pub enum RecordKey {
    /// Salt "config"; the configuration is a singleton.
    Config,
    /// Salt "class" plus the class identifier bytes.
    Class { class_id: Vec<u8> },
    /// Salt "completion" plus the class key and the student identity.
    Completion { class_id: Vec<u8>, student: Pubkey },
    /// Salt "report" plus the class key, the report identifier bytes and
    /// the reporting user's identity.
    Report { class_id: Vec<u8>, report_id: Vec<u8>, user: Pubkey },
}

/// Mathematical view of a storage key.
pub enum KeyV {
    Config,
    Class { class_id: Seq<u8> },
    Completion { class_id: Seq<u8>, student: Pubkey },
    Report { class_id: Seq<u8>, report_id: Seq<u8>, user: Pubkey },
}

impl View for RecordKey {
    type V = KeyV;

    open spec fn view(&self) -> KeyV {
        match self {
            RecordKey::Config => KeyV::Config,
            RecordKey::Class { class_id } => KeyV::Class { class_id: class_id@ },
            RecordKey::Completion { class_id, student } => KeyV::Completion {
                class_id: class_id@,
                student: *student,
            },
            RecordKey::Report { class_id, report_id, user } => KeyV::Report {
                class_id: class_id@,
                report_id: report_id@,
                user: *user,
            },
        }
    }
}

/// Byte-string equality.
pub fn bytes_eq(a: &Vec<u8>, b: &Vec<u8>) -> (r: bool)
    ensures
        r == (a@ == b@),
{
    if a.len() != b.len() {
        return false;
    }
    let n: usize = a.len();
    let mut i: usize = 0;
    while i < n
        invariant
            n == a.len() == b.len(),
            i <= n,
            forall|j: int| 0 <= j < i ==> a@[j] == b@[j],
        decreases n - i,
    {
        if a[i] != b[i] {
            return false;
        }
        i = i + 1;
    }
    proof {
        assert(a@ =~= b@);
    }
    true
}

/// A fresh copy of a byte string.
pub fn clone_bytes(v: &Vec<u8>) -> (r: Vec<u8>)
    ensures
        r@ == v@,
{
    let mut r: Vec<u8> = Vec::new();
    let n: usize = v.len();
    let mut i: usize = 0;
    while i < n
        invariant
            n == v.len(),
            i <= n,
            r@ == v@.subrange(0, i as int),
        decreases n - i,
    {
        r.push(v[i]);
        i = i + 1;
        proof {
            assert(r@ =~= v@.subrange(0, i as int));
        }
    }
    proof {
        assert(v@.subrange(0, n as int) =~= v@);
    }
    r
}

/// Key equality: two keys are equal exactly when their seed lists are.
pub fn key_eq(a: &RecordKey, b: &RecordKey) -> (r: bool)
    ensures
        r == (a@ == b@),
{
    match (a, b) {
        (RecordKey::Config, RecordKey::Config) => true,
        (RecordKey::Class { class_id: ca }, RecordKey::Class { class_id: cb }) => bytes_eq(
            ca,
            cb,
        ),
        (
            RecordKey::Completion { class_id: ca, student: sa },
            RecordKey::Completion { class_id: cb, student: sb },
        ) => bytes_eq(ca, cb) && *sa == *sb,
        (
            RecordKey::Report { class_id: ca, report_id: ra, user: ua },
            RecordKey::Report { class_id: cb, report_id: rb, user: ub },
        ) => bytes_eq(ca, cb) && bytes_eq(ra, rb) && *ua == *ub,
        _ => false,
    }
}

} // verus!
