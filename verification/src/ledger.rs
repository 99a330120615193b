use vstd::prelude::*;

use crate::address::clone_bytes;
use crate::address::key_eq;
use crate::address::KeyV;
use crate::address::RecordKey;
use crate::layout::MAX_CATEGORY;
use crate::layout::MAX_CLASS_ID;
use crate::layout::MAX_CLASS_RESULT_ID;
use crate::layout::MAX_DESC;
use crate::layout::MAX_DIFFICULTY;
use crate::layout::MAX_PRIORITY;
use crate::layout::MAX_QUESTION_ID;
use crate::layout::MAX_REPORT_ID;
use crate::layout::MAX_TITLE;
use crate::layout::MAX_TOPIC;
use crate::pubkey::Pubkey;
use crate::records::class_args_bounded;
use crate::records::class_record_of;
use crate::records::completion_fields_bounded;
use crate::records::record_bounded;
use crate::records::report_args_bounded;
use crate::records::report_record_of;
use crate::records::ClassAccount;
use crate::records::CompletionAccount;
use crate::records::CompletionAccountV;
use crate::records::Config;
use crate::records::ConfigV;
use crate::records::CreateClassArgs;
use crate::records::CreateClassArgsV;
use crate::records::Record;
use crate::records::RecordV;
use crate::records::ReportAccount;
use crate::records::ReportBugArgs;
use crate::records::ReportBugArgsV;
use crate::records::RECORD_BUMP;

verus! {

/// The errors an operation can fail with. Every failure is terminal: the
/// ledger is left exactly as it was.
#[derive(Clone, Copy, PartialEq, Eq, Structural, Debug)]
pub enum ProgramError {
    /// The derived storage key is already occupied.
    DuplicateRecord,
    /// The signer does not match the owner recorded in the configuration.
    AccessDenied,
    /// A string field exceeds its declared maximum byte length.
    SizeMismatch,
}

/// One stored record together with the key it was created under.
pub struct Entry {
    pub key: RecordKey,
    pub rec: Record,
}

/// A record may stand only under a key derived from its own identifying
/// fields.
pub open spec fn key_matches_record(k: KeyV, r: RecordV) -> bool {
    match (k, r) {
        (KeyV::Config, RecordV::Config(_)) => true,
        (KeyV::Class { class_id }, RecordV::Class(c)) => c.class_id == class_id,
        (KeyV::Completion { class_id: _, student }, RecordV::Completion(c)) => c.student
            == student,
        (KeyV::Report { class_id: _, report_id, user }, RecordV::Report(c)) => {
            &&& c.report_id == report_id
            &&& c.user == user
        },
        _ => false,
    }
}

pub open spec fn entry_wf(e: Entry) -> bool {
    &&& key_matches_record(e.key@, e.rec@)
    &&& record_bounded(e.rec@)
}

spec fn distinct_keys(s: Seq<Entry>) -> bool {
    forall|i: int, j: int| 0 <= i < j < s.len() ==> s[i].key@ != s[j].key@
}

spec fn entries_wf(s: Seq<Entry>) -> bool {
    forall|i: int| 0 <= i < s.len() ==> entry_wf(#[trigger] s[i])
}

spec fn map_of(s: Seq<Entry>) -> Map<KeyV, RecordV>
    decreases s.len(),
{
    if s.len() == 0 {
        Map::empty()
    } else {
        map_of(s.drop_last()).insert(s.last().key@, s.last().rec@)
    }
}

proof fn lemma_map_of_contains(s: Seq<Entry>, k: KeyV)
    ensures
        map_of(s).contains_key(k) <==> exists|i: int| 0 <= i < s.len() && (#[trigger] s[i]).key@
            == k,
    decreases s.len(),
{
    if s.len() > 0 {
        lemma_map_of_contains(s.drop_last(), k);
        if map_of(s).contains_key(k) {
            if s.last().key@ == k {
                assert(s[s.len() - 1].key@ == k);
            } else {
                let i = choose|i: int|
                    0 <= i < s.drop_last().len() && (#[trigger] s.drop_last()[i]).key@ == k;
                assert(s[i].key@ == k);
            }
        }
        if exists|i: int| 0 <= i < s.len() && (#[trigger] s[i]).key@ == k {
            let i = choose|i: int| 0 <= i < s.len() && (#[trigger] s[i]).key@ == k;
            if i < s.len() - 1 {
                assert(s.drop_last()[i].key@ == k);
            }
        }
    }
}

proof fn lemma_map_of_index(s: Seq<Entry>, i: int)
    requires
        distinct_keys(s),
        0 <= i < s.len(),
    ensures
        map_of(s).contains_key(s[i].key@),
        map_of(s)[s[i].key@] == s[i].rec@,
    decreases s.len(),
{
    if i < s.len() - 1 {
        assert(distinct_keys(s.drop_last())) by {
            assert(forall|a: int, b: int|
                0 <= a < b < s.drop_last().len() ==> s.drop_last()[a] == s[a] && s.drop_last()[b]
                    == s[b]);
        }
        lemma_map_of_index(s.drop_last(), i);
        assert(s[i].key@ != s.last().key@);
    }
}

proof fn lemma_map_of_push(s: Seq<Entry>, e: Entry)
    ensures
        map_of(s.push(e)) == map_of(s).insert(e.key@, e.rec@),
{
    assert(s.push(e).drop_last() =~= s);
    assert(s.push(e).last() == e);
}

/// A ledger state that holds the singleton configuration record.
pub open spec fn has_config(m: Map<KeyV, RecordV>) -> bool {
    &&& m.contains_key(KeyV::Config)
    &&& m[KeyV::Config] is Config
}

/// The owner identity recorded in the configuration, which gates the
/// completion and report recorders.
pub open spec fn config_owner(m: Map<KeyV, RecordV>) -> Pubkey
    recommends
        has_config(m),
{
    match m[KeyV::Config] {
        RecordV::Config(c) => c.owner,
        _ => Pubkey { w0: 0, w1: 0, w2: 0, w3: 0 },
    }
}

/// What initializing the configuration does: it fails if the deployment is
/// already initialized, and otherwise creates the singleton configuration
/// record with the given owner, mint and cap.
pub open spec fn initialize_config_next(
    m: Map<KeyV, RecordV>,
    owner: Pubkey,
    mint: Pubkey,
    cap: u64,
) -> (Map<KeyV, RecordV>, Result<(), ProgramError>) {
    if m.contains_key(KeyV::Config) {
        (m, Err(ProgramError::DuplicateRecord))
    } else {
        (
            m.insert(
                KeyV::Config,
                RecordV::Config(ConfigV { owner, mint, cap, bump: RECORD_BUMP }),
            ),
            Ok(()),
        )
    }
}

/// What registering a class does: it fails if a class with the same
/// identifier already exists, then if a string field is over its maximum,
/// and otherwise stores the class record built verbatim from the arguments.
/// There is no ownership gate: any payer may register a class.
pub open spec fn create_class_next(m: Map<KeyV, RecordV>, a: CreateClassArgsV) -> (
    Map<KeyV, RecordV>,
    Result<(), ProgramError>,
) {
    let k = KeyV::Class { class_id: a.class_id };
    if m.contains_key(k) {
        (m, Err(ProgramError::DuplicateRecord))
    } else if !class_args_bounded(a) {
        (m, Err(ProgramError::SizeMismatch))
    } else {
        (m.insert(k, RecordV::Class(class_record_of(a))), Ok(()))
    }
}

/// What recording a completion does: it fails if the signer is not the
/// recorded owner, then if this (class, student) pair already has a
/// completion, then if a string field is over its maximum; otherwise it
/// stores the completion record.
pub open spec fn complete_class_next(
    m: Map<KeyV, RecordV>,
    signer: Pubkey,
    class_id: Seq<u8>,
    student: Pubkey,
    class_result_id: Seq<u8>,
    title: Seq<u8>,
    score: u32,
) -> (Map<KeyV, RecordV>, Result<(), ProgramError>)
    recommends
        has_config(m),
{
    let k = KeyV::Completion { class_id, student };
    if signer != config_owner(m) {
        (m, Err(ProgramError::AccessDenied))
    } else if m.contains_key(k) {
        (m, Err(ProgramError::DuplicateRecord))
    } else if !completion_fields_bounded(class_result_id, title) {
        (m, Err(ProgramError::SizeMismatch))
    } else {
        (
            m.insert(
                k,
                RecordV::Completion(
                    CompletionAccountV { class_result_id, title, student, score, bump: RECORD_BUMP },
                ),
            ),
            Ok(()),
        )
    }
}

/// What recording a bug report does: owner-gated like the completion
/// recorder, at most one report per (class, report, user) triple.
pub open spec fn report_bug_next(
    m: Map<KeyV, RecordV>,
    signer: Pubkey,
    class_id: Seq<u8>,
    a: ReportBugArgsV,
) -> (Map<KeyV, RecordV>, Result<(), ProgramError>)
    recommends
        has_config(m),
{
    let k = KeyV::Report { class_id, report_id: a.report_id, user: a.user_address };
    if signer != config_owner(m) {
        (m, Err(ProgramError::AccessDenied))
    } else if m.contains_key(k) {
        (m, Err(ProgramError::DuplicateRecord))
    } else if !report_args_bounded(a) {
        (m, Err(ProgramError::SizeMismatch))
    } else {
        (m.insert(k, RecordV::Report(report_record_of(a))), Ok(()))
    }
}

/// The whole record store: a key-value store whose only write operation is
/// insert-if-absent. This models the account space the program owns on the
/// hosting chain; the chain's allocation step is what actually refuses an
/// occupied address.
pub struct Ledger {
    entries: Vec<Entry>,
}

impl View for Ledger {
    type V = Map<KeyV, RecordV>;

    /// The ledger viewed as a map from storage keys to records.
    closed spec fn view(&self) -> Map<KeyV, RecordV> {
        map_of(self.entries@)
    }
}

impl Ledger {
    /// Well-formed: keys are distinct, every record stands under its own
    /// key, and every stored string is within its declared maximum.
    pub closed spec fn wf(&self) -> bool {
        &&& distinct_keys(self.entries@)
        &&& entries_wf(self.entries@)
    }

    /// An empty ledger, the state of a fresh deployment.
    pub fn new() -> (r: Ledger)
        ensures
            r.wf(),
            r@ == Map::<KeyV, RecordV>::empty(),
    {
        Ledger { entries: Vec::new() }
    }

    /// Whether a record exists at the given key.
    pub fn contains(&self, key: &RecordKey) -> (r: bool)
        ensures
            r == self@.contains_key(key@),
    {
        let n: usize = self.entries.len();
        let mut i: usize = 0;
        while i < n
            invariant
                n == self.entries@.len(),
                i <= n,
                forall|j: int| 0 <= j < i ==> (#[trigger] self.entries@[j]).key@ != key@,
            decreases n - i,
        {
            if key_eq(&self.entries[i].key, key) {
                proof {
                    lemma_map_of_contains(self.entries@, key@);
                }
                return true;
            }
            i = i + 1;
        }
        proof {
            lemma_map_of_contains(self.entries@, key@);
        }
        false
    }

    /// The record stored at the given key, if any.
    pub fn get(&self, key: &RecordKey) -> (r: Option<&Record>)
        requires
            self.wf(),
        ensures
            match r {
                Some(rec) => self@.contains_key(key@) && rec@ == self@[key@],
                None => !self@.contains_key(key@),
            },
    {
        let n: usize = self.entries.len();
        let mut i: usize = 0;
        while i < n
            invariant
                self.wf(),
                n == self.entries@.len(),
                i <= n,
                forall|j: int| 0 <= j < i ==> (#[trigger] self.entries@[j]).key@ != key@,
            decreases n - i,
        {
            if key_eq(&self.entries[i].key, key) {
                proof {
                    lemma_map_of_index(self.entries@, i as int);
                }
                return Some(&self.entries[i].rec);
            }
            i = i + 1;
        }
        proof {
            lemma_map_of_contains(self.entries@, key@);
        }
        None
    }

    /// Insert a record at a key that is not yet occupied.
    fn insert_entry(&mut self, e: Entry)
        requires
            old(self).wf(),
            !old(self)@.contains_key(e.key@),
            entry_wf(e),
        ensures
            final(self).wf(),
            final(self)@ == old(self)@.insert(e.key@, e.rec@),
    {
        proof {
            lemma_map_of_contains(self.entries@, e.key@);
        }
        let ghost s0 = self.entries@;
        let ghost k = e.key@;
        self.entries.push(e);
        proof {
            lemma_map_of_push(s0, e);
            assert forall|i: int, j: int| 0 <= i < j < self.entries@.len() implies self.entries@[i].key@
                != self.entries@[j].key@ by {
                if j < s0.len() {
                    assert(s0[i].key@ != s0[j].key@);
                } else {
                    assert(self.entries@[j] == e);
                    assert(s0[i].key@ != k);
                }
            }
            assert forall|i: int| 0 <= i < self.entries@.len() implies entry_wf(
                #[trigger] self.entries@[i],
            ) by {
                if i < s0.len() {
                    assert(entry_wf(s0[i]));
                }
            }
        }
    }

    /// The owner identity stored in the configuration record.
    pub fn stored_owner(&self) -> (r: Pubkey)
        requires
            self.wf(),
            has_config(self@),
        ensures
            r == config_owner(self@),
    {
        match self.get(&RecordKey::Config) {
            Some(Record::Config(c)) => c.owner,
            _ => unreached(),
        }
    }

    /// Whatever is stored is well formed: every record stands under the key
    /// derived from its own identifying fields, and every stored string is
    /// within its declared maximum — an over-length string is refused at
    /// creation, never truncated into the store.
    pub proof fn lemma_stored_record_wf(&self, k: KeyV)
        requires
            self.wf(),
            self@.contains_key(k),
        ensures
            key_matches_record(k, self@[k]),
            record_bounded(self@[k]),
    {
        lemma_map_of_contains(self.entries@, k);
        let i = choose|i: int| 0 <= i < self.entries@.len() && (#[trigger] self.entries@[i]).key@
            == k;
        lemma_map_of_index(self.entries@, i);
        assert(entry_wf(self.entries@[i]));
    }

    /// Initialize the deployment: create the singleton configuration
    /// record, fixing the owner identity used by all gated operations.
    /// Fails with a duplicate-creation error if the deployment is already
    /// initialized; succeeds on any arguments otherwise.
    pub fn initialize_config(&mut self, owner: Pubkey, mint: Pubkey, cap: u64) -> (r: Result<
        (),
        ProgramError,
    >)
        requires
            old(self).wf(),
        ensures
            final(self).wf(),
            final(self)@ == initialize_config_next(old(self)@, owner, mint, cap).0,
            r == initialize_config_next(old(self)@, owner, mint, cap).1,
    {
        let key = RecordKey::Config;
        if self.contains(&key) {
            return Err(ProgramError::DuplicateRecord);
        }
        let rec = Record::Config(Config { owner, mint, cap, bump: RECORD_BUMP });
        self.insert_entry(Entry { key, rec });
        Ok(())
    }

    /// Register a class under a caller-chosen identifier. No ownership
    /// check: any payer may register. Fails with a duplicate-creation error
    /// if the identifier is taken, and with a size-mismatch error if a
    /// string field exceeds its maximum; otherwise stores the class record
    /// verbatim, with its completion counter at zero.
    pub fn create_class(&mut self, args: CreateClassArgs) -> (r: Result<(), ProgramError>)
        requires
            old(self).wf(),
        ensures
            final(self).wf(),
            final(self)@ == create_class_next(old(self)@, args@).0,
            r == create_class_next(old(self)@, args@).1,
    {
        let key = RecordKey::Class { class_id: clone_bytes(&args.class_id) };
        if self.contains(&key) {
            return Err(ProgramError::DuplicateRecord);
        }
        if !(args.class_id.len() <= MAX_CLASS_ID && args.title.len() <= MAX_TITLE
            && args.description.len() <= MAX_DESC && args.category.len() <= MAX_CATEGORY
            && args.topic.len() <= MAX_TOPIC && args.difficulty.len() <= MAX_DIFFICULTY) {
            return Err(ProgramError::SizeMismatch);
        }
        let CreateClassArgs {
            class_id,
            title,
            description,
            category,
            topic,
            difficulty,
            reward,
            question_count,
            time_limit,
            is_private,
            creator_address,
        } = args;
        let rec = Record::Class(
            ClassAccount {
                class_id,
                title,
                description,
                category,
                topic,
                difficulty,
                reward,
                question_count,
                time_limit,
                is_private,
                creator: creator_address,
                completion_count: 0,
                bump: RECORD_BUMP,
            },
        );
        self.insert_entry(Entry { key, rec });
        Ok(())
    }

    /// Record that a student completed a class; only the owner recorded in
    /// the configuration may call this. Fails with an access-denial error
    /// for any other signer, with a duplicate-creation error if this
    /// (class, student) pair already has a completion, and with a
    /// size-mismatch error if a string field exceeds its maximum.
    pub fn complete_class(
        &mut self,
        signer: Pubkey,
        class_id: &Vec<u8>,
        student: Pubkey,
        class_result_id: Vec<u8>,
        title: Vec<u8>,
        score: u32,
    ) -> (r: Result<(), ProgramError>)
        requires
            old(self).wf(),
            has_config(old(self)@),
            old(self)@.contains_key(KeyV::Class { class_id: class_id@ }),
        ensures
            final(self).wf(),
            final(self)@ == complete_class_next(
                old(self)@,
                signer,
                class_id@,
                student,
                class_result_id@,
                title@,
                score,
            ).0,
            r == complete_class_next(
                old(self)@,
                signer,
                class_id@,
                student,
                class_result_id@,
                title@,
                score,
            ).1,
    {
        let owner = self.stored_owner();
        if !(signer == owner) {
            return Err(ProgramError::AccessDenied);
        }
        let key = RecordKey::Completion { class_id: clone_bytes(class_id), student };
        if self.contains(&key) {
            return Err(ProgramError::DuplicateRecord);
        }
        if !(class_result_id.len() <= MAX_CLASS_RESULT_ID && title.len() <= MAX_TITLE) {
            return Err(ProgramError::SizeMismatch);
        }
        let rec = Record::Completion(
            CompletionAccount { class_result_id, title, student, score, bump: RECORD_BUMP },
        );
        self.insert_entry(Entry { key, rec });
        Ok(())
    }

    /// Record a bug report against a class; only the owner recorded in the
    /// configuration may call this. Fails with an access-denial error for
    /// any other signer, with a duplicate-creation error if this (class,
    /// report, user) triple already has a report, and with a size-mismatch
    /// error if a string field exceeds its maximum.
    pub fn report_bug(&mut self, signer: Pubkey, class_id: &Vec<u8>, args: ReportBugArgs) -> (r:
        Result<(), ProgramError>)
        requires
            old(self).wf(),
            has_config(old(self)@),
            old(self)@.contains_key(KeyV::Class { class_id: class_id@ }),
        ensures
            final(self).wf(),
            final(self)@ == report_bug_next(old(self)@, signer, class_id@, args@).0,
            r == report_bug_next(old(self)@, signer, class_id@, args@).1,
    {
        let owner = self.stored_owner();
        if !(signer == owner) {
            return Err(ProgramError::AccessDenied);
        }
        let key = RecordKey::Report {
            class_id: clone_bytes(class_id),
            report_id: clone_bytes(&args.report_id),
            user: args.user_address,
        };
        if self.contains(&key) {
            return Err(ProgramError::DuplicateRecord);
        }
        if !(args.report_id.len() <= MAX_REPORT_ID && args.question_id.len() <= MAX_QUESTION_ID
            && args.title.len() <= MAX_TITLE && args.description.len() <= MAX_DESC
            && args.category.len() <= MAX_CATEGORY && args.priority.len() <= MAX_PRIORITY) {
            return Err(ProgramError::SizeMismatch);
        }
        let ReportBugArgs {
            report_id,
            question_id,
            title,
            description,
            category,
            priority,
            user_address,
        } = args;
        let rec = Record::Report(
            ReportAccount {
                report_id,
                question_id,
                title,
                description,
                category,
                priority,
                user: user_address,
                bump: RECORD_BUMP,
            },
        );
        self.insert_entry(Entry { key, rec });
        Ok(())
    }
}

} // verus!
