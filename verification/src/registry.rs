use vstd::prelude::*;

use crate::errors::IPProtectorError;
use crate::keys::paper_key;
use crate::keys::section_key;
use crate::keys::derive_paper_key;
use crate::keys::derive_section_key;
use crate::keys::AUTHOR_LEN;
use crate::keys::MAX_HASH_LEN;
use crate::keys::MAX_SECTION_TYPE_LEN;
use crate::keys::MAX_SUMMARY_LEN;
use crate::keys::CANONICAL_BUMP;

verus! {

/// A registered paper: the author's identity, the document fingerprint, the
/// advisory number of expected sections, the creation timestamp and the
/// disambiguation value of the record's key derivation.  Immutable once
/// created.
pub struct PaperAccount {
    pub author: Vec<u8>,
    pub paper_hash: Vec<u8>,
    pub sections_count: u8,
    pub created_at: i64,
    pub bump: u8,
}

/// A registered section: the author's identity, the section's type label and
/// content fingerprint, a caller-supplied uniqueness metric, a free-text
/// summary, the creation timestamp and the key-derivation disambiguation
/// value.  Immutable once created.
pub struct SectionAccount {
    pub author: Vec<u8>,
    pub section_type: Vec<u8>,
    pub content_hash: Vec<u8>,
    pub uniqueness_score: u8,
    pub summary: Vec<u8>,
    pub created_at: i64,
    pub bump: u8,
}

/// The mathematical value of a `PaperAccount`.
pub struct PaperAccountV {
    pub author: Seq<u8>,
    pub paper_hash: Seq<u8>,
    pub sections_count: u8,
    pub created_at: i64,
    pub bump: u8,
}

/// The mathematical value of a `SectionAccount`.
pub struct SectionAccountV {
    pub author: Seq<u8>,
    pub section_type: Seq<u8>,
    pub content_hash: Seq<u8>,
    pub uniqueness_score: u8,
    pub summary: Seq<u8>,
    pub created_at: i64,
    pub bump: u8,
}

impl View for PaperAccount {
    type V = PaperAccountV;

    open spec fn view(&self) -> PaperAccountV {
        PaperAccountV {
            author: self.author@,
            paper_hash: self.paper_hash@,
            sections_count: self.sections_count,
            created_at: self.created_at,
            bump: self.bump,
        }
    }
}

impl View for SectionAccount {
    type V = SectionAccountV;

    open spec fn view(&self) -> SectionAccountV {
        SectionAccountV {
            author: self.author@,
            section_type: self.section_type@,
            content_hash: self.content_hash@,
            uniqueness_score: self.uniqueness_score,
            summary: self.summary@,
            created_at: self.created_at,
            bump: self.bump,
        }
    }
}

/// A record as the store holds it: the variant is the type tag that keeps
/// paper and section records apart in the shared keyspace.
pub enum Record {
    Paper(PaperAccount),
    Section(SectionAccount),
}

/// The mathematical value of a `Record`.
pub enum RecordV {
    Paper(PaperAccountV),
    Section(SectionAccountV),
}

impl View for Record {
    type V = RecordV;

    open spec fn view(&self) -> RecordV {
        match self {
            Record::Paper(p) => RecordV::Paper(p@),
            Record::Section(s) => RecordV::Section(s@),
        }
    }
}

/// The key-to-record mapping described by a sequence of store entries; a key
/// that occurs twice takes its latest record, though a well-formed store
/// never holds such a key.
pub open spec fn map_of(entries: Seq<(Vec<u8>, Record)>) -> Map<Seq<u8>, RecordV>
    decreases entries.len(),
{
    if entries.len() == 0 {
        Map::empty()
    } else {
        map_of(entries.drop_last()).insert(entries.last().0@, entries.last().1@)
    }
}

/// Whether the record stored under the derived section key of (author,
/// section_type, content_hash) is a section whose stored author and content
/// fingerprint equal the queried ones.  This is what a verification query
/// answers: presence at the derived key alone is not enough, the stored
/// fields are re-checked explicitly as a defense against any weakening of
/// the key derivation.
pub open spec fn authorship_verified(
    m: Map<Seq<u8>, RecordV>,
    author: Seq<u8>,
    section_type: Seq<u8>,
    content_hash: Seq<u8>,
) -> bool {
    let k = section_key(author, section_type, content_hash);
    &&& m.contains_key(k)
    &&& m[k] matches RecordV::Section(s) && s.author == author && s.content_hash == content_hash
}

/// The three-valued outcome of a verification lookup: no record at the
/// derived key, a record whose stored fields contradict the query, or a
/// verified registration.
#[derive(Clone, Copy, Debug, PartialEq, Eq, Structural)]
pub enum VerifyOutcome {
    NotFound,
    Mismatch,
    Verified,
}

/// The append-only record store together with the admission-control logic
/// around it: records are created at their derived keys only if the key is
/// absent, and are never updated or deleted.
pub struct Registry {
    entries: Vec<(Vec<u8>, Record)>,
}

impl Registry {
    /// Well-formedness: no storage key occurs twice.
    pub closed spec fn wf(self) -> bool {
        forall|i: int, j: int|
            0 <= i < j < self.entries@.len() ==> self.entries@[i].0@ != self.entries@[j].0@
    }

    /// The store as a mapping from storage keys to record values.  How the
    /// mapping is represented is the store's own business; the operations'
    /// contracts say everything about how it evolves.
    pub closed spec fn key_map(self) -> Map<Seq<u8>, RecordV> {
        map_of(self.entries@)
    }

    /// An empty registry.
    pub fn new() -> (r: Registry)
        ensures
            r.wf(),
            r.key_map() == Map::<Seq<u8>, RecordV>::empty(),
    {
        Registry { entries: Vec::new() }
    }

    /// The index of the entry carrying `key`, if any.
    fn find(&self, key: &Vec<u8>) -> (r: Option<usize>)
        ensures
            match r {
                Some(i) => i < self.entries@.len() && self.entries@[i as int].0@ == key@,
                None => forall|i: int| 0 <= i < self.entries@.len() ==> self.entries@[i].0@ != key@,
            },
    {
        let mut i: usize = 0;
        while i < self.entries.len()
            invariant
                i <= self.entries@.len(),
                forall|j: int| 0 <= j < i ==> self.entries@[j].0@ != key@,
            decreases self.entries@.len() - i,
        {
            if bytes_eq(&self.entries[i].0, key) {
                return Some(i);
            }
            i = i + 1;
        }
        None
    }

    /// Registers a paper: validates the fingerprint bound, derives the
    /// record's storage key, and creates the record there only if the slot is
    /// absent.  An occupied slot means the same (author, paper_hash) pair was
    /// registered before, and the store is left exactly as it was.
    pub fn initialize_paper(
        &mut self,
        author: &Vec<u8>,
        paper_hash: &Vec<u8>,
        sections_count: u8,
        now: i64,
    ) -> (r: Result<PaperAccount, IPProtectorError>)
        requires
            old(self).wf(),
            author@.len() == AUTHOR_LEN,
        ensures
            final(self).wf(),
            paper_hash@.len() > MAX_HASH_LEN ==> r == Err::<PaperAccount, IPProtectorError>(
                IPProtectorError::InvalidInput,
            ) && *final(self) == *old(self),
            paper_hash@.len() <= MAX_HASH_LEN && old(self).key_map().contains_key(
                paper_key(author@, paper_hash@),
            ) ==> r == Err::<PaperAccount, IPProtectorError>(IPProtectorError::AlreadyRegistered)
                && *final(self) == *old(self),
            paper_hash@.len() <= MAX_HASH_LEN && !old(self).key_map().contains_key(
                paper_key(author@, paper_hash@),
            ) ==> (r matches Ok(rec) && rec@ == (PaperAccountV {
                author: author@,
                paper_hash: paper_hash@,
                sections_count: sections_count,
                created_at: now,
                bump: CANONICAL_BUMP,
            }) && final(self).key_map() == old(self).key_map().insert(
                paper_key(author@, paper_hash@),
                RecordV::Paper(rec@),
            )),
    {
        if paper_hash.len() > MAX_HASH_LEN {
            return Err(IPProtectorError::InvalidInput);
        }
        let kp = match derive_paper_key(author, paper_hash) {
            Ok(kp) => kp,
            Err(e) => {
                return Err(e);
            },
        };
        let key = kp.0;
        proof {
            lemma_map_of_contains(self.entries@, key@);
        }
        match self.find(&key) {
            Some(_) => Err(IPProtectorError::AlreadyRegistered),
            None => {
                let stored = PaperAccount {
                    author: bytes_clone(author),
                    paper_hash: bytes_clone(paper_hash),
                    sections_count: sections_count,
                    created_at: now,
                    bump: kp.1,
                };
                let returned = PaperAccount {
                    author: bytes_clone(author),
                    paper_hash: bytes_clone(paper_hash),
                    sections_count: sections_count,
                    created_at: now,
                    bump: kp.1,
                };
                let ghost old_entries: Seq<(Vec<u8>, Record)> = self.entries@;
                let ghost key_view: Seq<u8> = key@;
                let ghost stored_view: PaperAccountV = stored@;
                self.entries.push((key, Record::Paper(stored)));
                proof {
                    assert(self.entries@.drop_last() =~= old_entries);
                    assert(self.entries@.last().0@ == key_view);
                    assert(self.entries@.last().1@ == RecordV::Paper(stored_view));
                    assert(map_of(self.entries@) == map_of(old_entries).insert(
                        key_view,
                        RecordV::Paper(stored_view),
                    ));
                    assert forall|i: int, j: int|
                        0 <= i < j < self.entries@.len() implies self.entries@[i].0@
                        != self.entries@[j].0@ by {
                        if j < self.entries@.len() - 1 {
                            assert(old_entries[i].0@ != old_entries[j].0@);
                        } else {
                            assert(self.entries@[i] == old_entries[i]);
                            assert(old_entries[i].0@ != key_view);
                        }
                    }
                    assert(returned@ == stored_view);
                }
                Ok(returned)
            },
        }
    }

    /// Registers a section: validates the type-label, fingerprint and summary
    /// bounds, derives the record's storage key, and creates the record there
    /// only if the slot is absent.  An occupied slot means the same (author,
    /// section_type, content_hash) triple was registered before, and the
    /// store is left exactly as it was.
    pub fn create_section_token(
        &mut self,
        author: &Vec<u8>,
        section_type: &Vec<u8>,
        content_hash: &Vec<u8>,
        uniqueness_score: u8,
        summary: &Vec<u8>,
        now: i64,
    ) -> (r: Result<SectionAccount, IPProtectorError>)
        requires
            old(self).wf(),
            author@.len() == AUTHOR_LEN,
        ensures
            final(self).wf(),
            section_type@.len() > MAX_SECTION_TYPE_LEN || content_hash@.len() > MAX_HASH_LEN
                || summary@.len() > MAX_SUMMARY_LEN ==> r == Err::<
                SectionAccount,
                IPProtectorError,
            >(IPProtectorError::InvalidInput) && *final(self) == *old(self),
            section_type@.len() <= MAX_SECTION_TYPE_LEN && content_hash@.len() <= MAX_HASH_LEN
                && summary@.len() <= MAX_SUMMARY_LEN && old(self).key_map().contains_key(
                section_key(author@, section_type@, content_hash@),
            ) ==> r == Err::<SectionAccount, IPProtectorError>(IPProtectorError::AlreadyRegistered)
                && *final(self) == *old(self),
            section_type@.len() <= MAX_SECTION_TYPE_LEN && content_hash@.len() <= MAX_HASH_LEN
                && summary@.len() <= MAX_SUMMARY_LEN && !old(self).key_map().contains_key(
                section_key(author@, section_type@, content_hash@),
            ) ==> (r matches Ok(rec) && rec@ == (SectionAccountV {
                author: author@,
                section_type: section_type@,
                content_hash: content_hash@,
                uniqueness_score: uniqueness_score,
                summary: summary@,
                created_at: now,
                bump: CANONICAL_BUMP,
            }) && final(self).key_map() == old(self).key_map().insert(
                section_key(author@, section_type@, content_hash@),
                RecordV::Section(rec@),
            )),
    {
        if section_type.len() > MAX_SECTION_TYPE_LEN || content_hash.len() > MAX_HASH_LEN
            || summary.len() > MAX_SUMMARY_LEN {
            return Err(IPProtectorError::InvalidInput);
        }
        let kp = match derive_section_key(author, section_type, content_hash) {
            Ok(kp) => kp,
            Err(e) => {
                return Err(e);
            },
        };
        let key = kp.0;
        proof {
            lemma_map_of_contains(self.entries@, key@);
        }
        match self.find(&key) {
            Some(_) => Err(IPProtectorError::AlreadyRegistered),
            None => {
                let stored = SectionAccount {
                    author: bytes_clone(author),
                    section_type: bytes_clone(section_type),
                    content_hash: bytes_clone(content_hash),
                    uniqueness_score: uniqueness_score,
                    summary: bytes_clone(summary),
                    created_at: now,
                    bump: kp.1,
                };
                let returned = SectionAccount {
                    author: bytes_clone(author),
                    section_type: bytes_clone(section_type),
                    content_hash: bytes_clone(content_hash),
                    uniqueness_score: uniqueness_score,
                    summary: bytes_clone(summary),
                    created_at: now,
                    bump: kp.1,
                };
                let ghost old_entries: Seq<(Vec<u8>, Record)> = self.entries@;
                let ghost key_view: Seq<u8> = key@;
                let ghost stored_view: SectionAccountV = stored@;
                self.entries.push((key, Record::Section(stored)));
                proof {
                    assert(self.entries@.drop_last() =~= old_entries);
                    assert(self.entries@.last().0@ == key_view);
                    assert(self.entries@.last().1@ == RecordV::Section(stored_view));
                    assert(map_of(self.entries@) == map_of(old_entries).insert(
                        key_view,
                        RecordV::Section(stored_view),
                    ));
                    assert forall|i: int, j: int|
                        0 <= i < j < self.entries@.len() implies self.entries@[i].0@
                        != self.entries@[j].0@ by {
                        if j < self.entries@.len() - 1 {
                            assert(old_entries[i].0@ != old_entries[j].0@);
                        } else {
                            assert(self.entries@[i] == old_entries[i]);
                            assert(old_entries[i].0@ != key_view);
                        }
                    }
                    assert(returned@ == stored_view);
                }
                Ok(returned)
            },
        }
    }

    /// Looks a section registration up and says what was found: nothing at
    /// the derived key, a record contradicting the query, or a verified
    /// registration.  The stored author and content fingerprint are compared
    /// to the queried ones explicitly, even though both already went into the
    /// key derivation.
    pub fn lookup_authorship(
        &self,
        author: &Vec<u8>,
        section_type: &Vec<u8>,
        content_hash: &Vec<u8>,
    ) -> (r: Result<VerifyOutcome, IPProtectorError>)
        requires
            self.wf(),
            author@.len() == AUTHOR_LEN,
        ensures
            section_type@.len() > MAX_SECTION_TYPE_LEN || content_hash@.len() > MAX_HASH_LEN ==> r
                == Err::<VerifyOutcome, IPProtectorError>(IPProtectorError::InvalidInput),
            section_type@.len() <= MAX_SECTION_TYPE_LEN && content_hash@.len() <= MAX_HASH_LEN ==> (
            r matches Ok(outcome) && (match outcome {
                VerifyOutcome::NotFound => !self.key_map().contains_key(
                    section_key(author@, section_type@, content_hash@),
                ),
                VerifyOutcome::Mismatch => self.key_map().contains_key(
                    section_key(author@, section_type@, content_hash@),
                ) && !authorship_verified(self.key_map(), author@, section_type@, content_hash@),
                VerifyOutcome::Verified => authorship_verified(
                    self.key_map(),
                    author@,
                    section_type@,
                    content_hash@,
                ),
            })),
    {
        let kp = match derive_section_key(author, section_type, content_hash) {
            Ok(kp) => kp,
            Err(e) => {
                return Err(e);
            },
        };
        let key = kp.0;
        proof {
            lemma_map_of_contains(self.entries@, key@);
        }
        match self.find(&key) {
            None => Ok(VerifyOutcome::NotFound),
            Some(i) => {
                proof {
                    assert forall|j: int|
                        i < j < self.entries@.len() implies self.entries@[j].0@
                        != self.entries@[i as int].0@ by {
                        assert(0 <= i < j < self.entries@.len());
                    }
                    lemma_map_of_value(self.entries@, i as int);
                }
                match &self.entries[i].1 {
                    Record::Paper(_) => Ok(VerifyOutcome::Mismatch),
                    Record::Section(s) => {
                        if bytes_eq(&s.author, author) && bytes_eq(&s.content_hash, content_hash) {
                            Ok(VerifyOutcome::Verified)
                        } else {
                            Ok(VerifyOutcome::Mismatch)
                        }
                    },
                }
            },
        }
    }

    /// The boolean convenience form of `lookup_authorship`: `true` exactly
    /// when a section is registered at the derived key and its stored author
    /// and content fingerprint equal the queried ones.  A missing
    /// registration is a legitimate negative answer, not an error.
    pub fn verify_authorship(
        &self,
        author: &Vec<u8>,
        section_type: &Vec<u8>,
        content_hash: &Vec<u8>,
    ) -> (r: Result<bool, IPProtectorError>)
        requires
            self.wf(),
            author@.len() == AUTHOR_LEN,
        ensures
            section_type@.len() > MAX_SECTION_TYPE_LEN || content_hash@.len() > MAX_HASH_LEN ==> r
                == Err::<bool, IPProtectorError>(IPProtectorError::InvalidInput),
            section_type@.len() <= MAX_SECTION_TYPE_LEN && content_hash@.len() <= MAX_HASH_LEN ==> r
                == Ok::<bool, IPProtectorError>(
                authorship_verified(self.key_map(), author@, section_type@, content_hash@),
            ),
    {
        match self.lookup_authorship(author, section_type, content_hash) {
            Ok(VerifyOutcome::Verified) => Ok(true),
            Ok(_) => Ok(false),
            Err(e) => Err(e),
        }
    }

    /// Reads the paper record stored for (author, paper_hash), if one is
    /// there.
    pub fn get_paper(&self, author: &Vec<u8>, paper_hash: &Vec<u8>) -> (r: Option<&PaperAccount>)
        requires
            self.wf(),
            author@.len() == AUTHOR_LEN,
            paper_hash@.len() <= MAX_HASH_LEN,
        ensures
            match r {
                Some(rec) => self.key_map().contains_key(paper_key(author@, paper_hash@))
                    && self.key_map()[paper_key(author@, paper_hash@)] == RecordV::Paper(rec@),
                None => !(self.key_map().contains_key(paper_key(author@, paper_hash@))
                    && self.key_map()[paper_key(author@, paper_hash@)] is Paper),
            },
    {
        let kp = match derive_paper_key(author, paper_hash) {
            Ok(kp) => kp,
            Err(e) => {
                return None;
            },
        };
        let key = kp.0;
        proof {
            lemma_map_of_contains(self.entries@, key@);
        }
        match self.find(&key) {
            None => None,
            Some(i) => {
                proof {
                    assert forall|j: int|
                        i < j < self.entries@.len() implies self.entries@[j].0@
                        != self.entries@[i as int].0@ by {
                        assert(0 <= i < j < self.entries@.len());
                    }
                    lemma_map_of_value(self.entries@, i as int);
                }
                match &self.entries[i].1 {
                    Record::Paper(p) => Some(p),
                    Record::Section(_) => None,
                }
            },
        }
    }

    /// Reads the section record stored for (author, section_type,
    /// content_hash), if one is there.
    pub fn get_section(
        &self,
        author: &Vec<u8>,
        section_type: &Vec<u8>,
        content_hash: &Vec<u8>,
    ) -> (r: Option<&SectionAccount>)
        requires
            self.wf(),
            author@.len() == AUTHOR_LEN,
            section_type@.len() <= MAX_SECTION_TYPE_LEN,
            content_hash@.len() <= MAX_HASH_LEN,
        ensures
            match r {
                Some(rec) => self.key_map().contains_key(
                    section_key(author@, section_type@, content_hash@),
                ) && self.key_map()[section_key(author@, section_type@, content_hash@)]
                    == RecordV::Section(rec@),
                None => !(self.key_map().contains_key(
                    section_key(author@, section_type@, content_hash@),
                ) && self.key_map()[section_key(author@, section_type@, content_hash@)] is Section),
            },
    {
        let kp = match derive_section_key(author, section_type, content_hash) {
            Ok(kp) => kp,
            Err(e) => {
                return None;
            },
        };
        let key = kp.0;
        proof {
            lemma_map_of_contains(self.entries@, key@);
        }
        match self.find(&key) {
            None => None,
            Some(i) => {
                proof {
                    assert forall|j: int|
                        i < j < self.entries@.len() implies self.entries@[j].0@
                        != self.entries@[i as int].0@ by {
                        assert(0 <= i < j < self.entries@.len());
                    }
                    lemma_map_of_value(self.entries@, i as int);
                }
                match &self.entries[i].1 {
                    Record::Section(s) => Some(s),
                    Record::Paper(_) => None,
                }
            },
        }
    }
}

/// A key is in the described mapping exactly when some entry carries it.
proof fn lemma_map_of_contains(entries: Seq<(Vec<u8>, Record)>, k: Seq<u8>)
    ensures
        map_of(entries).contains_key(k) <==> exists|i: int|
            0 <= i < entries.len() && entries[i].0@ == k,
    decreases entries.len(),
{
    if entries.len() > 0 {
        lemma_map_of_contains(entries.drop_last(), k);
        if entries.last().0@ == k {
            assert(entries[entries.len() - 1].0@ == k);
        } else if map_of(entries).contains_key(k) {
            let i = choose|i: int| 0 <= i < entries.drop_last().len() && entries.drop_last()[i].0@ == k;
            assert(entries[i].0@ == k);
        } else if exists|i: int| 0 <= i < entries.len() && entries[i].0@ == k {
            let i = choose|i: int| 0 <= i < entries.len() && entries[i].0@ == k;
            assert(entries.drop_last()[i].0@ == k);
        }
    }
}

/// The mapping sends an entry's key to that entry's record, provided no later
/// entry reuses the key.
proof fn lemma_map_of_value(entries: Seq<(Vec<u8>, Record)>, i: int)
    requires
        0 <= i < entries.len(),
        forall|j: int| i < j < entries.len() ==> entries[j].0@ != entries[i].0@,
    ensures
        map_of(entries).contains_key(entries[i].0@),
        map_of(entries)[entries[i].0@] == entries[i].1@,
    decreases entries.len(),
{
    if i == entries.len() - 1 {
    } else {
        assert(entries.drop_last()[i] == entries[i]);
        lemma_map_of_value(entries.drop_last(), i);
        assert(entries.last().0@ != entries[i].0@);
    }
}

/// Byte-vector equality, decided by scanning.
fn bytes_eq(a: &Vec<u8>, b: &Vec<u8>) -> (r: bool)
    ensures
        r == (a@ == b@),
{
    if a.len() != b.len() {
        return false;
    }
    let mut i: usize = 0;
    while i < a.len()
        invariant
            a@.len() == b@.len(),
            i <= a@.len(),
            forall|j: int| 0 <= j < i ==> a@[j] == b@[j],
        decreases a@.len() - i,
    {
        if a[i] != b[i] {
            return false;
        }
        i = i + 1;
    }
    proof {
        assert(a@ =~= b@);
    }
    true
}

/// An owned copy of a byte vector.
fn bytes_clone(a: &Vec<u8>) -> (r: Vec<u8>)
    ensures
        r@ == a@,
{
    let mut r: Vec<u8> = Vec::new();
    let mut i: usize = 0;
    while i < a.len()
        invariant
            i <= a@.len(),
            r@ == a@.subrange(0, i as int),
        decreases a@.len() - i,
    {
        r.push(a[i]);
        proof {
            assert(a@.subrange(0, i + 1) =~= a@.subrange(0, i as int).push(a@[i as int]));
        }
        i = i + 1;
    }
    proof {
        assert(a@.subrange(0, a@.len() as int) =~= a@);
    }
    r
}

} // verus!
