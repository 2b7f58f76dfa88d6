use vstd::prelude::*;

use crate::errors::IPProtectorError;
use crate::hashing::digest_of;
use crate::hashing::sha256;

verus! {

/// Length of an author identity (a 32-byte public key).
pub const AUTHOR_LEN: usize = 32;

/// Longest accepted paper or section content fingerprint, in bytes.
pub const MAX_HASH_LEN: usize = 64;

/// Longest accepted section type label, in bytes.
pub const MAX_SECTION_TYPE_LEN: usize = 32;

/// Longest accepted section summary, in bytes.
pub const MAX_SUMMARY_LEN: usize = 500;

/// The disambiguation value appended to every seed before hashing.  It is
/// returned alongside the key and stored in the record, so the record itself
/// carries everything needed to re-derive its own key.
pub const CANONICAL_BUMP: u8 = 255;

/// A field as it enters a derivation seed: its length in one byte, then its
/// bytes.  The length prefix is what makes the whole seed an injective
/// function of its fields (for fields of at most 255 bytes).
pub open spec fn field_enc(f: Seq<u8>) -> Seq<u8> {
    seq![f.len() as u8] + f
}

/// The domain separator for paper records ("paper" in ASCII).
pub open spec fn paper_tag() -> Seq<u8> {
    seq![112u8, 97u8, 112u8, 101u8, 114u8]
}

/// The domain separator for section records ("section" in ASCII).
pub open spec fn section_tag() -> Seq<u8> {
    seq![115u8, 101u8, 99u8, 116u8, 105u8, 111u8, 110u8]
}

/// The digest preimage for a paper key: domain separator, author identity and
/// paper fingerprint, each length-prefixed.
pub open spec fn paper_seed(author: Seq<u8>, paper_hash: Seq<u8>) -> Seq<u8> {
    field_enc(paper_tag()) + field_enc(author) + field_enc(paper_hash)
}

/// The digest preimage for a section key: domain separator, author identity,
/// section type and content fingerprint, each length-prefixed.
pub open spec fn section_seed(author: Seq<u8>, section_type: Seq<u8>, content_hash: Seq<u8>) -> Seq<u8> {
    field_enc(section_tag()) + field_enc(author) + field_enc(section_type) + field_enc(content_hash)
}

/// The storage key of the paper record for (author, paper_hash).
pub open spec fn paper_key(author: Seq<u8>, paper_hash: Seq<u8>) -> Seq<u8> {
    digest_of(paper_seed(author, paper_hash).push(CANONICAL_BUMP))
}

/// The storage key of the section record for (author, section_type, content_hash).
pub open spec fn section_key(author: Seq<u8>, section_type: Seq<u8>, content_hash: Seq<u8>) -> Seq<u8> {
    digest_of(section_seed(author, section_type, content_hash).push(CANONICAL_BUMP))
}

/// Two paper seeds agree only when their fields agree: the length-prefixed
/// encoding is injective over authors of `AUTHOR_LEN` bytes and fingerprints
/// of at most `MAX_HASH_LEN` bytes.
pub proof fn lemma_paper_seed_injective(a1: Seq<u8>, h1: Seq<u8>, a2: Seq<u8>, h2: Seq<u8>)
    requires
        a1.len() == AUTHOR_LEN,
        a2.len() == AUTHOR_LEN,
        h1.len() <= MAX_HASH_LEN,
        h2.len() <= MAX_HASH_LEN,
        paper_seed(a1, h1) == paper_seed(a2, h2),
    ensures
        a1 == a2,
        h1 == h2,
{
    let s1 = paper_seed(a1, h1);
    let s2 = paper_seed(a2, h2);
    assert(s1.len() == 40 + h1.len());
    assert(s2.len() == 40 + h2.len());
    assert forall|i: int| 0 <= i < 32 implies a1[i] == a2[i] by {
        assert(s1[7 + i] == a1[i]);
        assert(s2[7 + i] == a2[i]);
    }
    assert(a1 =~= a2);
    assert forall|i: int| 0 <= i < h1.len() implies h1[i] == h2[i] by {
        assert(s1[40 + i] == h1[i]);
        assert(s2[40 + i] == h2[i]);
    }
    assert(h1 =~= h2);
}

/// Two section seeds agree only when their fields agree, by the same
/// length-prefix argument; the length byte in front of the section type pins
/// the boundary between the two variable-length fields.
pub proof fn lemma_section_seed_injective(
    a1: Seq<u8>,
    t1: Seq<u8>,
    c1: Seq<u8>,
    a2: Seq<u8>,
    t2: Seq<u8>,
    c2: Seq<u8>,
)
    requires
        a1.len() == AUTHOR_LEN,
        a2.len() == AUTHOR_LEN,
        t1.len() <= MAX_SECTION_TYPE_LEN,
        t2.len() <= MAX_SECTION_TYPE_LEN,
        c1.len() <= MAX_HASH_LEN,
        c2.len() <= MAX_HASH_LEN,
        section_seed(a1, t1, c1) == section_seed(a2, t2, c2),
    ensures
        a1 == a2,
        t1 == t2,
        c1 == c2,
{
    let s1 = section_seed(a1, t1, c1);
    let s2 = section_seed(a2, t2, c2);
    assert(s1.len() == 43 + t1.len() + c1.len());
    assert(s2.len() == 43 + t2.len() + c2.len());
    assert(s1[41] == t1.len() as u8);
    assert(s2[41] == t2.len() as u8);
    assert(t1.len() == t2.len());
    assert(c1.len() == c2.len());
    assert forall|i: int| 0 <= i < 32 implies a1[i] == a2[i] by {
        assert(s1[9 + i] == a1[i]);
        assert(s2[9 + i] == a2[i]);
    }
    assert(a1 =~= a2);
    assert forall|i: int| 0 <= i < t1.len() implies t1[i] == t2[i] by {
        assert(s1[42 + i] == t1[i]);
        assert(s2[42 + i] == t2[i]);
    }
    assert(t1 =~= t2);
    assert forall|i: int| 0 <= i < c1.len() implies c1[i] == c2[i] by {
        assert(s1[43 + t1.len() + i] == c1[i]);
        assert(s2[43 + t2.len() + i] == c2[i]);
    }
    assert(c1 =~= c2);
}

/// A paper seed is never a section seed: the two domain separators differ in
/// their very first (length) byte, so the two kinds of record can never
/// contend for one digest preimage.
pub proof fn lemma_seed_domain_separation(
    a1: Seq<u8>,
    h1: Seq<u8>,
    a2: Seq<u8>,
    t2: Seq<u8>,
    c2: Seq<u8>,
)
    ensures
        paper_seed(a1, h1) != section_seed(a2, t2, c2),
{
    assert(paper_seed(a1, h1)[0] == 5u8);
    assert(section_seed(a2, t2, c2)[0] == 7u8);
}

/// Key separation: distinct (author, paper_hash) pairs always produce
/// distinct digest preimages, so their storage keys coincide only if SHA-256
/// itself collides on those two distinct preimages.
pub proof fn lemma_paper_key_separation(a1: Seq<u8>, h1: Seq<u8>, a2: Seq<u8>, h2: Seq<u8>)
    requires
        a1.len() == AUTHOR_LEN,
        a2.len() == AUTHOR_LEN,
        h1.len() <= MAX_HASH_LEN,
        h2.len() <= MAX_HASH_LEN,
        a1 != a2 || h1 != h2,
    ensures
        paper_seed(a1, h1).push(CANONICAL_BUMP) != paper_seed(a2, h2).push(CANONICAL_BUMP),
{
    let s1 = paper_seed(a1, h1);
    let s2 = paper_seed(a2, h2);
    if s1.push(CANONICAL_BUMP) == s2.push(CANONICAL_BUMP) {
        assert(s1.push(CANONICAL_BUMP).len() == s1.len() + 1);
        assert(s2.push(CANONICAL_BUMP).len() == s2.len() + 1);
        assert(s1 =~= s2) by {
            assert forall|i: int| 0 <= i < s1.len() implies s1[i] == s2[i] by {
                assert(s1.push(CANONICAL_BUMP)[i] == s1[i]);
                assert(s2.push(CANONICAL_BUMP)[i] == s2[i]);
            }
        }
        lemma_paper_seed_injective(a1, h1, a2, h2);
    }
}

/// Key separation for sections: distinct (author, section_type, content_hash)
/// triples always produce distinct digest preimages.
pub proof fn lemma_section_key_separation(
    a1: Seq<u8>,
    t1: Seq<u8>,
    c1: Seq<u8>,
    a2: Seq<u8>,
    t2: Seq<u8>,
    c2: Seq<u8>,
)
    requires
        a1.len() == AUTHOR_LEN,
        a2.len() == AUTHOR_LEN,
        t1.len() <= MAX_SECTION_TYPE_LEN,
        t2.len() <= MAX_SECTION_TYPE_LEN,
        c1.len() <= MAX_HASH_LEN,
        c2.len() <= MAX_HASH_LEN,
        a1 != a2 || t1 != t2 || c1 != c2,
    ensures
        section_seed(a1, t1, c1).push(CANONICAL_BUMP) != section_seed(a2, t2, c2).push(
            CANONICAL_BUMP,
        ),
{
    let s1 = section_seed(a1, t1, c1);
    let s2 = section_seed(a2, t2, c2);
    if s1.push(CANONICAL_BUMP) == s2.push(CANONICAL_BUMP) {
        assert(s1.push(CANONICAL_BUMP).len() == s1.len() + 1);
        assert(s2.push(CANONICAL_BUMP).len() == s2.len() + 1);
        assert(s1 =~= s2) by {
            assert forall|i: int| 0 <= i < s1.len() implies s1[i] == s2[i] by {
                assert(s1.push(CANONICAL_BUMP)[i] == s1[i]);
                assert(s2.push(CANONICAL_BUMP)[i] == s2[i]);
            }
        }
        lemma_section_seed_injective(a1, t1, c1, a2, t2, c2);
    }
}

/// Appends one length-prefixed field to a seed under construction.
fn push_field(out: &mut Vec<u8>, field: &Vec<u8>)
    requires
        field@.len() <= 255,
    ensures
        final(out)@ == old(out)@ + field_enc(field@),
{
    out.push(field.len() as u8);
    let mut i: usize = 0;
    while i < field.len()
        invariant
            field@.len() <= 255,
            i <= field@.len(),
            out@ == old(out)@ + seq![field@.len() as u8] + field@.subrange(0, i as int),
        decreases field@.len() - i,
    {
        out.push(field[i]);
        proof {
            assert(field@.subrange(0, i + 1) =~= field@.subrange(0, i as int).push(field@[i as int]));
        }
        i = i + 1;
    }
    proof {
        assert(field@.subrange(0, field@.len() as int) =~= field@);
        assert(out@ =~= old(out)@ + field_enc(field@));
    }
}

/// The paper domain separator as bytes.
fn paper_tag_bytes() -> (r: Vec<u8>)
    ensures
        r@ == paper_tag(),
{
    let mut t: Vec<u8> = Vec::new();
    t.push(112u8);
    t.push(97u8);
    t.push(112u8);
    t.push(101u8);
    t.push(114u8);
    proof {
        assert(t@ =~= paper_tag());
    }
    t
}

/// The section domain separator as bytes.
fn section_tag_bytes() -> (r: Vec<u8>)
    ensures
        r@ == section_tag(),
{
    let mut t: Vec<u8> = Vec::new();
    t.push(115u8);
    t.push(101u8);
    t.push(99u8);
    t.push(116u8);
    t.push(105u8);
    t.push(111u8);
    t.push(110u8);
    proof {
        assert(t@ =~= section_tag());
    }
    t
}

/// Derives the storage key for the paper record of (author, paper_hash),
/// together with the disambiguation value needed to re-derive it.
///
/// Rejects a fingerprint longer than `MAX_HASH_LEN` bytes with
/// `InvalidInput`; on every accepted input it returns exactly the key
/// `paper_key(author@, paper_hash@)`, so two calls on the same fields always
/// agree.
pub fn derive_paper_key(author: &Vec<u8>, paper_hash: &Vec<u8>) -> (r: Result<(Vec<u8>, u8), IPProtectorError>)
    requires
        author@.len() == AUTHOR_LEN,
    ensures
        paper_hash@.len() > MAX_HASH_LEN ==> r == Err::<(Vec<u8>, u8), IPProtectorError>(
            IPProtectorError::InvalidInput,
        ),
        paper_hash@.len() <= MAX_HASH_LEN ==> (r matches Ok(kp) && kp.0@ == paper_key(
            author@,
            paper_hash@,
        ) && kp.1 == CANONICAL_BUMP),
{
    if paper_hash.len() > MAX_HASH_LEN {
        return Err(IPProtectorError::InvalidInput);
    }
    let tag = paper_tag_bytes();
    let mut seed: Vec<u8> = Vec::new();
    push_field(&mut seed, &tag);
    push_field(&mut seed, author);
    push_field(&mut seed, paper_hash);
    seed.push(CANONICAL_BUMP);
    proof {
        assert(seed@ =~= paper_seed(author@, paper_hash@).push(CANONICAL_BUMP));
    }
    let key = sha256(&seed);
    Ok((key, CANONICAL_BUMP))
}

/// Derives the storage key for the section record of (author, section_type,
/// content_hash), together with the disambiguation value needed to re-derive
/// it.
///
/// Rejects a type label longer than `MAX_SECTION_TYPE_LEN` bytes or a
/// fingerprint longer than `MAX_HASH_LEN` bytes with `InvalidInput`; on every
/// accepted input it returns exactly the key
/// `section_key(author@, section_type@, content_hash@)`.
pub fn derive_section_key(
    author: &Vec<u8>,
    section_type: &Vec<u8>,
    content_hash: &Vec<u8>,
) -> (r: Result<(Vec<u8>, u8), IPProtectorError>)
    requires
        author@.len() == AUTHOR_LEN,
    ensures
        section_type@.len() > MAX_SECTION_TYPE_LEN || content_hash@.len() > MAX_HASH_LEN ==> r
            == Err::<(Vec<u8>, u8), IPProtectorError>(IPProtectorError::InvalidInput),
        section_type@.len() <= MAX_SECTION_TYPE_LEN && content_hash@.len() <= MAX_HASH_LEN ==> (
        r matches Ok(kp) && kp.0@ == section_key(author@, section_type@, content_hash@) && kp.1
            == CANONICAL_BUMP),
{
    if section_type.len() > MAX_SECTION_TYPE_LEN || content_hash.len() > MAX_HASH_LEN {
        return Err(IPProtectorError::InvalidInput);
    }
    let tag = section_tag_bytes();
    let mut seed: Vec<u8> = Vec::new();
    push_field(&mut seed, &tag);
    push_field(&mut seed, author);
    push_field(&mut seed, section_type);
    push_field(&mut seed, content_hash);
    seed.push(CANONICAL_BUMP);
    proof {
        assert(seed@ =~= section_seed(author@, section_type@, content_hash@).push(CANONICAL_BUMP));
    }
    let key = sha256(&seed);
    Ok((key, CANONICAL_BUMP))
}

} // verus!
