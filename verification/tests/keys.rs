use ip_protector::errors::IPProtectorError;
use ip_protector::keys::derive_paper_key;
use ip_protector::keys::derive_section_key;

fn author(b: u8) -> Vec<u8> {
    vec![b; 32]
}

#[test]
fn derive_paper_key_is_deterministic() {
    let a = author(1);
    let h = b"h1".to_vec();
    let (k1, b1) = derive_paper_key(&a, &h).unwrap();
    let (k2, b2) = derive_paper_key(&a, &h).unwrap();
    assert_eq!(k1, k2);
    assert_eq!(b1, b2);
}

#[test]
fn derive_section_key_is_deterministic() {
    let a = author(1);
    let t = b"abstract".to_vec();
    let c = b"c1".to_vec();
    let (k1, b1) = derive_section_key(&a, &t, &c).unwrap();
    let (k2, b2) = derive_section_key(&a, &t, &c).unwrap();
    assert_eq!(k1, k2);
    assert_eq!(b1, b2);
}

#[test]
fn distinct_pairs_yield_distinct_keys() {
    let a = author(1);
    let b = author(2);
    let h1 = b"h1".to_vec();
    let h2 = b"h2".to_vec();
    let (k_a_h1, _) = derive_paper_key(&a, &h1).unwrap();
    let (k_a_h2, _) = derive_paper_key(&a, &h2).unwrap();
    let (k_b_h1, _) = derive_paper_key(&b, &h1).unwrap();
    assert_ne!(k_a_h1, k_a_h2);
    assert_ne!(k_a_h1, k_b_h1);
    assert_ne!(k_a_h2, k_b_h1);
}

#[test]
fn paper_and_section_keys_are_domain_separated() {
    let a = author(1);
    let h = b"h1".to_vec();
    let t = b"h1".to_vec();
    let (pk, _) = derive_paper_key(&a, &h).unwrap();
    let (sk, _) = derive_section_key(&a, &t, &h).unwrap();
    assert_ne!(pk, sk);
}

#[test]
fn key_is_a_digest_of_the_fields() {
    let a = author(7);
    let h = b"fingerprint".to_vec();
    let (k, bump) = derive_paper_key(&a, &h).unwrap();
    assert_eq!(k.len(), 32);
    assert_eq!(bump, 255);
    // The key is not any of the inputs handed to the derivation.
    assert_ne!(k, a);
    assert_ne!(k, h);
}

#[test]
fn paper_hash_bound_is_enforced() {
    let a = author(1);
    let too_long = vec![9u8; 65];
    assert!(matches!(
        derive_paper_key(&a, &too_long),
        Err(IPProtectorError::InvalidInput)
    ));
    let at_bound = vec![9u8; 64];
    assert!(derive_paper_key(&a, &at_bound).is_ok());
}

#[test]
fn section_bounds_are_enforced() {
    let a = author(1);
    let c = b"c1".to_vec();
    let type_too_long = vec![7u8; 33];
    assert!(matches!(
        derive_section_key(&a, &type_too_long, &c),
        Err(IPProtectorError::InvalidInput)
    ));
    let type_at_bound = vec![7u8; 32];
    assert!(derive_section_key(&a, &type_at_bound, &c).is_ok());
    let content_too_long = vec![8u8; 65];
    assert!(matches!(
        derive_section_key(&a, &type_at_bound, &content_too_long),
        Err(IPProtectorError::InvalidInput)
    ));
    let content_at_bound = vec![8u8; 64];
    assert!(derive_section_key(&a, &type_at_bound, &content_at_bound).is_ok());
}
