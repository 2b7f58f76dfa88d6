use ip_protector::errors::IPProtectorError;
use ip_protector::registry::Registry;
use ip_protector::registry::VerifyOutcome;

fn author(b: u8) -> Vec<u8> {
    vec![b; 32]
}

#[test]
fn scenario_repeat_paper_registration_is_rejected() {
    let mut reg = Registry::new();
    let a = author(1);
    let h1 = b"h1".to_vec();

    let rec = reg.initialize_paper(&a, &h1, 3, 100).unwrap();
    assert_eq!(rec.author, a);
    assert_eq!(rec.paper_hash, h1);
    assert_eq!(rec.sections_count, 3);
    assert_eq!(rec.created_at, 100);
    assert_eq!(rec.bump, 255);

    let again = reg.initialize_paper(&a, &h1, 5, 200);
    assert!(matches!(again, Err(IPProtectorError::AlreadyRegistered)));

    // The first record is untouched by the rejected attempt.
    let stored = reg.get_paper(&a, &h1).unwrap();
    assert_eq!(stored.sections_count, 3);
    assert_eq!(stored.created_at, 100);
}

#[test]
fn scenario_registered_section_verifies() {
    let mut reg = Registry::new();
    let a = author(1);
    let b = author(2);
    let t = b"abstract".to_vec();
    let c = b"c1".to_vec();
    let summary = b"...".to_vec();

    reg.create_section_token(&a, &t, &c, 90, &summary, 500).unwrap();
    assert_eq!(reg.verify_authorship(&a, &t, &c), Ok(true));
    assert_eq!(reg.verify_authorship(&b, &t, &c), Ok(false));
}

#[test]
fn scenario_empty_store_verifies_nothing() {
    let reg = Registry::new();
    let a = author(1);
    let t = b"intro".to_vec();
    let c = b"unknown".to_vec();
    assert_eq!(reg.verify_authorship(&a, &t, &c), Ok(false));
    assert_eq!(reg.lookup_authorship(&a, &t, &c), Ok(VerifyOutcome::NotFound));
}

#[test]
fn oversized_paper_hash_is_rejected_before_any_write() {
    let mut reg = Registry::new();
    let a = author(1);
    let too_long = vec![9u8; 65];
    assert!(matches!(
        reg.initialize_paper(&a, &too_long, 3, 100),
        Err(IPProtectorError::InvalidInput)
    ));

    // The rejected attempt occupied nothing: a fresh registration with an
    // accepted fingerprint succeeds.
    let at_bound = vec![9u8; 64];
    assert!(reg.initialize_paper(&a, &at_bound, 3, 100).is_ok());
}

#[test]
fn oversized_summary_is_rejected() {
    let mut reg = Registry::new();
    let a = author(1);
    let t = b"methods".to_vec();
    let c = b"c9".to_vec();
    let too_long = vec![0u8; 501];
    assert!(matches!(
        reg.create_section_token(&a, &t, &c, 10, &too_long, 100),
        Err(IPProtectorError::InvalidInput)
    ));
    let at_bound = vec![0u8; 500];
    assert!(reg.create_section_token(&a, &t, &c, 10, &at_bound, 100).is_ok());
}

#[test]
fn section_record_stores_all_fields() {
    let mut reg = Registry::new();
    let a = author(3);
    let t = b"results".to_vec();
    let c = b"c7".to_vec();
    let summary = b"key findings".to_vec();

    reg.create_section_token(&a, &t, &c, 77, &summary, 4242).unwrap();
    let stored = reg.get_section(&a, &t, &c).unwrap();
    assert_eq!(stored.author, a);
    assert_eq!(stored.section_type, t);
    assert_eq!(stored.content_hash, c);
    assert_eq!(stored.uniqueness_score, 77);
    assert_eq!(stored.summary, summary);
    assert_eq!(stored.created_at, 4242);
    assert_eq!(stored.bump, 255);
}

#[test]
fn verification_distinguishes_every_query_field() {
    let mut reg = Registry::new();
    let a = author(1);
    let t = b"abstract".to_vec();
    let c = b"c1".to_vec();
    let summary = b"...".to_vec();
    reg.create_section_token(&a, &t, &c, 90, &summary, 100).unwrap();

    // Different section type, same author and content.
    let other_type = b"intro".to_vec();
    assert_eq!(reg.verify_authorship(&a, &other_type, &c), Ok(false));
    // Different content, same author and type.
    let other_content = b"c2".to_vec();
    assert_eq!(reg.verify_authorship(&a, &t, &other_content), Ok(false));
    assert_eq!(
        reg.lookup_authorship(&a, &t, &other_content),
        Ok(VerifyOutcome::NotFound)
    );
    // The registered query still verifies.
    assert_eq!(reg.verify_authorship(&a, &t, &c), Ok(true));
}

#[test]
fn paper_and_section_registrations_do_not_contend() {
    let mut reg = Registry::new();
    let a = author(1);
    let h = b"shared".to_vec();
    let summary = b"s".to_vec();

    assert!(reg.initialize_paper(&a, &h, 2, 100).is_ok());
    // A section whose fields echo the paper's still gets its own slot.
    assert!(reg.create_section_token(&a, &h, &h, 1, &summary, 100).is_ok());
    assert_eq!(reg.verify_authorship(&a, &h, &h), Ok(true));
    assert_eq!(reg.get_paper(&a, &h).unwrap().sections_count, 2);
}

#[test]
fn same_content_under_two_authors_is_two_records() {
    let mut reg = Registry::new();
    let a = author(1);
    let b = author(2);
    let t = b"abstract".to_vec();
    let c = b"c1".to_vec();
    let summary = b"...".to_vec();

    reg.create_section_token(&a, &t, &c, 90, &summary, 100).unwrap();
    reg.create_section_token(&b, &t, &c, 90, &summary, 200).unwrap();
    assert_eq!(reg.verify_authorship(&a, &t, &c), Ok(true));
    assert_eq!(reg.verify_authorship(&b, &t, &c), Ok(true));
    assert_eq!(reg.get_section(&a, &t, &c).unwrap().created_at, 100);
    assert_eq!(reg.get_section(&b, &t, &c).unwrap().created_at, 200);
}
