//! Read-only projections: full records, resumes, endorser lists, the keyword
//! search and the per-account counts.

use life_and_work::ContractStorage;

fn acct(tag: u8) -> Vec<u8> {
    let mut v = vec![0u8; 32];
    v[0] = tag;
    v
}

#[test]
fn default_claim_list_is_empty() {
    let c = life_and_work::Claims::default();
    assert!(c.claims.is_empty());
}

#[test]
fn full_details_of_unknown_fingerprint_is_the_sentinel() {
    let reg = ContractStorage::new();
    let d = reg.get_full_details(vec![0x11; 32]);
    assert_eq!(d.claimtype, 0);
    assert_eq!(d.claimant, vec![0u8; 32]);
    assert_eq!(d.claim_id, vec![0u8; 32]);
    assert!(d.claim.is_empty());
    assert!(d.endorsers.is_empty());
    assert_eq!(d.endorser_count, 0);
    assert!(d.show);
}

#[test]
fn full_details_returns_the_stored_record() {
    let mut reg = ContractStorage::new();
    let alice = acct(1);
    let fp = reg
        .make_claim_expertise(
            alice.clone(),
            b"Blockchain".to_vec(),
            b"https://example.org".to_vec(),
            0,
            true,
        )
        .unwrap();
    let d = reg.get_full_details(fp.clone());
    assert_eq!(d.claimtype, 3);
    assert_eq!(d.claimant, alice);
    assert_eq!(d.claim, b"Blockchain".to_vec());
    assert_eq!(d.claim_id, fp);
    assert_eq!(d.link, b"https://example.org".to_vec());
    assert!(d.show);
}

#[test]
fn endorsers_of_unknown_fingerprint_is_empty() {
    let reg = ContractStorage::new();
    assert!(reg.get_endorsers(vec![0x11; 32]).is_empty());
}

#[test]
fn endorsers_lists_claimant_then_third_parties() {
    let mut reg = ContractStorage::new();
    let alice = acct(1);
    let bob = acct(2);
    let carol = acct(3);
    let fp = reg
        .make_claim_expertise(alice.clone(), b"Rust".to_vec(), Vec::new(), 0, true)
        .unwrap();
    assert!(reg.endorse_claim(bob.clone(), fp.clone()).is_ok());
    assert!(reg.endorse_claim(carol.clone(), fp.clone()).is_ok());
    assert_eq!(reg.get_endorsers(fp), vec![alice, bob, carol]);
}

#[test]
fn resume_concatenates_categories_in_fixed_order() {
    let mut reg = ContractStorage::new();
    let alice = acct(1);
    // Submitted in scrambled order; the resume reports work history,
    // education, expertise, good deeds, intellectual property.
    reg.make_claim_expertise(alice.clone(), b"expertise".to_vec(), Vec::new(), 0, true).unwrap();
    reg.make_claim_intellectualproperty(
        alice.clone(),
        b"ip".to_vec(),
        Vec::new(),
        vec![0x55; 32],
        0,
        true,
    )
        .unwrap();
    reg.make_claim_workhistory(alice.clone(), b"work".to_vec(), Vec::new(), 0, true).unwrap();
    reg.make_claim_gooddeed(alice.clone(), b"deed".to_vec(), Vec::new(), 0, true).unwrap();
    reg.make_claim_education(alice.clone(), b"education".to_vec(), Vec::new(), 0, true).unwrap();
    let resume = reg.get_resume(alice.clone());
    let contents: Vec<Vec<u8>> = resume.iter().map(|d| d.claim.clone()).collect();
    assert_eq!(
        contents,
        vec![
            b"work".to_vec(),
            b"education".to_vec(),
            b"expertise".to_vec(),
            b"deed".to_vec(),
            b"ip".to_vec(),
        ]
    );
    // A stranger's resume is empty.
    assert!(reg.get_resume(acct(2)).is_empty());
}

#[test]
fn keyword_search_returns_exactly_the_matching_claim() {
    let mut reg = ContractStorage::new();
    let alice = acct(1);
    let bob = acct(2);
    reg.make_claim_expertise(
        alice.clone(),
        b"Blockchain, Rust, Cryptography".to_vec(),
        Vec::new(),
        0,
        true,
    )
        .unwrap();
    reg.make_claim_expertise(bob, b"Painting".to_vec(), Vec::new(), 0, true).unwrap();
    let hits = reg.get_matching_claims(b"Blockchain".to_vec());
    assert_eq!(hits.len(), 1);
    assert_eq!(hits[0].claim, b"Blockchain, Rust, Cryptography".to_vec());
    assert_eq!(hits[0].claimant, alice);
}

#[test]
fn keyword_search_is_case_sensitive_and_literal() {
    let mut reg = ContractStorage::new();
    reg.make_claim_expertise(acct(1), b"Blockchain".to_vec(), Vec::new(), 0, true).unwrap();
    assert!(reg.get_matching_claims(b"blockchain".to_vec()).is_empty());
    assert_eq!(reg.get_matching_claims(b"lockch".to_vec()).len(), 1);
    assert!(reg.get_matching_claims(b"Blockchains".to_vec()).is_empty());
}

#[test]
fn empty_and_undecodable_queries_match_everything() {
    let mut reg = ContractStorage::new();
    reg.make_claim_expertise(acct(1), b"Blockchain".to_vec(), Vec::new(), 0, true).unwrap();
    reg.make_claim_expertise(acct(2), b"Painting".to_vec(), Vec::new(), 0, true).unwrap();
    assert_eq!(reg.get_matching_claims(Vec::new()).len(), 2);
    // A query that is not valid text counts as the empty string.
    assert_eq!(reg.get_matching_claims(vec![0xff, 0xfe]).len(), 2);
}

#[test]
fn undecodable_content_counts_as_empty_text() {
    let mut reg = ContractStorage::new();
    // The payload contains the byte of 'a' but is not valid text, so it
    // decodes to the empty string and cannot contain "a".
    reg.make_claim_expertise(acct(1), vec![0x61, 0xff], Vec::new(), 0, true).unwrap();
    assert!(reg.get_matching_claims(b"a".to_vec()).is_empty());
    assert_eq!(reg.get_matching_claims(Vec::new()).len(), 1);
}

#[test]
fn search_scans_the_ledger_in_insertion_order() {
    let mut reg = ContractStorage::new();
    reg.make_claim_expertise(acct(1), b"alpha one".to_vec(), Vec::new(), 0, true).unwrap();
    reg.make_claim_education(acct(2), b"beta".to_vec(), Vec::new(), 0, true).unwrap();
    reg.make_claim_gooddeed(acct(3), b"alpha two".to_vec(), Vec::new(), 0, true).unwrap();
    let hits = reg.get_matching_claims(b"alpha".to_vec());
    assert_eq!(hits.len(), 2);
    assert_eq!(hits[0].claim, b"alpha one".to_vec());
    assert_eq!(hits[1].claim, b"alpha two".to_vec());
}

#[test]
fn verify_account_reports_per_category_counts() {
    let mut reg = ContractStorage::new();
    let alice = acct(1);
    reg.make_claim_workhistory(alice.clone(), b"w1".to_vec(), Vec::new(), 0, true).unwrap();
    reg.make_claim_workhistory(alice.clone(), b"w2".to_vec(), Vec::new(), 0, true).unwrap();
    reg.make_claim_education(alice.clone(), b"e1".to_vec(), Vec::new(), 0, true).unwrap();
    reg.make_claim_intellectualproperty(
        alice.clone(),
        b"ip1".to_vec(),
        Vec::new(),
        vec![0x66; 32],
        0,
        true,
    )
        .unwrap();
    assert_eq!(reg.verify_account(alice), (2, 1, 0, 0, 1));
    assert_eq!(reg.verify_account(acct(2)), (0, 0, 0, 0, 0));
}
