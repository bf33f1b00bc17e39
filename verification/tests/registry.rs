//! Submission, endorsement and visibility behaviour of the registry.

use life_and_work::ContractStorage;
use life_and_work::Error;
use life_and_work::Event;
use sha2::Digest;

fn acct(tag: u8) -> Vec<u8> {
    let mut v = vec![0u8; 32];
    v[0] = tag;
    v[31] = 7;
    v
}

fn acct2(hi: u8, lo: u8) -> Vec<u8> {
    let mut v = vec![0u8; 32];
    v[0] = hi;
    v[1] = lo;
    v[31] = 9;
    v
}

#[test]
fn duplicate_submission_rejected() {
    let mut reg = ContractStorage::new();
    let alice = acct(1);
    let content = b"CTO @ Wave Technologies".to_vec();
    let link = b"https://example.org/cv".to_vec();
    let r1 = reg.make_claim_workhistory(alice.clone(), content.clone(), link.clone(), 0, true);
    assert!(r1.is_ok());
    let before_ledger = reg.ledger_len();
    let before_counts = reg.verify_account(alice.clone());
    let r2 = reg.make_claim_workhistory(alice.clone(), content.clone(), link, 0, true);
    assert_eq!(r2, Err(Error::DuplicateClaim));
    assert_eq!(reg.ledger_len(), before_ledger);
    assert_eq!(reg.verify_account(alice), before_counts);
}

#[test]
fn same_content_distinct_callers_both_succeed() {
    let mut reg = ContractStorage::new();
    let alice = acct(1);
    let bob = acct(2);
    let content = b"Blockchain".to_vec();
    let fp_a = reg
        .make_claim_expertise(alice, content.clone(), Vec::new(), 0, true)
        .unwrap();
    let fp_b = reg
        .make_claim_expertise(bob, content.clone(), Vec::new(), 0, true)
        .unwrap();
    assert_ne!(fp_a, fp_b);
    assert_eq!(fp_a.len(), 32);
    assert_eq!(fp_b.len(), 32);
    // The fingerprint is a digest of caller and content, not the content
    // itself.
    assert_ne!(fp_a, content);
    assert_eq!(reg.ledger_len(), 2);
}

#[test]
fn fingerprint_is_sha256_of_scale_encoding() {
    let mut reg = ContractStorage::new();
    let alice = acct(1);
    let content = b"PhD Math".to_vec();
    let fp = reg
        .make_claim_education(alice.clone(), content.clone(), Vec::new(), 0, true)
        .unwrap();
    // SCALE encoding of (AccountId, Vec<u8>): 32 raw bytes, then the compact
    // length prefix (four times the length, for short vectors), then the
    // payload bytes.
    let mut enc = alice.clone();
    enc.push((content.len() as u8) << 2);
    enc.extend_from_slice(&content);
    let digest = sha2::Sha256::digest(&enc);
    assert_eq!(fp, digest.to_vec());
}

#[test]
fn endorser_count_excludes_claimant() {
    let mut reg = ContractStorage::new();
    let alice = acct(1);
    let bob = acct(2);
    let fp = reg
        .make_claim_expertise(alice.clone(), b"Rust".to_vec(), Vec::new(), 0, true)
        .unwrap();
    let fresh = reg.get_full_details(fp.clone());
    assert_eq!(fresh.endorser_count, 0);
    assert_eq!(fresh.endorsers, vec![alice.clone()]);
    assert!(reg.endorse_claim(bob.clone(), fp.clone()).is_ok());
    let d = reg.get_full_details(fp.clone());
    assert_eq!(d.endorser_count, 1);
    assert_eq!(d.endorsers.len(), 2);
    assert_eq!(d.endorser_count as usize, d.endorsers.len() - 1);
    assert_eq!(d.endorsers[0], alice);
    assert_eq!(d.endorsers[1], bob);
}

#[test]
fn claimant_cannot_endorse_own_claim_twice() {
    let mut reg = ContractStorage::new();
    let alice = acct(1);
    let fp = reg
        .make_claim_gooddeed(alice.clone(), b"helped".to_vec(), Vec::new(), 0, true)
        .unwrap();
    // The claimant is recorded as the first endorser at creation, so their
    // own endorsement is a duplicate.
    assert_eq!(reg.endorse_claim(alice, fp), Err(Error::DuplicateEndorsement));
}

#[test]
fn duplicate_endorsement_rejected() {
    let mut reg = ContractStorage::new();
    let alice = acct(1);
    let bob = acct(2);
    let fp = reg
        .make_claim_expertise(alice, b"Rust".to_vec(), Vec::new(), 0, true)
        .unwrap();
    assert!(reg.endorse_claim(bob.clone(), fp.clone()).is_ok());
    let before = reg.get_full_details(fp.clone());
    let r = reg.endorse_claim(bob, fp.clone());
    assert_eq!(r, Err(Error::DuplicateEndorsement));
    let after = reg.get_full_details(fp);
    assert_eq!(after.endorsers, before.endorsers);
    assert_eq!(after.endorser_count, before.endorser_count);
}

#[test]
fn endorsing_unknown_claim_fails() {
    let mut reg = ContractStorage::new();
    let r = reg.endorse_claim(acct(2), vec![0xab; 32]);
    assert_eq!(r, Err(Error::NonexistentClaim));
}

#[test]
fn endorsement_at_capacity_keeps_record_but_logs_event() {
    let mut reg = ContractStorage::new();
    let alice = acct(1);
    let fp = reg
        .make_claim_expertise(alice, b"Rust".to_vec(), Vec::new(), 0, true)
        .unwrap();
    // Fill the endorser list to its capacity of 491 entries: the claimant
    // plus 490 third parties.
    for i in 0..490u32 {
        let who = acct2((i / 256) as u8 + 1, (i % 256) as u8);
        assert!(reg.endorse_claim(who, fp.clone()).is_ok());
    }
    let full = reg.get_full_details(fp.clone());
    assert_eq!(full.endorsers.len(), 491);
    assert_eq!(full.endorser_count, 490);
    let events_before = reg.event_log().len();
    // One more endorsement is acknowledged on the event log but leaves the
    // stored record unchanged.
    let extra = acct2(250, 250);
    assert!(reg.endorse_claim(extra.clone(), fp.clone()).is_ok());
    let after = reg.get_full_details(fp.clone());
    assert_eq!(after.endorsers.len(), 491);
    assert_eq!(after.endorser_count, 490);
    assert_eq!(reg.event_log().len(), events_before + 1);
    match &reg.event_log()[events_before] {
        Event::Endorsed(e) => {
            assert_eq!(e.endorser, extra);
            assert_eq!(e.claim_id, fp);
        },
        _ => panic!("expected an endorsement event"),
    }
}

#[test]
fn visibility_denied_to_non_claimant() {
    let mut reg = ContractStorage::new();
    let alice = acct(1);
    let bob = acct(2);
    let fp = reg
        .make_claim_expertise(alice.clone(), b"Rust".to_vec(), Vec::new(), 0, true)
        .unwrap();
    let r = reg.show_or_hide_claim(bob, fp.clone(), false);
    assert_eq!(r, Err(Error::CallerNotOwner));
    assert!(reg.get_full_details(fp.clone()).show);
    // The claimant may toggle the flag.
    assert!(reg.show_or_hide_claim(alice, fp.clone(), false).is_ok());
    assert!(!reg.get_full_details(fp).show);
}

#[test]
fn visibility_on_unknown_claim_fails() {
    let mut reg = ContractStorage::new();
    let r = reg.show_or_hide_claim(acct(1), vec![0xcd; 32], true);
    assert_eq!(r, Err(Error::CallerNotOwner));
}

#[test]
fn account_index_capacity_bound() {
    let mut reg = ContractStorage::new();
    let alice = acct(1);
    // The 491st submission in one category succeeds, the 492nd fails.
    for i in 0..491u32 {
        let content = i.to_be_bytes().to_vec();
        let r = reg.make_claim_expertise(alice.clone(), content, Vec::new(), 0, true);
        assert!(r.is_ok());
    }
    let counts = reg.verify_account(alice.clone());
    assert_eq!(counts.2, 491);
    let r = reg.make_claim_expertise(alice.clone(), b"one too many".to_vec(), Vec::new(), 0, true);
    assert_eq!(r, Err(Error::DataTooLarge));
    assert_eq!(reg.verify_account(alice).2, 491);
}

#[test]
fn empty_content_is_accepted() {
    let mut reg = ContractStorage::new();
    let alice = acct(1);
    let fp = reg.make_claim_expertise(alice.clone(), Vec::new(), Vec::new(), 0, true).unwrap();
    assert_eq!(fp.len(), 32);
    let d = reg.get_full_details(fp);
    assert!(d.claim.is_empty());
    assert_eq!(d.claimant, alice);
}

#[test]
fn duplicate_ip_fingerprint_rejected_across_callers() {
    let mut reg = ContractStorage::new();
    let fp = vec![0x42; 32];
    let r1 = reg.make_claim_intellectualproperty(
        acct(1),
        b"mine".to_vec(),
        Vec::new(),
        fp.clone(),
        0,
        true,
    );
    assert!(r1.is_ok());
    // The same file hash cannot be claimed again, not even by someone else.
    let r2 = reg.make_claim_intellectualproperty(
        acct(2),
        b"also mine".to_vec(),
        Vec::new(),
        fp,
        0,
        true,
    );
    assert_eq!(r2, Err(Error::DuplicateClaim));
}

#[test]
fn claim_made_events_carry_category_and_fingerprint() {
    let mut reg = ContractStorage::new();
    let alice = acct(1);
    let fp = reg
        .make_claim_intellectualproperty(
            alice.clone(),
            b"my novel".to_vec(),
            b"ipfs://x".to_vec(),
            vec![0x42; 32],
            0,
            true,
        )
        .unwrap();
    assert_eq!(fp, vec![0x42; 32]);
    assert_eq!(reg.event_log().len(), 1);
    match &reg.event_log()[0] {
        Event::IntellectualProperty(e) => {
            assert_eq!(e.claimant, alice);
            assert_eq!(e.claim, b"my novel".to_vec());
            assert_eq!(e.claim_id, fp);
        },
        _ => panic!("expected an intellectual-property claim event"),
    }
}
