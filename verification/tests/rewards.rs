//! The reward controller: root administration, the deterministic trigger,
//! and the information-hiding settings query.

use life_and_work::ContractStorage;
use life_and_work::Error;
use life_and_work::Event;

fn acct(tag: u8) -> Vec<u8> {
    let mut v = vec![0u8; 32];
    v[0] = tag;
    v
}

fn reward_events(reg: &ContractStorage) -> usize {
    let mut n = 0;
    let log = reg.event_log();
    let mut i = 0;
    while i < log.len() {
        if matches!(log[i], Event::Rewarded(_)) {
            n += 1;
        }
        i += 1;
    }
    n
}

#[test]
fn root_can_be_claimed_once_then_rotated_only_by_itself() {
    let mut reg = ContractStorage::new();
    let root = acct(9);
    let intruder = acct(8);
    assert!(reg.set_reward_roots(root.clone(), root.clone()).is_ok());
    assert_eq!(
        reg.set_reward_roots(intruder.clone(), intruder.clone()),
        Err(Error::PermissionDenied)
    );
    // The current root may rotate to a new account.
    let newroot = acct(7);
    assert!(reg.set_reward_roots(root.clone(), newroot.clone()).is_ok());
    assert_eq!(reg.set_reward_roots(root, acct(6)), Err(Error::PermissionDenied));
    assert!(reg.set_reward_roots(newroot.clone(), newroot).is_ok());
}

#[test]
fn configure_and_fund_are_root_only() {
    let mut reg = ContractStorage::new();
    let root = acct(9);
    let other = acct(8);
    assert!(reg.set_reward_roots(root.clone(), root.clone()).is_ok());
    assert_eq!(reg.set_reward(other.clone(), 1, 5, 100), Err(Error::PermissionDenied));
    assert_eq!(reg.add_reward_balance(other, 1000), Err(Error::PermissionDenied));
    assert!(reg.set_reward(root.clone(), 1, 5, 100).is_ok());
    assert!(reg.add_reward_balance(root.clone(), 1000).is_ok());
    let s = reg.get_reward_settings(root);
    assert_eq!(s.reward_on, 1);
    assert_eq!(s.reward_interval, 5);
    assert_eq!(s.reward_amount, 100);
    assert_eq!(s.reward_balance, 1000);
}

#[test]
fn interval_of_five_pays_exactly_on_the_fifth_claim() {
    let mut reg = ContractStorage::new();
    let root = acct(9);
    assert!(reg.set_reward_roots(root.clone(), root.clone()).is_ok());
    assert!(reg.set_reward(root.clone(), 1, 5, 100).is_ok());
    assert!(reg.add_reward_balance(root.clone(), 1000).is_ok());
    let alice = acct(1);
    let balance: u128 = 10_000;
    for i in 0..4u32 {
        let due = reg.reward_due(balance);
        assert_eq!(due, None);
        let r = reg.make_claim_expertise(
            alice.clone(),
            i.to_be_bytes().to_vec(),
            Vec::new(),
            balance,
            true,
        );
        assert!(r.is_ok());
        assert_eq!(reward_events(&reg), 0);
    }
    // The fifth accepted claim triggers exactly one payout.
    assert_eq!(reg.reward_due(balance), Some(100));
    let r = reg.make_claim_expertise(alice.clone(), b"fifth".to_vec(), Vec::new(), balance, true);
    assert!(r.is_ok());
    assert_eq!(reward_events(&reg), 1);
    let s = reg.get_reward_settings(root);
    assert_eq!(s.reward_balance, 900);
    assert_eq!(s.reward_payouts, 100);
    assert_eq!(s.claim_counter, 5);
}

#[test]
fn failed_transfer_aborts_the_triggering_submission() {
    let mut reg = ContractStorage::new();
    let root = acct(9);
    assert!(reg.set_reward_roots(root.clone(), root.clone()).is_ok());
    assert!(reg.set_reward(root.clone(), 1, 1, 100).is_ok());
    assert!(reg.add_reward_balance(root.clone(), 1000).is_ok());
    let alice = acct(1);
    let r = reg.make_claim_expertise(alice.clone(), b"a".to_vec(), Vec::new(), 10_000, false);
    assert_eq!(r, Err(Error::PayoutFailed));
    // Nothing happened: the claim was not registered and no funds moved.
    assert_eq!(reg.ledger_len(), 0);
    let s = reg.get_reward_settings(root);
    assert_eq!(s.reward_balance, 1000);
    assert_eq!(s.reward_payouts, 0);
    assert_eq!(s.claim_counter, 0);
}

#[test]
fn zero_interval_never_triggers() {
    let mut reg = ContractStorage::new();
    let root = acct(9);
    assert!(reg.set_reward_roots(root.clone(), root.clone()).is_ok());
    assert!(reg.set_reward(root.clone(), 1, 0, 100).is_ok());
    assert!(reg.add_reward_balance(root, 1000).is_ok());
    let alice = acct(1);
    for i in 0..3u32 {
        assert!(reg.reward_due(10_000).is_none());
        let r = reg.make_claim_expertise(
            alice.clone(),
            i.to_be_bytes().to_vec(),
            Vec::new(),
            10_000,
            true,
        );
        assert!(r.is_ok());
    }
    assert_eq!(reward_events(&reg), 0);
}

#[test]
fn low_contract_balance_suppresses_the_trigger() {
    let mut reg = ContractStorage::new();
    let root = acct(9);
    assert!(reg.set_reward_roots(root.clone(), root.clone()).is_ok());
    assert!(reg.set_reward(root.clone(), 1, 1, 100).is_ok());
    assert!(reg.add_reward_balance(root, 1000).is_ok());
    let alice = acct(1);
    // The contract must hold more than the amount plus the reserved floor.
    let r = reg.make_claim_expertise(alice, b"a".to_vec(), Vec::new(), 110, true);
    assert!(r.is_ok());
    assert_eq!(reward_events(&reg), 0);
}

#[test]
fn settings_are_zeroed_for_non_root() {
    let mut reg = ContractStorage::new();
    let root = acct(9);
    assert!(reg.set_reward_roots(root.clone(), root.clone()).is_ok());
    assert!(reg.set_reward(root.clone(), 1, 5, 100).is_ok());
    assert!(reg.add_reward_balance(root, 250).is_ok());
    let s = reg.get_reward_settings(acct(8));
    assert_eq!(s.reward_on, 0);
    assert_eq!(s.reward_root_set, 0);
    assert_eq!(s.reward_root, vec![0u8; 32]);
    assert_eq!(s.reward_interval, 0);
    assert_eq!(s.reward_amount, 0);
    assert_eq!(s.reward_balance, 0);
    assert_eq!(s.reward_payouts, 0);
    assert_eq!(s.claim_counter, 0);
}

#[test]
fn shutdown_refunds_and_switches_off() {
    let mut reg = ContractStorage::new();
    let root = acct(9);
    assert!(reg.set_reward_roots(root.clone(), root.clone()).is_ok());
    assert!(reg.set_reward(root.clone(), 1, 5, 100).is_ok());
    assert!(reg.add_reward_balance(root.clone(), 500).is_ok());
    assert_eq!(reg.shut_down_reward(acct(8), 10_000, true), Err(Error::PermissionDenied));
    // The refund owed is the reward balance less the reserved floor.
    assert_eq!(reg.shutdown_refund_due(10_000), Some(490));
    assert!(reg.shut_down_reward(root.clone(), 10_000, true).is_ok());
    let s = reg.get_reward_settings(root);
    assert_eq!(s.reward_on, 0);
}

#[test]
fn shutdown_without_funds_fails() {
    let mut reg = ContractStorage::new();
    let root = acct(9);
    assert!(reg.set_reward_roots(root.clone(), root.clone()).is_ok());
    assert!(reg.set_reward(root.clone(), 1, 5, 100).is_ok());
    // No reward balance: nothing to disburse.
    assert_eq!(reg.shut_down_reward(root.clone(), 10_000, true), Err(Error::ZeroBalance));
    // A contract balance at or under the reserved floor fails too.
    assert!(reg.add_reward_balance(root.clone(), 500).is_ok());
    assert_eq!(reg.shut_down_reward(root.clone(), 10, true), Err(Error::ZeroBalance));
    let s = reg.get_reward_settings(root);
    assert_eq!(s.reward_on, 1);
}

#[test]
fn shutdown_transfer_failure_leaves_program_running() {
    let mut reg = ContractStorage::new();
    let root = acct(9);
    assert!(reg.set_reward_roots(root.clone(), root.clone()).is_ok());
    assert!(reg.set_reward(root.clone(), 1, 5, 100).is_ok());
    assert!(reg.add_reward_balance(root.clone(), 500).is_ok());
    assert_eq!(reg.shut_down_reward(root.clone(), 10_000, false), Err(Error::PayoutFailed));
    let s = reg.get_reward_settings(root);
    assert_eq!(s.reward_on, 1);
    assert_eq!(s.reward_balance, 500);
}
