//! The root-restricted administration of the reward program: claiming and
//! rotating the root, configuring the trigger, funding, shutdown, and the
//! information-hiding settings query.

use vstd::prelude::*;

use crate::bytes::bytes_clone;
use crate::bytes::bytes_eq;
use crate::bytes::sat_add;
use crate::bytes::sat_sub;
use crate::model::fund_transition;
use crate::model::set_reward_transition;
use crate::model::set_root_transition;
use crate::model::settings_for;
use crate::model::shutdown_transition;
use crate::model::spec_shutdown_refund;
use crate::model::wf;
use crate::registry::ContractStorage;
use crate::types::Error;
use crate::types::RewardSettings;

verus! {

impl ContractStorage {
    /// Claims the reward root when it is still unset, or rotates it when
    /// called by the current root.
    pub fn set_reward_roots(&mut self, caller: Vec<u8>, newroot: Vec<u8>) -> (r: Result<(), Error>)
        requires
            wf(old(self)@),
        ensures
            wf(final(self)@),
            ({
                let (s2, res) = set_root_transition(old(self)@, caller@, newroot@);
                final(self)@ == s2 && r == res
            }),
    {
        if self.reward_root_set != 1 || bytes_eq(&self.reward_root, &caller) {
            self.reward_root = newroot;
            self.reward_root_set = 1;
            proof {
                assert(self@ =~~= set_root_transition(old(self)@, caller@, newroot@).0);
            }
            Ok(())
        } else {
            Err(Error::PermissionDenied)
        }
    }

    /// Sets the trigger parameters: the on/off switch, the claim-count
    /// interval and the payout amount. Root only.
    pub fn set_reward(
        &mut self,
        caller: Vec<u8>,
        on: u8,
        interval: u128,
        amount: u128,
    ) -> (r: Result<(), Error>)
        requires
            wf(old(self)@),
        ensures
            wf(final(self)@),
            ({
                let (s2, res) = set_reward_transition(old(self)@, caller@, on, interval, amount);
                final(self)@ == s2 && r == res
            }),
    {
        if bytes_eq(&self.reward_root, &caller) {
            self.reward_on = on;
            self.reward_interval = interval;
            self.reward_amount = amount;
            proof {
                assert(self@ =~~= set_reward_transition(old(self)@, caller@, on, interval, amount).0);
            }
            Ok(())
        } else {
            Err(Error::PermissionDenied)
        }
    }

    /// Credits the value the root paid in to the reward balance. Root only.
    pub fn add_reward_balance(&mut self, caller: Vec<u8>, staked: u128) -> (r: Result<(), Error>)
        requires
            wf(old(self)@),
        ensures
            wf(final(self)@),
            ({
                let (s2, res) = fund_transition(old(self)@, caller@, staked);
                final(self)@ == s2 && r == res
            }),
    {
        if bytes_eq(&self.reward_root, &caller) {
            self.reward_balance = sat_add(self.reward_balance, staked);
            proof {
                assert(self@ =~~= fund_transition(old(self)@, caller@, staked).0);
            }
            Ok(())
        } else {
            Err(Error::PermissionDenied)
        }
    }

    /// The refund a successful shutdown would pay back to the root right
    /// now: the amount the host must transfer.
    pub fn shutdown_refund_due(&self, contract_balance: u128) -> (r: Option<u128>)
        ensures
            r == spec_shutdown_refund(self@, contract_balance),
    {
        if contract_balance > 10 && self.reward_balance > 0 {
            Some(sat_sub(self.reward_balance, 10))
        } else {
            None
        }
    }

    /// Switches the reward program off and refunds the reward balance less
    /// the reserved floor to the root. Root only; fails with the program
    /// untouched when there are no disbursable funds or the host transfer
    /// fails.
    pub fn shut_down_reward(
        &mut self,
        caller: Vec<u8>,
        contract_balance: u128,
        transfer_ok: bool,
    ) -> (r: Result<(), Error>)
        requires
            wf(old(self)@),
        ensures
            wf(final(self)@),
            ({
                let (s2, res) = shutdown_transition(old(self)@, caller@, contract_balance, transfer_ok);
                final(self)@ == s2 && r == res
            }),
    {
        if bytes_eq(&self.reward_root, &caller) {
            if contract_balance > 10 && self.reward_balance > 0 {
                if transfer_ok {
                    self.reward_on = 0;
                    proof {
                        assert(self@ =~~= shutdown_transition(
                            old(self)@,
                            caller@,
                            contract_balance,
                            transfer_ok,
                        ).0);
                    }
                    Ok(())
                } else {
                    Err(Error::PayoutFailed)
                }
            } else {
                Err(Error::ZeroBalance)
            }
        } else {
            Err(Error::PermissionDenied)
        }
    }

    /// The reward configuration as seen by a caller: the real settings for
    /// the root, the zeroed default for anyone else.
    pub fn get_reward_settings(&self, caller: Vec<u8>) -> (r: RewardSettings)
        ensures
            r@ == settings_for(self@, caller@),
    {
        if bytes_eq(&self.reward_root, &caller) {
            let r = RewardSettings {
                reward_on: self.reward_on,
                reward_root_set: self.reward_root_set,
                reward_root: bytes_clone(&self.reward_root),
                reward_interval: self.reward_interval,
                reward_amount: self.reward_amount,
                reward_balance: self.reward_balance,
                reward_payouts: self.reward_payouts,
                claim_counter: self.claim_counter,
            };
            proof {
                assert(r@ =~~= settings_for(self@, caller@));
            }
            r
        } else {
            RewardSettings::default()
        }
    }
}

} // verus!
