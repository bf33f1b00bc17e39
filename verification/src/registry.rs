//! The registry itself: storage, the five claim submission flows, the
//! endorsement and visibility rules. Caller identity, the contract's native
//! balance and the outcome of the host transfer enter as plain values; every
//! method follows its model transition exactly, and a failed call leaves the
//! registry unchanged.

use vstd::prelude::*;

use crate::accounts::AccountTable;
use crate::bytes::bytes_clone;
use crate::bytes::sat_add;
use crate::bytes::sat_sub;
use crate::hashing::derive_fingerprint;
use crate::hashing::fingerprint_of;
use crate::model::acct_claims;
use crate::model::acct_upsert;
use crate::model::cat_table;
use crate::model::endorse_transition;
use crate::model::initial_state;
use crate::model::lemma_endorse_wf;
use crate::model::lemma_rec_find_props;
use crate::model::lemma_submit_wf;
use crate::model::lemma_visibility_wf;
use crate::model::new_claim;
use crate::model::res_bytes;
use crate::model::spec_reward_due;
use crate::model::submit_transition;
use crate::model::visibility_transition;
use crate::model::wf;
use crate::model::with_cat_table;
use crate::model::StorageModel;
use crate::store::DetailsTable;
use crate::types::AccountRewardedLifeAndWork;
use crate::types::ClaimEndorsed;
use crate::types::ClaimMadeEducation;
use crate::types::ClaimMadeExpertise;
use crate::types::ClaimMadeGoodDeed;
use crate::types::ClaimMadeIntellectualProperty;
use crate::types::ClaimMadeWorkHistory;
use crate::types::Details;
use crate::types::Error;
use crate::types::Event;
use crate::types::EventModel;
use crate::types::CLAIMTYPE_EDUCATION;
use crate::types::CLAIMTYPE_EXPERTISE;
use crate::types::CLAIMTYPE_GOODDEED;
use crate::types::CLAIMTYPE_INTELLECTUALPROPERTY;
use crate::types::CLAIMTYPE_WORKHISTORY;

verus! {

/// The whole registry state: the record store (which is also the ledger),
/// the five per-account category indices, the reward program configuration
/// and the event log.
pub struct ContractStorage {
    pub(crate) claim_details: DetailsTable,
    pub(crate) account_claims_expertise: AccountTable,
    pub(crate) account_claims_education: AccountTable,
    pub(crate) account_claims_workhistory: AccountTable,
    pub(crate) account_claims_gooddeeds: AccountTable,
    pub(crate) account_claims_intellectualproperty: AccountTable,
    pub(crate) reward_root_set: u8,
    pub(crate) reward_root: Vec<u8>,
    pub(crate) reward_interval: u128,
    pub(crate) reward_amount: u128,
    pub(crate) reward_on: u8,
    pub(crate) reward_balance: u128,
    pub(crate) reward_payouts: u128,
    pub(crate) claim_counter: u128,
    pub(crate) events: Vec<Event>,
}

impl View for ContractStorage {
    type V = StorageModel;

    open(crate) spec fn view(&self) -> StorageModel {
        StorageModel {
            records: self.claim_details@,
            workhistory: self.account_claims_workhistory@,
            education: self.account_claims_education@,
            expertise: self.account_claims_expertise@,
            gooddeeds: self.account_claims_gooddeeds@,
            intellectualproperty: self.account_claims_intellectualproperty@,
            reward_root_set: self.reward_root_set,
            reward_root: self.reward_root@,
            reward_interval: self.reward_interval,
            reward_amount: self.reward_amount,
            reward_on: self.reward_on,
            reward_balance: self.reward_balance,
            reward_payouts: self.reward_payouts,
            claim_counter: self.claim_counter,
            events: self.events.deep_view(),
        }
    }
}

impl ContractStorage {
    /// An empty registry with the reward program off and its root unclaimed.
    pub fn new() -> (s: ContractStorage)
        ensures
            s@ == initial_state(),
            wf(s@),
    {
        let s = ContractStorage {
            claim_details: DetailsTable::new(),
            account_claims_expertise: AccountTable::new(),
            account_claims_education: AccountTable::new(),
            account_claims_workhistory: AccountTable::new(),
            account_claims_gooddeeds: AccountTable::new(),
            account_claims_intellectualproperty: AccountTable::new(),
            reward_root_set: 0,
            reward_root: crate::types::zero_bytes(32),
            reward_interval: 1000000,
            reward_amount: 0,
            reward_on: 0,
            reward_balance: 0,
            reward_payouts: 0,
            claim_counter: 0,
            events: Vec::new(),
        };
        proof {
            assert(s@ =~~= initial_state());
        }
        s
    }

    /// How many claims the account holds in the category with this tag.
    fn cat_claims_len(&self, ct: u8, a: &Vec<u8>) -> (n: usize)
        requires
            1 <= ct <= 5,
        ensures
            n == acct_claims(cat_table(self@, ct), a@).len(),
    {
        if ct == CLAIMTYPE_WORKHISTORY {
            self.account_claims_workhistory.claims_len(a)
        } else if ct == CLAIMTYPE_EDUCATION {
            self.account_claims_education.claims_len(a)
        } else if ct == CLAIMTYPE_EXPERTISE {
            self.account_claims_expertise.claims_len(a)
        } else if ct == CLAIMTYPE_GOODDEED {
            self.account_claims_gooddeeds.claims_len(a)
        } else {
            self.account_claims_intellectualproperty.claims_len(a)
        }
    }

    /// Appends an accepted fingerprint to the account's list in the category
    /// with this tag.
    fn cat_push_claim(&mut self, ct: u8, a: &Vec<u8>, fp: Vec<u8>)
        requires
            1 <= ct <= 5,
        ensures
            final(self)@ == with_cat_table(
                old(self)@,
                ct,
                acct_upsert(cat_table(old(self)@, ct), a@, fp@),
            ),
    {
        if ct == CLAIMTYPE_WORKHISTORY {
            self.account_claims_workhistory.push_claim(a, fp);
        } else if ct == CLAIMTYPE_EDUCATION {
            self.account_claims_education.push_claim(a, fp);
        } else if ct == CLAIMTYPE_EXPERTISE {
            self.account_claims_expertise.push_claim(a, fp);
        } else if ct == CLAIMTYPE_GOODDEED {
            self.account_claims_gooddeeds.push_claim(a, fp);
        } else {
            self.account_claims_intellectualproperty.push_claim(a, fp);
        }
        proof {
            assert(final(self)@ =~~= with_cat_table(
                old(self)@,
                ct,
                acct_upsert(cat_table(old(self)@, ct), a@, fp@),
            ));
        }
    }

    /// Appends the category-tagged claim-made event.
    fn push_claim_event(&mut self, ct: u8, claimant: Vec<u8>, claim: Vec<u8>, claim_id: Vec<u8>)
        requires
            1 <= ct <= 5,
        ensures
            final(self)@ == (StorageModel {
                events: old(self)@.events.push(
                    EventModel::ClaimMade {
                        claimtype: ct,
                        claimant: claimant@,
                        claim: claim@,
                        claim_id: claim_id@,
                    },
                ),
                ..old(self)@
            }),
    {
        let ghost cv = claimant@;
        let ghost mv = claim@;
        let ghost iv = claim_id@;
        let ev = if ct == CLAIMTYPE_WORKHISTORY {
            Event::WorkHistory(ClaimMadeWorkHistory { claimant, claim, claim_id })
        } else if ct == CLAIMTYPE_EDUCATION {
            Event::Education(ClaimMadeEducation { claimant, claim, claim_id })
        } else if ct == CLAIMTYPE_EXPERTISE {
            Event::Expertise(ClaimMadeExpertise { claimant, claim, claim_id })
        } else if ct == CLAIMTYPE_GOODDEED {
            Event::GoodDeed(ClaimMadeGoodDeed { claimant, claim, claim_id })
        } else {
            Event::IntellectualProperty(ClaimMadeIntellectualProperty { claimant, claim, claim_id })
        };
        proof {
            assert(ev@ == (EventModel::ClaimMade { claimtype: ct, claimant: cv, claim: mv, claim_id: iv }));
        }
        self.events.push(ev);
        proof {
            assert(final(self)@ =~~= (StorageModel {
                events: old(self)@.events.push(
                    EventModel::ClaimMade { claimtype: ct, claimant: cv, claim: mv, claim_id: iv },
                ),
                ..old(self)@
            }));
        }
    }

    /// The payout a submission accepted right now would earn, if any: the
    /// amount the host must transfer to the submitting caller.
    pub fn reward_due(&self, contract_balance: u128) -> (r: Option<u128>)
        ensures
            r == spec_reward_due(self@, contract_balance),
    {
        let c1 = sat_add(self.claim_counter, 1);
        let min = sat_add(self.reward_amount, 10);
        if self.reward_on == 1 && self.reward_balance > self.reward_amount && contract_balance
            > min && self.reward_interval > 0 && c1 % self.reward_interval == 0 {
            Some(self.reward_amount)
        } else {
            None
        }
    }

    /// The shared submission flow: capacity check, dedup check, insertion,
    /// event, reward trigger.
    fn submit_core(
        &mut self,
        caller: Vec<u8>,
        claimtype: u8,
        content: Vec<u8>,
        link: Vec<u8>,
        claim_id: Vec<u8>,
        contract_balance: u128,
        transfer_ok: bool,
    ) -> (r: Result<Vec<u8>, Error>)
        requires
            wf(old(self)@),
            1 <= claimtype <= 5,
            caller@.len() == 32,
            claim_id@.len() == 32,
        ensures
            wf(final(self)@),
            final(self)@ == submit_transition(
                old(self)@,
                caller@,
                claimtype,
                content@,
                link@,
                claim_id@,
                contract_balance,
                transfer_ok,
            ).0,
            res_bytes(r) == submit_transition(
                old(self)@,
                caller@,
                claimtype,
                content@,
                link@,
                claim_id@,
                contract_balance,
                transfer_ok,
            ).1,
    {
        proof {
            lemma_submit_wf(
                old(self)@,
                caller@,
                claimtype,
                content@,
                link@,
                claim_id@,
                contract_balance,
                transfer_ok,
            );
        }
        let n = self.cat_claims_len(claimtype, &caller);
        if n > 490 {
            return Err(Error::DataTooLarge);
        }
        if self.claim_details.contains_fp(&claim_id) {
            return Err(Error::DuplicateClaim);
        }

        // Decide the reward trigger before any mutation, so that a failed
        // host transfer aborts the submission with the registry untouched.
        let counted = sat_add(self.claim_counter, 1);
        let min = sat_add(self.reward_amount, 10);
        let payout = self.reward_amount;
        let triggered = self.reward_on == 1 && self.reward_balance > payout && contract_balance
            > min && self.reward_interval > 0 && counted % self.reward_interval == 0;
        if triggered && !transfer_ok {
            return Err(Error::PayoutFailed);
        }

        let mut endorsers: Vec<Vec<u8>> = Vec::new();
        endorsers.push(bytes_clone(&caller));
        let record = Details {
            claimtype: claimtype,
            claimant: bytes_clone(&caller),
            claim: bytes_clone(&content),
            claim_id: bytes_clone(&claim_id),
            endorser_count: 0,
            link: link,
            show: true,
            endorsers: endorsers,
        };
        proof {
            assert(record@ =~~= new_claim(caller@, claimtype, content@, link@, claim_id@));
        }
        self.claim_details.push_row(record);
        self.cat_push_claim(claimtype, &caller, bytes_clone(&claim_id));
        self.push_claim_event(claimtype, bytes_clone(&caller), content, bytes_clone(&claim_id));
        self.claim_counter = counted;

        if triggered {
            self.reward_balance = sat_sub(self.reward_balance, payout);
            self.reward_payouts = sat_add(self.reward_payouts, payout);
            self.events.push(
                Event::Rewarded(AccountRewardedLifeAndWork { claimant: bytes_clone(&caller), reward: payout }),
            );
        }
        proof {
            assert(self@ =~~= submit_transition(
                old(self)@,
                caller@,
                claimtype,
                content@,
                link@,
                claim_id@,
                contract_balance,
                transfer_ok,
            ).0);
        }
        Ok(claim_id)
    }

    /// Registers an expertise claim for the caller.
    pub fn make_claim_expertise(
        &mut self,
        caller: Vec<u8>,
        keywords_or_description: Vec<u8>,
        url_link_to_see_more: Vec<u8>,
        contract_balance: u128,
        transfer_ok: bool,
    ) -> (r: Result<Vec<u8>, Error>)
        requires
            wf(old(self)@),
            caller@.len() == 32,
        ensures
            wf(final(self)@),
            ({
                let (s2, res) = submit_transition(
                    old(self)@,
                    caller@,
                    CLAIMTYPE_EXPERTISE,
                    keywords_or_description@,
                    url_link_to_see_more@,
                    fingerprint_of(caller@, keywords_or_description@),
                    contract_balance,
                    transfer_ok,
                );
                final(self)@ == s2 && res_bytes(r) == res
            }),
    {
        let fp = derive_fingerprint(&caller, &keywords_or_description);
        self.submit_core(
            caller,
            CLAIMTYPE_EXPERTISE,
            keywords_or_description,
            url_link_to_see_more,
            fp,
            contract_balance,
            transfer_ok,
        )
    }

    /// Registers a work-history claim for the caller.
    pub fn make_claim_workhistory(
        &mut self,
        caller: Vec<u8>,
        keywords_or_description: Vec<u8>,
        url_link_to_see_more: Vec<u8>,
        contract_balance: u128,
        transfer_ok: bool,
    ) -> (r: Result<Vec<u8>, Error>)
        requires
            wf(old(self)@),
            caller@.len() == 32,
        ensures
            wf(final(self)@),
            ({
                let (s2, res) = submit_transition(
                    old(self)@,
                    caller@,
                    CLAIMTYPE_WORKHISTORY,
                    keywords_or_description@,
                    url_link_to_see_more@,
                    fingerprint_of(caller@, keywords_or_description@),
                    contract_balance,
                    transfer_ok,
                );
                final(self)@ == s2 && res_bytes(r) == res
            }),
    {
        let fp = derive_fingerprint(&caller, &keywords_or_description);
        self.submit_core(
            caller,
            CLAIMTYPE_WORKHISTORY,
            keywords_or_description,
            url_link_to_see_more,
            fp,
            contract_balance,
            transfer_ok,
        )
    }

    /// Registers an education claim for the caller.
    pub fn make_claim_education(
        &mut self,
        caller: Vec<u8>,
        keywords_or_description: Vec<u8>,
        url_link_to_see_more: Vec<u8>,
        contract_balance: u128,
        transfer_ok: bool,
    ) -> (r: Result<Vec<u8>, Error>)
        requires
            wf(old(self)@),
            caller@.len() == 32,
        ensures
            wf(final(self)@),
            ({
                let (s2, res) = submit_transition(
                    old(self)@,
                    caller@,
                    CLAIMTYPE_EDUCATION,
                    keywords_or_description@,
                    url_link_to_see_more@,
                    fingerprint_of(caller@, keywords_or_description@),
                    contract_balance,
                    transfer_ok,
                );
                final(self)@ == s2 && res_bytes(r) == res
            }),
    {
        let fp = derive_fingerprint(&caller, &keywords_or_description);
        self.submit_core(
            caller,
            CLAIMTYPE_EDUCATION,
            keywords_or_description,
            url_link_to_see_more,
            fp,
            contract_balance,
            transfer_ok,
        )
    }

    /// Registers a good-deed claim for the caller.
    pub fn make_claim_gooddeed(
        &mut self,
        caller: Vec<u8>,
        keywords_or_description: Vec<u8>,
        url_link_to_see_more: Vec<u8>,
        contract_balance: u128,
        transfer_ok: bool,
    ) -> (r: Result<Vec<u8>, Error>)
        requires
            wf(old(self)@),
            caller@.len() == 32,
        ensures
            wf(final(self)@),
            ({
                let (s2, res) = submit_transition(
                    old(self)@,
                    caller@,
                    CLAIMTYPE_GOODDEED,
                    keywords_or_description@,
                    url_link_to_see_more@,
                    fingerprint_of(caller@, keywords_or_description@),
                    contract_balance,
                    transfer_ok,
                );
                final(self)@ == s2 && res_bytes(r) == res
            }),
    {
        let fp = derive_fingerprint(&caller, &keywords_or_description);
        self.submit_core(
            caller,
            CLAIMTYPE_GOODDEED,
            keywords_or_description,
            url_link_to_see_more,
            fp,
            contract_balance,
            transfer_ok,
        )
    }

    /// Registers an intellectual-property claim for the caller. The
    /// fingerprint is the caller-supplied 256-bit hash of the underlying
    /// file; it is recorded, not verified.
    pub fn make_claim_intellectualproperty(
        &mut self,
        caller: Vec<u8>,
        keywords_or_description: Vec<u8>,
        url_link_to_see_more: Vec<u8>,
        hash_your_intellectual_property_file_here: Vec<u8>,
        contract_balance: u128,
        transfer_ok: bool,
    ) -> (r: Result<Vec<u8>, Error>)
        requires
            wf(old(self)@),
            caller@.len() == 32,
            hash_your_intellectual_property_file_here@.len() == 32,
        ensures
            wf(final(self)@),
            ({
                let (s2, res) = submit_transition(
                    old(self)@,
                    caller@,
                    CLAIMTYPE_INTELLECTUALPROPERTY,
                    keywords_or_description@,
                    url_link_to_see_more@,
                    hash_your_intellectual_property_file_here@,
                    contract_balance,
                    transfer_ok,
                );
                final(self)@ == s2 && res_bytes(r) == res
            }),
    {
        self.submit_core(
            caller,
            CLAIMTYPE_INTELLECTUALPROPERTY,
            keywords_or_description,
            url_link_to_see_more,
            hash_your_intellectual_property_file_here,
            contract_balance,
            transfer_ok,
        )
    }

    /// Endorses a claim for the caller. Within capacity the endorsement is
    /// recorded; at capacity the event is still emitted but the record stays
    /// unchanged.
    pub fn endorse_claim(&mut self, caller: Vec<u8>, claim_id: Vec<u8>) -> (r: Result<(), Error>)
        requires
            wf(old(self)@),
        ensures
            wf(final(self)@),
            ({
                let (s2, res) = endorse_transition(old(self)@, caller@, claim_id@);
                final(self)@ == s2 && r == res
            }),
    {
        proof {
            lemma_endorse_wf(old(self)@, caller@, claim_id@);
            lemma_rec_find_props(old(self)@.records, claim_id@);
        }
        match self.claim_details.find(&claim_id) {
            None => Err(Error::NonexistentClaim),
            Some(i) => {
                if self.claim_details.has_endorser(i, &caller) {
                    Err(Error::DuplicateEndorsement)
                } else {
                    let claimant = self.claim_details.claimant_at(i);
                    if self.claim_details.endorsers_len_at(i) < 491 {
                        self.claim_details.add_endorser(i, bytes_clone(&caller));
                    }
                    self.events.push(
                        Event::Endorsed(ClaimEndorsed { claimant: claimant, claim_id: claim_id, endorser: caller }),
                    );
                    proof {
                        assert(self@ =~~= endorse_transition(old(self)@, caller@, claim_id@).0);
                    }
                    Ok(())
                }
            },
        }
    }

    /// Shows or hides a claim, allowed to its claimant alone.
    pub fn show_or_hide_claim(
        &mut self,
        caller: Vec<u8>,
        claim_id: Vec<u8>,
        set_to_show: bool,
    ) -> (r: Result<(), Error>)
        requires
            wf(old(self)@),
        ensures
            wf(final(self)@),
            ({
                let (s2, res) = visibility_transition(old(self)@, caller@, claim_id@, set_to_show);
                final(self)@ == s2 && r == res
            }),
    {
        proof {
            lemma_visibility_wf(old(self)@, caller@, claim_id@, set_to_show);
            lemma_rec_find_props(old(self)@.records, claim_id@);
        }
        match self.claim_details.find(&claim_id) {
            None => Err(Error::CallerNotOwner),
            Some(i) => {
                if self.claim_details.claimant_is(i, &caller) {
                    self.claim_details.set_show(i, set_to_show);
                    proof {
                        assert(self@ =~~= visibility_transition(
                            old(self)@,
                            caller@,
                            claim_id@,
                            set_to_show,
                        ).0);
                    }
                    Ok(())
                } else {
                    Err(Error::CallerNotOwner)
                }
            },
        }
    }
}

} // verus!
