//! Data model: claim records, per-account claim lists, reward settings,
//! errors and the emitted events, together with their mathematical models.

use vstd::prelude::*;

verus! {

/// Category tag of a work-history claim.
pub const CLAIMTYPE_WORKHISTORY: u8 = 1;

/// Category tag of an education claim.
pub const CLAIMTYPE_EDUCATION: u8 = 2;

/// Category tag of an expertise claim.
pub const CLAIMTYPE_EXPERTISE: u8 = 3;

/// Category tag of a good-deed claim.
pub const CLAIMTYPE_GOODDEED: u8 = 4;

/// Category tag of an intellectual-property claim.
pub const CLAIMTYPE_INTELLECTUALPROPERTY: u8 = 5;

/// Errors that a mutating operation can return. A failed call leaves the
/// registry unchanged.
#[derive(Clone, Copy, Debug, PartialEq, Eq, Structural)]
pub enum Error {
    /// The submitted claim's fingerprint is already registered.
    DuplicateClaim,
    /// The endorsed claim does not exist.
    NonexistentClaim,
    /// The caller has already endorsed this claim.
    DuplicateEndorsement,
    /// The caller is not the claimant of the claim.
    CallerNotOwner,
    /// A capacity limit on per-account claim lists was reached.
    DataTooLarge,
    /// The caller may not perform this root-restricted operation.
    PermissionDenied,
    /// The native transfer of a payout failed.
    PayoutFailed,
    /// No disbursable funds on reward shutdown.
    ZeroBalance,
}

/// Mathematical model of one claim record.
#[verifier::ext_equal]
pub struct ClaimModel {
    pub claimtype: u8,
    pub claimant: Seq<u8>,
    pub claim: Seq<u8>,
    pub claim_id: Seq<u8>,
    pub endorser_count: u128,
    pub link: Seq<u8>,
    pub show: bool,
    pub endorsers: Seq<Seq<u8>>,
}

/// The all-zero 256-bit value, used for the sentinel claimant and sentinel
/// fingerprint.
pub open spec fn zero_bytes32() -> Seq<u8> {
    Seq::new(32, |i: int| 0u8)
}

/// The record returned for a fingerprint that is not registered: its zeroed
/// category tag marks absence.
pub open spec fn sentinel_claim() -> ClaimModel {
    ClaimModel {
        claimtype: 0,
        claimant: zero_bytes32(),
        claim: Seq::empty(),
        claim_id: zero_bytes32(),
        endorser_count: 0,
        link: Seq::empty(),
        show: true,
        endorsers: Seq::empty(),
    }
}

/// One claim record: immutable after creation except for the display flag and
/// the endorser list.
pub struct Details {
    pub claimtype: u8,
    pub claimant: Vec<u8>,
    pub claim: Vec<u8>,
    pub claim_id: Vec<u8>,
    pub endorser_count: u128,
    pub link: Vec<u8>,
    pub show: bool,
    pub endorsers: Vec<Vec<u8>>,
}

impl View for Details {
    type V = ClaimModel;

    open spec fn view(&self) -> ClaimModel {
        ClaimModel {
            claimtype: self.claimtype,
            claimant: self.claimant@,
            claim: self.claim@,
            claim_id: self.claim_id@,
            endorser_count: self.endorser_count,
            link: self.link@,
            show: self.show,
            endorsers: self.endorsers.deep_view(),
        }
    }
}

impl DeepView for Details {
    type V = ClaimModel;

    open spec fn deep_view(&self) -> ClaimModel {
        self.view()
    }
}

/// The 256-bit zero value as a vector.
pub fn zero_bytes(n: usize) -> (r: Vec<u8>)
    ensures
        r@ == Seq::new(n as nat, |i: int| 0u8),
{
    let mut r: Vec<u8> = Vec::new();
    let mut i: usize = 0;
    while i < n
        invariant
            i <= n,
            r@ =~= Seq::new(i as nat, |j: int| 0u8),
        decreases n - i,
    {
        r.push(0u8);
        i += 1;
    }
    proof {
        assert(r@ =~= Seq::new(n as nat, |i: int| 0u8));
    }
    r
}

impl Default for Details {
    /// The sentinel record standing for an absent fingerprint.
    fn default() -> (d: Details)
        ensures
            d@ == sentinel_claim(),
    {
        let d = Details {
            claimtype: 0,
            claimant: zero_bytes(32),
            claim: Vec::new(),
            claim_id: zero_bytes(32),
            endorser_count: 0,
            link: Vec::new(),
            show: true,
            endorsers: Vec::new(),
        };
        proof {
            assert(d.endorsers.deep_view() =~= Seq::<Seq<u8>>::empty());
            assert(d@ =~= sentinel_claim());
        }
        d
    }
}

impl Details {
    /// An owned copy of the record.
    pub fn duplicate(&self) -> (d: Details)
        ensures
            d@ == self@,
    {
        let d = Details {
            claimtype: self.claimtype,
            claimant: crate::bytes::bytes_clone(&self.claimant),
            claim: crate::bytes::bytes_clone(&self.claim),
            claim_id: crate::bytes::bytes_clone(&self.claim_id),
            endorser_count: self.endorser_count,
            link: crate::bytes::bytes_clone(&self.link),
            show: self.show,
            endorsers: crate::bytes::bytes_list_clone(&self.endorsers),
        };
        proof {
            assert(d@ =~~= self@);
        }
        d
    }
}

/// The ordered fingerprints one account has submitted in one category.
pub struct Claims {
    pub claims: Vec<Vec<u8>>,
}

impl Default for Claims {
    fn default() -> (c: Claims)
        ensures
            c.claims@.len() == 0,
    {
        Claims { claims: Vec::new() }
    }
}

/// Mathematical model of the reward program configuration.
#[verifier::ext_equal]
pub struct RewardSettingsModel {
    pub reward_on: u8,
    pub reward_root_set: u8,
    pub reward_root: Seq<u8>,
    pub reward_interval: u128,
    pub reward_amount: u128,
    pub reward_balance: u128,
    pub reward_payouts: u128,
    pub claim_counter: u128,
}

/// The zeroed settings value handed to callers other than the root.
pub open spec fn default_settings() -> RewardSettingsModel {
    RewardSettingsModel {
        reward_on: 0,
        reward_root_set: 0,
        reward_root: zero_bytes32(),
        reward_interval: 0,
        reward_amount: 0,
        reward_balance: 0,
        reward_payouts: 0,
        claim_counter: 0,
    }
}

/// The reward program configuration, as returned to the root account.
pub struct RewardSettings {
    pub reward_on: u8,
    pub reward_root_set: u8,
    pub reward_root: Vec<u8>,
    pub reward_interval: u128,
    pub reward_amount: u128,
    pub reward_balance: u128,
    pub reward_payouts: u128,
    pub claim_counter: u128,
}

impl View for RewardSettings {
    type V = RewardSettingsModel;

    open spec fn view(&self) -> RewardSettingsModel {
        RewardSettingsModel {
            reward_on: self.reward_on,
            reward_root_set: self.reward_root_set,
            reward_root: self.reward_root@,
            reward_interval: self.reward_interval,
            reward_amount: self.reward_amount,
            reward_balance: self.reward_balance,
            reward_payouts: self.reward_payouts,
            claim_counter: self.claim_counter,
        }
    }
}

impl Default for RewardSettings {
    /// The zeroed settings value.
    fn default() -> (s: RewardSettings)
        ensures
            s@ == default_settings(),
    {
        let s = RewardSettings {
            reward_on: 0,
            reward_root_set: 0,
            reward_root: zero_bytes(32),
            reward_interval: 0,
            reward_amount: 0,
            reward_balance: 0,
            reward_payouts: 0,
            claim_counter: 0,
        };
        proof {
            assert(s@ =~= default_settings());
        }
        s
    }
}

/// Mathematical model of one emitted event.
#[verifier::ext_equal]
pub enum EventModel {
    /// A claim was accepted; the tag carries its category.
    ClaimMade { claimtype: u8, claimant: Seq<u8>, claim: Seq<u8>, claim_id: Seq<u8> },
    /// A claim was endorsed.
    Endorsed { claimant: Seq<u8>, claim_id: Seq<u8>, endorser: Seq<u8> },
    /// A reward was paid to the claimant of the triggering submission.
    Rewarded { claimant: Seq<u8>, reward: u128 },
}

/// Registers a new expertise claim on the event log.
pub struct ClaimMadeExpertise {
    pub claimant: Vec<u8>,
    pub claim: Vec<u8>,
    pub claim_id: Vec<u8>,
}

/// Registers a new work-history claim on the event log.
pub struct ClaimMadeWorkHistory {
    pub claimant: Vec<u8>,
    pub claim: Vec<u8>,
    pub claim_id: Vec<u8>,
}

/// Registers a new education claim on the event log.
pub struct ClaimMadeEducation {
    pub claimant: Vec<u8>,
    pub claim: Vec<u8>,
    pub claim_id: Vec<u8>,
}

/// Registers a new good-deed claim on the event log.
pub struct ClaimMadeGoodDeed {
    pub claimant: Vec<u8>,
    pub claim: Vec<u8>,
    pub claim_id: Vec<u8>,
}

/// Registers a new intellectual-property claim on the event log.
pub struct ClaimMadeIntellectualProperty {
    pub claimant: Vec<u8>,
    pub claim: Vec<u8>,
    pub claim_id: Vec<u8>,
}

/// Registers a new endorsement on the event log.
pub struct ClaimEndorsed {
    pub claimant: Vec<u8>,
    pub claim_id: Vec<u8>,
    pub endorser: Vec<u8>,
}

/// Registers a reward payout on the event log.
pub struct AccountRewardedLifeAndWork {
    pub claimant: Vec<u8>,
    pub reward: u128,
}

/// One entry of the observable, append-only event log, in call order.
pub enum Event {
    Expertise(ClaimMadeExpertise),
    WorkHistory(ClaimMadeWorkHistory),
    Education(ClaimMadeEducation),
    GoodDeed(ClaimMadeGoodDeed),
    IntellectualProperty(ClaimMadeIntellectualProperty),
    Endorsed(ClaimEndorsed),
    Rewarded(AccountRewardedLifeAndWork),
}

impl View for Event {
    type V = EventModel;

    open spec fn view(&self) -> EventModel {
        match self {
            Event::Expertise(e) => EventModel::ClaimMade {
                claimtype: CLAIMTYPE_EXPERTISE,
                claimant: e.claimant@,
                claim: e.claim@,
                claim_id: e.claim_id@,
            },
            Event::WorkHistory(e) => EventModel::ClaimMade {
                claimtype: CLAIMTYPE_WORKHISTORY,
                claimant: e.claimant@,
                claim: e.claim@,
                claim_id: e.claim_id@,
            },
            Event::Education(e) => EventModel::ClaimMade {
                claimtype: CLAIMTYPE_EDUCATION,
                claimant: e.claimant@,
                claim: e.claim@,
                claim_id: e.claim_id@,
            },
            Event::GoodDeed(e) => EventModel::ClaimMade {
                claimtype: CLAIMTYPE_GOODDEED,
                claimant: e.claimant@,
                claim: e.claim@,
                claim_id: e.claim_id@,
            },
            Event::IntellectualProperty(e) => EventModel::ClaimMade {
                claimtype: CLAIMTYPE_INTELLECTUALPROPERTY,
                claimant: e.claimant@,
                claim: e.claim@,
                claim_id: e.claim_id@,
            },
            Event::Endorsed(e) => EventModel::Endorsed {
                claimant: e.claimant@,
                claim_id: e.claim_id@,
                endorser: e.endorser@,
            },
            Event::Rewarded(e) => EventModel::Rewarded {
                claimant: e.claimant@,
                reward: e.reward,
            },
        }
    }
}

impl DeepView for Event {
    type V = EventModel;

    open spec fn deep_view(&self) -> EventModel {
        self.view()
    }
}

} // verus!
