//! Mathematical model of the registry: the abstract state, the lookup
//! functions over it, its well-formedness invariant, and one transition
//! function per mutating operation. The executable registry methods promise
//! to follow these transitions exactly.

use vstd::prelude::*;

use crate::bytes::spec_sat_add;
use crate::bytes::spec_sat_sub;
use crate::types::ClaimModel;
use crate::types::Error;
use crate::types::EventModel;
use crate::types::RewardSettingsModel;
use crate::types::default_settings;
use crate::types::sentinel_claim;
use crate::types::CLAIMTYPE_EDUCATION;
use crate::types::CLAIMTYPE_EXPERTISE;
use crate::types::CLAIMTYPE_GOODDEED;
use crate::types::CLAIMTYPE_WORKHISTORY;

verus! {

/// One per-account slot of a category index: the account and its ordered
/// fingerprints.
pub type AcctSlot = (Seq<u8>, Seq<Seq<u8>>);

/// Abstract state of the whole registry.
#[verifier::ext_equal]
pub struct StorageModel {
    /// Every accepted claim, in ledger (acceptance) order; fingerprints are
    /// unique.
    pub records: Seq<ClaimModel>,
    pub workhistory: Seq<AcctSlot>,
    pub education: Seq<AcctSlot>,
    pub expertise: Seq<AcctSlot>,
    pub gooddeeds: Seq<AcctSlot>,
    pub intellectualproperty: Seq<AcctSlot>,
    pub reward_root_set: u8,
    pub reward_root: Seq<u8>,
    pub reward_interval: u128,
    pub reward_amount: u128,
    pub reward_on: u8,
    pub reward_balance: u128,
    pub reward_payouts: u128,
    pub claim_counter: u128,
    /// The append-only event log, in call order.
    pub events: Seq<EventModel>,
}

// ---------------------------------------------------------------------------
// Lookup over the record store
// ---------------------------------------------------------------------------

/// Index of the first record with the given fingerprint, or -1.
pub open spec fn rec_find(rs: Seq<ClaimModel>, fp: Seq<u8>) -> int
    decreases rs.len(),
{
    if rs.len() == 0 {
        -1
    } else if rs[0].claim_id == fp {
        0
    } else {
        let r = rec_find(rs.drop_first(), fp);
        if r < 0 {
            -1
        } else {
            r + 1
        }
    }
}

/// Whether a record with the given fingerprint exists.
pub open spec fn rec_contains(rs: Seq<ClaimModel>, fp: Seq<u8>) -> bool {
    rec_find(rs, fp) >= 0
}

/// The record with the given fingerprint, or the sentinel if none exists.
pub open spec fn rec_lookup(rs: Seq<ClaimModel>, fp: Seq<u8>) -> ClaimModel {
    if rec_contains(rs, fp) {
        rs[rec_find(rs, fp)]
    } else {
        sentinel_claim()
    }
}

pub proof fn lemma_rec_find_props(rs: Seq<ClaimModel>, fp: Seq<u8>)
    ensures
        -1 <= rec_find(rs, fp) < rs.len(),
        rec_find(rs, fp) >= 0 ==> rs[rec_find(rs, fp)].claim_id == fp,
        rec_find(rs, fp) >= 0 ==> forall|j: int|
            0 <= j < rec_find(rs, fp) ==> rs[j].claim_id != fp,
        rec_find(rs, fp) == -1 ==> forall|j: int| 0 <= j < rs.len() ==> rs[j].claim_id != fp,
    decreases rs.len(),
{
    if rs.len() > 0 && rs[0].claim_id != fp {
        let rest = rs.drop_first();
        lemma_rec_find_props(rest, fp);
        if rec_find(rs, fp) >= 0 {
            assert forall|j: int| 0 <= j < rec_find(rs, fp) implies rs[j].claim_id != fp by {
                if j > 0 {
                    assert(rs[j] == rest[j - 1]);
                }
            }
        } else {
            assert forall|j: int| 0 <= j < rs.len() implies rs[j].claim_id != fp by {
                if j > 0 {
                    assert(rs[j] == rest[j - 1]);
                }
            }
        }
    }
}

/// If index `i` holds the fingerprint and no earlier index does, the lookup
/// finds `i`.
pub proof fn lemma_rec_find_first(rs: Seq<ClaimModel>, fp: Seq<u8>, i: int)
    requires
        0 <= i < rs.len(),
        rs[i].claim_id == fp,
        forall|j: int| 0 <= j < i ==> rs[j].claim_id != fp,
    ensures
        rec_find(rs, fp) == i,
    decreases rs.len(),
{
    if i > 0 {
        let rest = rs.drop_first();
        assert forall|j: int| 0 <= j < i - 1 implies rest[j].claim_id != fp by {
            assert(rest[j] == rs[j + 1]);
        }
        assert(rest[i - 1] == rs[i]);
        lemma_rec_find_first(rest, fp, i - 1);
    }
}

pub proof fn lemma_rec_find_push(rs: Seq<ClaimModel>, fp: Seq<u8>, c: ClaimModel)
    ensures
        rec_find(rs, fp) >= 0 ==> rec_find(rs.push(c), fp) == rec_find(rs, fp),
        rec_find(rs, fp) == -1 && c.claim_id == fp ==> rec_find(rs.push(c), fp) == rs.len(),
        rec_find(rs, fp) == -1 && c.claim_id != fp ==> rec_find(rs.push(c), fp) == -1,
{
    lemma_rec_find_props(rs, fp);
    lemma_rec_find_props(rs.push(c), fp);
    let i = rec_find(rs, fp);
    if i >= 0 {
        lemma_rec_find_first(rs.push(c), fp, i);
    } else if c.claim_id == fp {
        lemma_rec_find_first(rs.push(c), fp, rs.len() as int);
    }
}

/// Replacing a record with one of the same fingerprint leaves every lookup
/// index unchanged.
pub proof fn lemma_rec_find_update(rs: Seq<ClaimModel>, fp: Seq<u8>, i: int, c: ClaimModel)
    requires
        0 <= i < rs.len(),
        c.claim_id == rs[i].claim_id,
    ensures
        rec_find(rs.update(i, c), fp) == rec_find(rs, fp),
{
    lemma_rec_find_props(rs, fp);
    lemma_rec_find_props(rs.update(i, c), fp);
    let k = rec_find(rs, fp);
    if k >= 0 {
        lemma_rec_find_first(rs.update(i, c), fp, k);
    }
}

// ---------------------------------------------------------------------------
// Lookup over a per-account category index
// ---------------------------------------------------------------------------

/// Index of the first slot of the given account, or -1.
pub open spec fn acct_find(tab: Seq<AcctSlot>, a: Seq<u8>) -> int
    decreases tab.len(),
{
    if tab.len() == 0 {
        -1
    } else if tab[0].0 == a {
        0
    } else {
        let r = acct_find(tab.drop_first(), a);
        if r < 0 {
            -1
        } else {
            r + 1
        }
    }
}

/// The ordered fingerprints the account has submitted in this category.
pub open spec fn acct_claims(tab: Seq<AcctSlot>, a: Seq<u8>) -> Seq<Seq<u8>> {
    if acct_find(tab, a) >= 0 {
        tab[acct_find(tab, a)].1
    } else {
        Seq::empty()
    }
}

/// The index with one fingerprint appended to the account's list.
pub open spec fn acct_upsert(tab: Seq<AcctSlot>, a: Seq<u8>, fp: Seq<u8>) -> Seq<AcctSlot> {
    let i = acct_find(tab, a);
    if i >= 0 {
        tab.update(i, (a, tab[i].1.push(fp)))
    } else {
        tab.push((a, seq![fp]))
    }
}

pub proof fn lemma_acct_find_props(tab: Seq<AcctSlot>, a: Seq<u8>)
    ensures
        -1 <= acct_find(tab, a) < tab.len(),
        acct_find(tab, a) >= 0 ==> tab[acct_find(tab, a)].0 == a,
        acct_find(tab, a) >= 0 ==> forall|j: int| 0 <= j < acct_find(tab, a) ==> tab[j].0 != a,
        acct_find(tab, a) == -1 ==> forall|j: int| 0 <= j < tab.len() ==> tab[j].0 != a,
    decreases tab.len(),
{
    if tab.len() > 0 && tab[0].0 != a {
        let rest = tab.drop_first();
        lemma_acct_find_props(rest, a);
        if acct_find(tab, a) >= 0 {
            assert forall|j: int| 0 <= j < acct_find(tab, a) implies tab[j].0 != a by {
                if j > 0 {
                    assert(tab[j] == rest[j - 1]);
                }
            }
        } else {
            assert forall|j: int| 0 <= j < tab.len() implies tab[j].0 != a by {
                if j > 0 {
                    assert(tab[j] == rest[j - 1]);
                }
            }
        }
    }
}

pub proof fn lemma_acct_find_first(tab: Seq<AcctSlot>, a: Seq<u8>, i: int)
    requires
        0 <= i < tab.len(),
        tab[i].0 == a,
        forall|j: int| 0 <= j < i ==> tab[j].0 != a,
    ensures
        acct_find(tab, a) == i,
    decreases tab.len(),
{
    if i > 0 {
        let rest = tab.drop_first();
        assert forall|j: int| 0 <= j < i - 1 implies rest[j].0 != a by {
            assert(rest[j] == tab[j + 1]);
        }
        assert(rest[i - 1] == tab[i]);
        lemma_acct_find_first(rest, a, i - 1);
    }
}

pub proof fn lemma_acct_find_push(tab: Seq<AcctSlot>, a: Seq<u8>, e: AcctSlot)
    ensures
        acct_find(tab, a) >= 0 ==> acct_find(tab.push(e), a) == acct_find(tab, a),
        acct_find(tab, a) == -1 && e.0 == a ==> acct_find(tab.push(e), a) == tab.len(),
        acct_find(tab, a) == -1 && e.0 != a ==> acct_find(tab.push(e), a) == -1,
{
    lemma_acct_find_props(tab, a);
    lemma_acct_find_props(tab.push(e), a);
    let i = acct_find(tab, a);
    if i >= 0 {
        lemma_acct_find_first(tab.push(e), a, i);
    } else if e.0 == a {
        lemma_acct_find_first(tab.push(e), a, tab.len() as int);
    }
}

pub proof fn lemma_acct_find_update(tab: Seq<AcctSlot>, a: Seq<u8>, i: int, e: AcctSlot)
    requires
        0 <= i < tab.len(),
        e.0 == tab[i].0,
    ensures
        acct_find(tab.update(i, e), a) == acct_find(tab, a),
{
    lemma_acct_find_props(tab, a);
    lemma_acct_find_props(tab.update(i, e), a);
    let k = acct_find(tab, a);
    if k >= 0 {
        lemma_acct_find_first(tab.update(i, e), a, k);
    }
}

/// How an upsert changes each account's list: the target account gains the
/// fingerprint at the end, every other account's list is untouched.
pub proof fn lemma_acct_upsert_claims(tab: Seq<AcctSlot>, a: Seq<u8>, fp: Seq<u8>, b: Seq<u8>)
    ensures
        b == a ==> acct_claims(acct_upsert(tab, a, fp), b) == acct_claims(tab, a).push(fp),
        b != a ==> acct_claims(acct_upsert(tab, a, fp), b) == acct_claims(tab, b),
{
    lemma_acct_find_props(tab, a);
    lemma_acct_find_props(tab, b);
    let i = acct_find(tab, a);
    if i >= 0 {
        let e = (a, tab[i].1.push(fp));
        lemma_acct_find_update(tab, b, i, e);
        lemma_acct_find_props(tab.update(i, e), b);
    } else {
        let e = (a, seq![fp]);
        lemma_acct_find_push(tab, b, e);
        if b == a {
            assert(acct_claims(tab, a).push(fp) =~= seq![fp]);
        } else {
            lemma_acct_find_props(tab.push(e), b);
        }
    }
}

// ---------------------------------------------------------------------------
// Well-formedness
// ---------------------------------------------------------------------------

/// Capacity bound of a per-account category list and of an endorser list:
/// the claimant plus up to 490 third parties.
pub open spec fn capacity() -> int {
    491
}

/// Invariants of one stored claim record.
pub open spec fn claim_wf(c: ClaimModel) -> bool {
    &&& 1 <= c.claimtype <= 5
    &&& c.claimant.len() == 32
    &&& c.claim_id.len() == 32
    &&& c.endorsers.len() >= 1
    &&& c.endorsers.len() <= capacity()
    &&& c.endorsers[0] == c.claimant
    &&& c.endorser_count == c.endorsers.len() - 1
    &&& forall|i: int, j: int|
        0 <= i < j < c.endorsers.len() ==> c.endorsers[i] != c.endorsers[j]
}

/// Invariants of one category index against the record store.
pub open spec fn tab_wf(tab: Seq<AcctSlot>, rs: Seq<ClaimModel>) -> bool {
    forall|i: int|
        0 <= i < tab.len() ==> (#[trigger] tab[i]).1.len() <= capacity() && (forall|j: int|
            0 <= j < tab[i].1.len() ==> rec_contains(rs, #[trigger] tab[i].1[j]))
}

/// The registry invariant: every record well formed, fingerprints unique,
/// every indexed fingerprint accepted, every list within capacity.
pub open spec fn wf(s: StorageModel) -> bool {
    &&& forall|i: int| 0 <= i < s.records.len() ==> claim_wf(#[trigger] s.records[i])
    &&& forall|i: int, j: int|
        0 <= i < j < s.records.len() ==> s.records[i].claim_id != s.records[j].claim_id
    &&& tab_wf(s.workhistory, s.records)
    &&& tab_wf(s.education, s.records)
    &&& tab_wf(s.expertise, s.records)
    &&& tab_wf(s.gooddeeds, s.records)
    &&& tab_wf(s.intellectualproperty, s.records)
}

/// A category list never exceeds the capacity bound in a well-formed index.
pub proof fn lemma_acct_claims_bound(tab: Seq<AcctSlot>, rs: Seq<ClaimModel>, a: Seq<u8>)
    requires
        tab_wf(tab, rs),
    ensures
        acct_claims(tab, a).len() <= capacity(),
{
    lemma_acct_find_props(tab, a);
}

/// Appending a record keeps every already-indexed fingerprint accepted.
pub proof fn lemma_tab_wf_push(tab: Seq<AcctSlot>, rs: Seq<ClaimModel>, c: ClaimModel)
    requires
        tab_wf(tab, rs),
    ensures
        tab_wf(tab, rs.push(c)),
{
    assert forall|i: int, j: int|
        0 <= i < tab.len() && 0 <= j < tab[i].1.len() implies rec_contains(
        rs.push(c),
        tab[i].1[j],
    ) by {
        lemma_rec_find_push(rs, tab[i].1[j], c);
    }
}

/// Replacing a record by one with the same fingerprint keeps every indexed
/// fingerprint accepted.
pub proof fn lemma_tab_wf_update(tab: Seq<AcctSlot>, rs: Seq<ClaimModel>, i: int, c: ClaimModel)
    requires
        tab_wf(tab, rs),
        0 <= i < rs.len(),
        c.claim_id == rs[i].claim_id,
    ensures
        tab_wf(tab, rs.update(i, c)),
{
    assert forall|k: int, j: int|
        0 <= k < tab.len() && 0 <= j < tab[k].1.len() implies rec_contains(
        rs.update(i, c),
        tab[k].1[j],
    ) by {
        lemma_rec_find_update(rs, tab[k].1[j], i, c);
    }
}

// ---------------------------------------------------------------------------
// Category dispatch
// ---------------------------------------------------------------------------

/// The category index a claim type tag selects.
pub open spec fn cat_table(s: StorageModel, ct: u8) -> Seq<AcctSlot> {
    if ct == CLAIMTYPE_WORKHISTORY {
        s.workhistory
    } else if ct == CLAIMTYPE_EDUCATION {
        s.education
    } else if ct == CLAIMTYPE_EXPERTISE {
        s.expertise
    } else if ct == CLAIMTYPE_GOODDEED {
        s.gooddeeds
    } else {
        s.intellectualproperty
    }
}

/// The state with the selected category index replaced.
pub open spec fn with_cat_table(s: StorageModel, ct: u8, tab: Seq<AcctSlot>) -> StorageModel {
    if ct == CLAIMTYPE_WORKHISTORY {
        StorageModel { workhistory: tab, ..s }
    } else if ct == CLAIMTYPE_EDUCATION {
        StorageModel { education: tab, ..s }
    } else if ct == CLAIMTYPE_EXPERTISE {
        StorageModel { expertise: tab, ..s }
    } else if ct == CLAIMTYPE_GOODDEED {
        StorageModel { gooddeeds: tab, ..s }
    } else {
        StorageModel { intellectualproperty: tab, ..s }
    }
}

// ---------------------------------------------------------------------------
// Read-only projections
// ---------------------------------------------------------------------------

/// The records the given fingerprints name, in order, with the sentinel
/// standing in for an absent fingerprint.
pub open spec fn lookup_all(rs: Seq<ClaimModel>, fps: Seq<Seq<u8>>) -> Seq<ClaimModel>
    decreases fps.len(),
{
    if fps.len() == 0 {
        Seq::empty()
    } else {
        lookup_all(rs, fps.drop_last()).push(rec_lookup(rs, fps.last()))
    }
}

/// The full records behind every claim the account has made, concatenated in
/// the fixed category order: work history, education, expertise, good deeds,
/// intellectual property.
pub open spec fn resume_of(s: StorageModel, owner: Seq<u8>) -> Seq<ClaimModel> {
    lookup_all(s.records, acct_claims(s.workhistory, owner)) + lookup_all(
        s.records,
        acct_claims(s.education, owner),
    ) + lookup_all(s.records, acct_claims(s.expertise, owner)) + lookup_all(
        s.records,
        acct_claims(s.gooddeeds, owner),
    ) + lookup_all(s.records, acct_claims(s.intellectualproperty, owner))
}

/// The state of a freshly constructed registry: everything empty, the reward
/// program off and unclaimed, with a placeholder interval.
pub open spec fn initial_state() -> StorageModel {
    StorageModel {
        records: Seq::empty(),
        workhistory: Seq::empty(),
        education: Seq::empty(),
        expertise: Seq::empty(),
        gooddeeds: Seq::empty(),
        intellectualproperty: Seq::empty(),
        reward_root_set: 0,
        reward_root: crate::types::zero_bytes32(),
        reward_interval: 1000000,
        reward_amount: 0,
        reward_on: 0,
        reward_balance: 0,
        reward_payouts: 0,
        claim_counter: 0,
        events: Seq::empty(),
    }
}

// ---------------------------------------------------------------------------
// Transitions
// ---------------------------------------------------------------------------

/// The record a fresh submission creates: the claimant is the sole endorser
/// and the third-party endorsement count starts at zero.
pub open spec fn new_claim(
    caller: Seq<u8>,
    ct: u8,
    content: Seq<u8>,
    link: Seq<u8>,
    fp: Seq<u8>,
) -> ClaimModel {
    ClaimModel {
        claimtype: ct,
        claimant: caller,
        claim: content,
        claim_id: fp,
        endorser_count: 0,
        link: link,
        show: true,
        endorsers: seq![caller],
    }
}

/// Whether the reward trigger fires in state `s` (whose counter already
/// includes the accepted claim) with the given contract balance.
pub open spec fn reward_triggered(s: StorageModel, balance: u128) -> bool {
    &&& s.reward_on == 1
    &&& s.reward_balance > s.reward_amount
    &&& balance > spec_sat_add(s.reward_amount, 10)
    &&& s.reward_interval > 0
    &&& s.claim_counter % s.reward_interval == 0
}

/// The payout a submission would earn right now, if any: the amount the host
/// must transfer to the submitting caller.
pub open spec fn spec_reward_due(s: StorageModel, balance: u128) -> Option<u128> {
    let counted = StorageModel { claim_counter: spec_sat_add(s.claim_counter, 1), ..s };
    if reward_triggered(counted, balance) {
        Some(s.reward_amount)
    } else {
        None
    }
}

/// Submission of one claim: capacity check, dedup check, insertion into the
/// record store, the ledger and the caller's category index, the claim-made
/// event, and the deterministic reward trigger. `transfer_ok` is the outcome
/// the host transfer would have (it is consulted only when the trigger
/// fires); a failed transfer aborts the whole submission.
pub open spec fn submit_transition(
    s: StorageModel,
    caller: Seq<u8>,
    ct: u8,
    content: Seq<u8>,
    link: Seq<u8>,
    fp: Seq<u8>,
    balance: u128,
    transfer_ok: bool,
) -> (StorageModel, Result<Seq<u8>, Error>) {
    let tab = cat_table(s, ct);
    if acct_claims(tab, caller).len() > 490 {
        (s, Err(Error::DataTooLarge))
    } else if rec_contains(s.records, fp) {
        (s, Err(Error::DuplicateClaim))
    } else {
        let made = EventModel::ClaimMade { claimtype: ct, claimant: caller, claim: content, claim_id: fp };
        let s1 = with_cat_table(
            StorageModel {
                records: s.records.push(new_claim(caller, ct, content, link, fp)),
                claim_counter: spec_sat_add(s.claim_counter, 1),
                events: s.events.push(made),
                ..s
            },
            ct,
            acct_upsert(tab, caller, fp),
        );
        if reward_triggered(s1, balance) {
            if transfer_ok {
                let paid = EventModel::Rewarded { claimant: caller, reward: s.reward_amount };
                let s2 = StorageModel {
                    reward_balance: spec_sat_sub(s1.reward_balance, s1.reward_amount),
                    reward_payouts: spec_sat_add(s1.reward_payouts, s1.reward_amount),
                    events: s1.events.push(paid),
                    ..s1
                };
                (s2, Ok(fp))
            } else {
                (s, Err(Error::PayoutFailed))
            }
        } else {
            (s1, Ok(fp))
        }
    }
}

/// Endorsement of a claim. Within capacity the endorser is appended and the
/// count incremented; at capacity the endorsement event is still emitted but
/// the record is left unchanged.
pub open spec fn endorse_transition(
    s: StorageModel,
    caller: Seq<u8>,
    fp: Seq<u8>,
) -> (StorageModel, Result<(), Error>) {
    let i = rec_find(s.records, fp);
    if i < 0 {
        (s, Err(Error::NonexistentClaim))
    } else {
        let c = s.records[i];
        if c.endorsers.contains(caller) {
            (s, Err(Error::DuplicateEndorsement))
        } else {
            let ev = EventModel::Endorsed { claimant: c.claimant, claim_id: fp, endorser: caller };
            if c.endorsers.len() < capacity() {
                let c2 = ClaimModel {
                    endorser_count: spec_sat_add(c.endorser_count, 1),
                    endorsers: c.endorsers.push(caller),
                    ..c
                };
                (
                    StorageModel {
                        records: s.records.update(i, c2),
                        events: s.events.push(ev),
                        ..s
                    },
                    Ok(()),
                )
            } else {
                (StorageModel { events: s.events.push(ev), ..s }, Ok(()))
            }
        }
    }
}

/// Toggling a record's display flag, allowed to the claimant alone. No event
/// is emitted.
pub open spec fn visibility_transition(
    s: StorageModel,
    caller: Seq<u8>,
    fp: Seq<u8>,
    show: bool,
) -> (StorageModel, Result<(), Error>) {
    let i = rec_find(s.records, fp);
    if i >= 0 && s.records[i].claimant == caller {
        let c2 = ClaimModel { show: show, ..s.records[i] };
        (StorageModel { records: s.records.update(i, c2), ..s }, Ok(()))
    } else {
        (s, Err(Error::CallerNotOwner))
    }
}

/// Claiming or rotating the reward root: anyone may claim the unset root
/// once; afterwards only the current root may rotate it.
pub open spec fn set_root_transition(
    s: StorageModel,
    caller: Seq<u8>,
    newroot: Seq<u8>,
) -> (StorageModel, Result<(), Error>) {
    if s.reward_root_set != 1 || s.reward_root == caller {
        (StorageModel { reward_root: newroot, reward_root_set: 1, ..s }, Ok(()))
    } else {
        (s, Err(Error::PermissionDenied))
    }
}

/// Root-only configuration of the trigger parameters.
pub open spec fn set_reward_transition(
    s: StorageModel,
    caller: Seq<u8>,
    on: u8,
    interval: u128,
    amount: u128,
) -> (StorageModel, Result<(), Error>) {
    if s.reward_root == caller {
        (
            StorageModel { reward_on: on, reward_interval: interval, reward_amount: amount, ..s },
            Ok(()),
        )
    } else {
        (s, Err(Error::PermissionDenied))
    }
}

/// Root-only funding: the transferred value is credited to the reward
/// balance.
pub open spec fn fund_transition(
    s: StorageModel,
    caller: Seq<u8>,
    staked: u128,
) -> (StorageModel, Result<(), Error>) {
    if s.reward_root == caller {
        (StorageModel { reward_balance: spec_sat_add(s.reward_balance, staked), ..s }, Ok(()))
    } else {
        (s, Err(Error::PermissionDenied))
    }
}

/// The refund a successful shutdown pays back to the root: the reward balance
/// less the reserved floor.
pub open spec fn spec_shutdown_refund(s: StorageModel, balance: u128) -> Option<u128> {
    if balance > 10 && s.reward_balance > 0 {
        Some(spec_sat_sub(s.reward_balance, 10))
    } else {
        None
    }
}

/// Root-only shutdown: switches the program off and refunds the balance less
/// the reserved floor to the root. With no disbursable funds, or on a failed
/// transfer, the whole call fails and the program stays as it was.
pub open spec fn shutdown_transition(
    s: StorageModel,
    caller: Seq<u8>,
    balance: u128,
    transfer_ok: bool,
) -> (StorageModel, Result<(), Error>) {
    if s.reward_root == caller {
        if balance > 10 && s.reward_balance > 0 {
            if transfer_ok {
                (StorageModel { reward_on: 0, ..s }, Ok(()))
            } else {
                (s, Err(Error::PayoutFailed))
            }
        } else {
            (s, Err(Error::ZeroBalance))
        }
    } else {
        (s, Err(Error::PermissionDenied))
    }
}

/// What `get_reward_settings` returns: the real configuration to the root,
/// the zeroed default to anyone else.
pub open spec fn settings_for(s: StorageModel, caller: Seq<u8>) -> RewardSettingsModel {
    if s.reward_root == caller {
        RewardSettingsModel {
            reward_on: s.reward_on,
            reward_root_set: s.reward_root_set,
            reward_root: s.reward_root,
            reward_interval: s.reward_interval,
            reward_amount: s.reward_amount,
            reward_balance: s.reward_balance,
            reward_payouts: s.reward_payouts,
            claim_counter: s.claim_counter,
        }
    } else {
        default_settings()
    }
}

// ---------------------------------------------------------------------------
// The transitions preserve the registry invariant
// ---------------------------------------------------------------------------

/// An accepted submission keeps the registry well formed.
pub proof fn lemma_submit_wf(
    s: StorageModel,
    caller: Seq<u8>,
    ct: u8,
    content: Seq<u8>,
    link: Seq<u8>,
    fp: Seq<u8>,
    balance: u128,
    transfer_ok: bool,
)
    requires
        wf(s),
        1 <= ct <= 5,
        caller.len() == 32,
        fp.len() == 32,
    ensures
        wf(submit_transition(s, caller, ct, content, link, fp, balance, transfer_ok).0),
{
    let tab = cat_table(s, ct);
    if acct_claims(tab, caller).len() > 490 || rec_contains(s.records, fp) {
    } else {
        let c = new_claim(caller, ct, content, link, fp);
        let rs2 = s.records.push(c);
        let tab2 = acct_upsert(tab, caller, fp);

        assert(claim_wf(c));
        lemma_rec_find_props(s.records, fp);
        assert(forall|i: int| 0 <= i < s.records.len() ==> s.records[i].claim_id != fp);
        assert(forall|i: int| 0 <= i < rs2.len() ==> claim_wf(#[trigger] rs2[i]));
        assert(forall|i: int, j: int|
            0 <= i < j < rs2.len() ==> rs2[i].claim_id != rs2[j].claim_id);

        lemma_tab_wf_push(s.workhistory, s.records, c);
        lemma_tab_wf_push(s.education, s.records, c);
        lemma_tab_wf_push(s.expertise, s.records, c);
        lemma_tab_wf_push(s.gooddeeds, s.records, c);
        lemma_tab_wf_push(s.intellectualproperty, s.records, c);

        lemma_rec_find_push(s.records, fp, c);
        assert(rec_contains(rs2, fp));
        lemma_acct_find_props(tab, caller);
        let i = acct_find(tab, caller);
        assert forall|k: int|
            0 <= k < tab2.len() implies (#[trigger] tab2[k]).1.len() <= capacity() && (forall|j: int|
            0 <= j < tab2[k].1.len() ==> rec_contains(rs2, #[trigger] tab2[k].1[j])) by {
            if i >= 0 && k == i {
                assert(tab2[k].1 == tab[i].1.push(fp));
                assert forall|j: int|
                    0 <= j < tab2[k].1.len() implies rec_contains(rs2, #[trigger] tab2[k].1[j]) by {
                    if j < tab[i].1.len() {
                        assert(tab2[k].1[j] == tab[i].1[j]);
                        lemma_rec_find_push(s.records, tab[i].1[j], c);
                    } else {
                        assert(tab2[k].1[j] == fp);
                    }
                }
            } else if i < 0 && k == tab.len() {
                assert(tab2[k].1 =~= seq![fp]);
            } else {
                assert(tab2[k] == tab[k]);
                assert forall|j: int|
                    0 <= j < tab2[k].1.len() implies rec_contains(rs2, #[trigger] tab2[k].1[j]) by {
                    lemma_rec_find_push(s.records, tab[k].1[j], c);
                }
            }
        }
        assert(tab_wf(tab2, rs2));
    }
}

/// An endorsement keeps the registry well formed.
pub proof fn lemma_endorse_wf(s: StorageModel, caller: Seq<u8>, fp: Seq<u8>)
    requires
        wf(s),
    ensures
        wf(endorse_transition(s, caller, fp).0),
{
    let i = rec_find(s.records, fp);
    lemma_rec_find_props(s.records, fp);
    if i >= 0 {
        let c = s.records[i];
        if !c.endorsers.contains(caller) && c.endorsers.len() < capacity() {
            let c2 = ClaimModel {
                endorser_count: spec_sat_add(c.endorser_count, 1),
                endorsers: c.endorsers.push(caller),
                ..c
            };
            let rs2 = s.records.update(i, c2);
            assert(forall|k: int| 0 <= k < c.endorsers.len() ==> c.endorsers[k] != caller);
            assert(claim_wf(c2));
            assert(forall|k: int| 0 <= k < rs2.len() ==> claim_wf(#[trigger] rs2[k]));
            lemma_tab_wf_update(s.workhistory, s.records, i, c2);
            lemma_tab_wf_update(s.education, s.records, i, c2);
            lemma_tab_wf_update(s.expertise, s.records, i, c2);
            lemma_tab_wf_update(s.gooddeeds, s.records, i, c2);
            lemma_tab_wf_update(s.intellectualproperty, s.records, i, c2);
        }
    }
}

/// A visibility toggle keeps the registry well formed.
pub proof fn lemma_visibility_wf(s: StorageModel, caller: Seq<u8>, fp: Seq<u8>, show: bool)
    requires
        wf(s),
    ensures
        wf(visibility_transition(s, caller, fp, show).0),
{
    let i = rec_find(s.records, fp);
    lemma_rec_find_props(s.records, fp);
    if i >= 0 && s.records[i].claimant == caller {
        let c2 = ClaimModel { show: show, ..s.records[i] };
        let rs2 = s.records.update(i, c2);
        assert(claim_wf(c2));
        assert(forall|k: int| 0 <= k < rs2.len() ==> claim_wf(#[trigger] rs2[k]));
        lemma_tab_wf_update(s.workhistory, s.records, i, c2);
        lemma_tab_wf_update(s.education, s.records, i, c2);
        lemma_tab_wf_update(s.expertise, s.records, i, c2);
        lemma_tab_wf_update(s.gooddeeds, s.records, i, c2);
        lemma_tab_wf_update(s.intellectualproperty, s.records, i, c2);
    }
}

/// A byte-vector result seen at the model level.
pub open spec fn res_bytes(r: Result<Vec<u8>, Error>) -> Result<Seq<u8>, Error> {
    match r {
        Ok(v) => Ok(v@),
        Err(e) => Err(e),
    }
}

} // verus!
