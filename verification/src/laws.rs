//! Registry-wide laws, stated over the model transitions that the executable
//! methods are proved to follow.

use vstd::prelude::*;

use crate::bytes::spec_sat_add;
use crate::bytes::spec_sat_sub;
use crate::hashing::fingerprint_of;
use crate::model::acct_claims;
use crate::model::capacity;
use crate::model::cat_table;
use crate::model::endorse_transition;
use crate::model::fund_transition;
use crate::model::lemma_acct_upsert_claims;
use crate::model::lemma_endorse_wf;
use crate::model::lemma_rec_find_props;
use crate::model::lemma_rec_find_push;
use crate::model::lemma_rec_find_update;
use crate::model::rec_contains;
use crate::model::rec_lookup;
use crate::model::set_reward_transition;
use crate::model::set_root_transition;
use crate::model::shutdown_transition;
use crate::model::submit_transition;
use crate::model::visibility_transition;
use crate::model::wf;
use crate::model::StorageModel;
use crate::types::Error;
use crate::types::EventModel;

verus! {

/// Submitting twice with identical caller and content derives the same
/// fingerprint both times, so the second call fails with `DuplicateClaim`
/// and changes nothing: neither the ledger nor any account index grows.
/// (The caller must not be at the category capacity bound, where the
/// capacity check precedes the dedup check.)
pub proof fn lemma_duplicate_submission(
    s: StorageModel,
    caller: Seq<u8>,
    ct: u8,
    content: Seq<u8>,
    link1: Seq<u8>,
    link2: Seq<u8>,
    b1: u128,
    b2: u128,
    ok1: bool,
    ok2: bool,
)
    requires
        1 <= ct <= 5,
        acct_claims(cat_table(s, ct), caller).len() < 490,
        submit_transition(s, caller, ct, content, link1, fingerprint_of(caller, content), b1, ok1).1 is Ok,
    ensures
        ({
            let fp = fingerprint_of(caller, content);
            let s1 = submit_transition(s, caller, ct, content, link1, fp, b1, ok1).0;
            submit_transition(s1, caller, ct, content, link2, fp, b2, ok2) == (
                s1,
                Err::<Seq<u8>, Error>(Error::DuplicateClaim),
            )
        }),
{
    let fp = fingerprint_of(caller, content);
    let tab = cat_table(s, ct);
    let claim = crate::model::new_claim(caller, ct, content, link1, fp);
    let s1 = submit_transition(s, caller, ct, content, link1, fp, b1, ok1).0;
    lemma_rec_find_props(s.records, fp);
    lemma_rec_find_push(s.records, fp, claim);
    assert(rec_contains(s1.records, fp));
    lemma_acct_upsert_claims(tab, caller, fp, caller);
    assert(acct_claims(cat_table(s1, ct), caller).len() == acct_claims(tab, caller).len() + 1);
}

/// Submitting the same content from two different callers whose derived
/// fingerprints differ succeeds for both and registers two distinct
/// fingerprints. (That different callers always derive different
/// fingerprints is the collision resistance of the hash, which is assumed of
/// the host primitive, not proved.)
pub proof fn lemma_distinct_callers_both_succeed(
    s: StorageModel,
    a: Seq<u8>,
    b: Seq<u8>,
    ct: u8,
    content: Seq<u8>,
    link: Seq<u8>,
    b1: u128,
    b2: u128,
)
    requires
        1 <= ct <= 5,
        fingerprint_of(a, content) != fingerprint_of(b, content),
        acct_claims(cat_table(s, ct), a).len() <= 490,
        acct_claims(cat_table(s, ct), b).len() <= 490,
        !rec_contains(s.records, fingerprint_of(a, content)),
        !rec_contains(s.records, fingerprint_of(b, content)),
    ensures
        ({
            let fpa = fingerprint_of(a, content);
            let fpb = fingerprint_of(b, content);
            let (s1, r1) = submit_transition(s, a, ct, content, link, fpa, b1, true);
            let (s2, r2) = submit_transition(s1, b, ct, content, link, fpb, b2, true);
            r1 == Ok::<Seq<u8>, Error>(fpa) && r2 == Ok::<Seq<u8>, Error>(fpb) && fpa != fpb
        }),
{
    let fpa = fingerprint_of(a, content);
    let fpb = fingerprint_of(b, content);
    let tab = cat_table(s, ct);
    let claim = crate::model::new_claim(a, ct, content, link, fpa);
    let (s1, r1) = submit_transition(s, a, ct, content, link, fpa, b1, true);
    assert(r1 == Ok::<Seq<u8>, Error>(fpa));
    assert(a != b);
    lemma_acct_upsert_claims(tab, a, fpa, b);
    assert(acct_claims(cat_table(s1, ct), b) == acct_claims(tab, b));
    lemma_rec_find_push(s.records, fpb, claim);
    assert(!rec_contains(s1.records, fpb));
}

/// An accepted submission is immediately retrievable: the fingerprint the
/// call returns names a record holding exactly the submitted category,
/// claimant, content and link, visible, with the claimant as sole endorser
/// and a third-party endorsement count of zero.
pub proof fn lemma_submission_retrievable(
    s: StorageModel,
    caller: Seq<u8>,
    ct: u8,
    content: Seq<u8>,
    link: Seq<u8>,
    fp: Seq<u8>,
    balance: u128,
    ok: bool,
)
    requires
        submit_transition(s, caller, ct, content, link, fp, balance, ok).1 is Ok,
    ensures
        ({
            let s2 = submit_transition(s, caller, ct, content, link, fp, balance, ok).0;
            rec_contains(s2.records, fp) && rec_lookup(s2.records, fp) == crate::model::new_claim(
                caller,
                ct,
                content,
                link,
                fp,
            )
        }),
{
    let claim = crate::model::new_claim(caller, ct, content, link, fp);
    lemma_rec_find_props(s.records, fp);
    lemma_rec_find_push(s.records, fp, claim);
}

/// The endorsement count reflects third-party endorsements only: after any
/// endorsement call on a well-formed registry, every record's count equals
/// its endorser-list length less the claimant's own entry, the claimant
/// stays the first endorser, and no endorser appears twice.
pub proof fn lemma_endorser_count_excludes_claimant(s: StorageModel, caller: Seq<u8>, fp: Seq<u8>)
    requires
        wf(s),
    ensures
        ({
            let s2 = endorse_transition(s, caller, fp).0;
            forall|i: int|
                0 <= i < s2.records.len() ==> {
                    let c = #[trigger] s2.records[i];
                    c.endorser_count == c.endorsers.len() - 1 && c.endorsers[0] == c.claimant
                        && (forall|p: int, q: int|
                        0 <= p < q < c.endorsers.len() ==> c.endorsers[p] != c.endorsers[q])
                }
        }),
{
    lemma_endorse_wf(s, caller, fp);
}

/// Endorsing the same claim twice from the same account fails the second
/// time with `DuplicateEndorsement` and leaves the registry unchanged. (The
/// claim must be below the endorser capacity at the first call; at capacity
/// the first endorsement is only acknowledged in the event log, so the
/// second is not a duplicate.)
pub proof fn lemma_duplicate_endorsement(s: StorageModel, caller: Seq<u8>, fp: Seq<u8>)
    requires
        wf(s),
        rec_contains(s.records, fp),
        !rec_lookup(s.records, fp).endorsers.contains(caller),
        rec_lookup(s.records, fp).endorsers.len() < capacity(),
    ensures
        endorse_transition(s, caller, fp).1 == Ok::<(), Error>(()),
        ({
            let s1 = endorse_transition(s, caller, fp).0;
            endorse_transition(s1, caller, fp) == (s1, Err::<(), Error>(Error::DuplicateEndorsement))
        }),
{
    let i = crate::model::rec_find(s.records, fp);
    lemma_rec_find_props(s.records, fp);
    let c = s.records[i];
    let c2 = crate::types::ClaimModel {
        endorser_count: spec_sat_add(c.endorser_count, 1),
        endorsers: c.endorsers.push(caller),
        ..c
    };
    let s1 = endorse_transition(s, caller, fp).0;
    lemma_rec_find_update(s.records, fp, i, c2);
    assert(s1.records[i] == c2);
    assert(c2.endorsers.contains(caller)) by {
        assert(c2.endorsers[c.endorsers.len() as int] == caller);
    }
}

/// `set_visibility` from any account other than the claimant (or on an
/// unregistered fingerprint) fails with `CallerNotOwner` and changes
/// nothing, so every record's display flag stays as it was.
pub proof fn lemma_visibility_denied(s: StorageModel, caller: Seq<u8>, fp: Seq<u8>, show: bool)
    requires
        rec_contains(s.records, fp) ==> rec_lookup(s.records, fp).claimant != caller,
    ensures
        visibility_transition(s, caller, fp, show) == (s, Err::<(), Error>(Error::CallerNotOwner)),
{
    lemma_rec_find_props(s.records, fp);
}

/// The reward trigger is deterministic and counter-based: an accepted
/// submission increments the claim counter by exactly one, and it pays out
/// exactly when the program is on, the reward balance exceeds the amount,
/// the contract balance exceeds the amount plus the reserved floor, and the
/// new counter is a multiple of the (positive) interval. A payout debits the
/// reward balance, credits the payout total and appends the reward event;
/// otherwise the reward state is untouched.
pub proof fn lemma_reward_trigger(
    s: StorageModel,
    caller: Seq<u8>,
    ct: u8,
    content: Seq<u8>,
    link: Seq<u8>,
    fp: Seq<u8>,
    balance: u128,
    ok: bool,
)
    requires
        submit_transition(s, caller, ct, content, link, fp, balance, ok).1 is Ok,
    ensures
        ({
            let s2 = submit_transition(s, caller, ct, content, link, fp, balance, ok).0;
            let counted = spec_sat_add(s.claim_counter, 1);
            let fires = s.reward_on == 1 && s.reward_balance > s.reward_amount && balance
                > spec_sat_add(s.reward_amount, 10) && s.reward_interval > 0 && counted
                % s.reward_interval == 0;
            s2.claim_counter == counted && if fires {
                s2.reward_balance == spec_sat_sub(s.reward_balance, s.reward_amount)
                    && s2.reward_payouts == spec_sat_add(s.reward_payouts, s.reward_amount)
                    && s2.events.last() == (EventModel::Rewarded {
                    claimant: caller,
                    reward: s.reward_amount,
                })
            } else {
                s2.reward_balance == s.reward_balance && s2.reward_payouts == s.reward_payouts
                    && s2.events == s.events.push(
                    EventModel::ClaimMade {
                        claimtype: ct,
                        claimant: caller,
                        claim: content,
                        claim_id: fp,
                    },
                )
            }
        }),
{
}

/// An account's category index holds at most the claimant slot bound of 491
/// fingerprints: the submission that would make it grow past the bound (the
/// 492nd) fails with `DataTooLarge` and nothing else ever returns that
/// error, while below the bound a fresh, payable submission is accepted.
pub proof fn lemma_submission_capacity(
    s: StorageModel,
    caller: Seq<u8>,
    ct: u8,
    content: Seq<u8>,
    link: Seq<u8>,
    fp: Seq<u8>,
    balance: u128,
)
    requires
        1 <= ct <= 5,
    ensures
        acct_claims(cat_table(s, ct), caller).len() > 490 <==> submit_transition(
            s,
            caller,
            ct,
            content,
            link,
            fp,
            balance,
            true,
        ).1 == Err::<Seq<u8>, Error>(Error::DataTooLarge),
        acct_claims(cat_table(s, ct), caller).len() <= 490 && !rec_contains(s.records, fp)
            ==> submit_transition(s, caller, ct, content, link, fp, balance, true).1 == Ok::<
            Seq<u8>,
            Error,
        >(fp),
{
}

/// The parts of a record that are fixed at creation: everything but the
/// display flag and the endorser list with its count.
pub open spec fn same_immutable_fields(a: crate::types::ClaimModel, b: crate::types::ClaimModel) -> bool {
    &&& a.claimtype == b.claimtype
    &&& a.claimant == b.claimant
    &&& a.claim == b.claim
    &&& a.claim_id == b.claim_id
    &&& a.link == b.link
}

/// The ledger is append-only and accepted records are permanent: every
/// operation leaves the stored records in place — their category, claimant,
/// content, fingerprint and link untouched — and at most appends new ones at
/// the end.
pub proof fn lemma_ledger_append_only(
    s: StorageModel,
    caller: Seq<u8>,
    ct: u8,
    content: Seq<u8>,
    link: Seq<u8>,
    fp: Seq<u8>,
    balance: u128,
    ok: bool,
    show: bool,
)
    ensures
        ({
            let after_submit = submit_transition(s, caller, ct, content, link, fp, balance, ok).0;
            after_submit.records.len() >= s.records.len() && forall|i: int|
                0 <= i < s.records.len() ==> same_immutable_fields(
                    s.records[i],
                    #[trigger] after_submit.records[i],
                )
        }),
        ({
            let after_endorse = endorse_transition(s, caller, fp).0;
            after_endorse.records.len() == s.records.len() && forall|i: int|
                0 <= i < s.records.len() ==> same_immutable_fields(
                    s.records[i],
                    #[trigger] after_endorse.records[i],
                )
        }),
        ({
            let after_toggle = visibility_transition(s, caller, fp, show).0;
            after_toggle.records.len() == s.records.len() && forall|i: int|
                0 <= i < s.records.len() ==> same_immutable_fields(
                    s.records[i],
                    #[trigger] after_toggle.records[i],
                )
        }),
{
    lemma_rec_find_props(s.records, fp);
}

/// Any caller other than the current reward root is handed the all-default,
/// zeroed settings value, never the real configuration.
pub proof fn lemma_settings_hidden_from_non_root(s: StorageModel, caller: Seq<u8>)
    requires
        s.reward_root != caller,
    ensures
        crate::model::settings_for(s, caller) == crate::types::default_settings(),
{
}

/// Errors are never partially applied: whenever an operation returns an
/// error, the whole registry — records, indices, reward state and event log
/// — is exactly as it was before the call.
pub proof fn lemma_errors_atomic(
    s: StorageModel,
    caller: Seq<u8>,
    ct: u8,
    content: Seq<u8>,
    link: Seq<u8>,
    fp: Seq<u8>,
    balance: u128,
    ok: bool,
    show: bool,
    newroot: Seq<u8>,
    on: u8,
    interval: u128,
    amount: u128,
)
    ensures
        submit_transition(s, caller, ct, content, link, fp, balance, ok).1 is Err
            ==> submit_transition(s, caller, ct, content, link, fp, balance, ok).0 == s,
        endorse_transition(s, caller, fp).1 is Err ==> endorse_transition(s, caller, fp).0 == s,
        visibility_transition(s, caller, fp, show).1 is Err ==> visibility_transition(
            s,
            caller,
            fp,
            show,
        ).0 == s,
        set_root_transition(s, caller, newroot).1 is Err ==> set_root_transition(
            s,
            caller,
            newroot,
        ).0 == s,
        set_reward_transition(s, caller, on, interval, amount).1 is Err ==> set_reward_transition(
            s,
            caller,
            on,
            interval,
            amount,
        ).0 == s,
        fund_transition(s, caller, amount).1 is Err ==> fund_transition(s, caller, amount).0 == s,
        shutdown_transition(s, caller, balance, ok).1 is Err ==> shutdown_transition(
            s,
            caller,
            balance,
            ok,
        ).0 == s,
{
}

} // verus!
