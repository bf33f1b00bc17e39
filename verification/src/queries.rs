//! Read-only projections of the registry: full records, per-account resumes,
//! endorser lists, the literal keyword search over the ledger, per-account
//! claim counts, and the observable event log.

use vstd::prelude::*;

use crate::model::acct_claims;
use crate::model::lemma_acct_claims_bound;
use crate::model::lookup_all;
use crate::model::rec_lookup;
use crate::model::resume_of;
use crate::model::wf;
use crate::registry::ContractStorage;
use crate::search::matching_records;
use crate::search::payload_matches;
use crate::search::check_utf8;
use crate::search::text_of;
use crate::types::Details;
use crate::types::Event;

verus! {

impl ContractStorage {
    /// Appends, for each fingerprint in order, the full record it names (or
    /// the sentinel for an absent one).
    fn append_lookups(&self, fps: &Vec<Vec<u8>>, out: &mut Vec<Details>)
        ensures
            final(out).deep_view() == old(out).deep_view() + lookup_all(
                self@.records,
                fps.deep_view(),
            ),
    {
        let mut i: usize = 0;
        while i < fps.len()
            invariant
                i <= fps.len(),
                out.deep_view() =~~= old(out).deep_view() + lookup_all(
                    self@.records,
                    fps.deep_view().take(i as int),
                ),
            decreases fps.len() - i,
        {
            let d = self.claim_details.get_or_default(&fps[i]);
            let ghost pre = out.deep_view();
            out.push(d);
            proof {
                assert(out.deep_view() =~~= pre.push(d@));
                let taken = fps.deep_view().take(i + 1);
                assert(taken.drop_last() =~= fps.deep_view().take(i as int));
                assert(taken.last() == fps.deep_view()[i as int]);
                assert(fps.deep_view()[i as int] == fps[i as int]@);
                assert(lookup_all(self@.records, taken) == lookup_all(
                    self@.records,
                    fps.deep_view().take(i as int),
                ).push(rec_lookup(self@.records, fps[i as int]@)));
                assert(out.deep_view() =~~= old(out).deep_view() + lookup_all(
                    self@.records,
                    taken,
                ));
            }
            i += 1;
        }
        proof {
            assert(fps.deep_view().take(fps.deep_view().len() as int) =~= fps.deep_view());
        }
    }

    /// The full records behind every claim the account has made, in the
    /// fixed category order: work history, education, expertise, good deeds,
    /// intellectual property.
    pub fn get_resume(&self, owner: Vec<u8>) -> (r: Vec<Details>)
        ensures
            r.deep_view() == resume_of(self@, owner@),
    {
        let mut out: Vec<Details> = Vec::new();
        let work = self.account_claims_workhistory.claims_of(&owner);
        self.append_lookups(&work, &mut out);
        let ed = self.account_claims_education.claims_of(&owner);
        self.append_lookups(&ed, &mut out);
        let expert = self.account_claims_expertise.claims_of(&owner);
        self.append_lookups(&expert, &mut out);
        let deeds = self.account_claims_gooddeeds.claims_of(&owner);
        self.append_lookups(&deeds, &mut out);
        let ip = self.account_claims_intellectualproperty.claims_of(&owner);
        self.append_lookups(&ip, &mut out);
        proof {
            assert(out.deep_view() =~~= resume_of(self@, owner@));
        }
        out
    }

    /// The complete record of one fingerprint, or the sentinel record (with
    /// a zeroed category tag) if it is not registered.
    pub fn get_full_details(&self, claim_id: Vec<u8>) -> (d: Details)
        ensures
            d@ == rec_lookup(self@.records, claim_id@),
    {
        self.claim_details.get_or_default(&claim_id)
    }

    /// The endorser list of one fingerprint, empty if it is not registered.
    pub fn get_endorsers(&self, claim_id: Vec<u8>) -> (r: Vec<Vec<u8>>)
        ensures
            r.deep_view() == rec_lookup(self@.records, claim_id@).endorsers,
    {
        match self.claim_details.find(&claim_id) {
            Some(i) => {
                proof {
                    crate::model::lemma_rec_find_props(self@.records, claim_id@);
                }
                self.claim_details.endorsers_at(i)
            },
            None => {
                let r: Vec<Vec<u8>> = Vec::new();
                proof {
                    assert(r.deep_view() =~~= rec_lookup(self@.records, claim_id@).endorsers);
                }
                r
            },
        }
    }

    /// Every record whose content, decoded as text, contains the decoded
    /// query as a literal substring, in ledger order. A payload that is not
    /// valid text counts as the empty string.
    pub fn get_matching_claims(&self, keywords: Vec<u8>) -> (r: Vec<Details>)
        ensures
            r.deep_view() == matching_records(self@.records, text_of(keywords@)),
    {
        let qn: Vec<u8> = if check_utf8(&keywords) {
            keywords
        } else {
            Vec::new()
        };
        let mut out: Vec<Details> = Vec::new();
        let total = self.claim_details.len();
        let mut i: usize = 0;
        while i < total
            invariant
                i <= total,
                total == self@.records.len(),
                qn@ == text_of(keywords@),
                out.deep_view() =~~= matching_records(self@.records.take(i as int), qn@),
            decreases total - i,
        {
            let row = self.claim_details.row_at(i);
            let matched = payload_matches(&row.claim, &qn);
            proof {
                let taken = self@.records.take(i + 1);
                assert(taken.drop_last() =~= self@.records.take(i as int));
                assert(taken.last() == self@.records[i as int]);
            }
            if matched {
                out.push(row);
            }
            proof {
                assert(out.deep_view() =~~= matching_records(
                    self@.records.take(i + 1),
                    qn@,
                ));
            }
            i += 1;
        }
        proof {
            assert(self@.records.take(self@.records.len() as int) =~= self@.records);
        }
        out
    }

    /// The five per-category submission counts of an account, in the fixed
    /// category order, as a cheap credibility signal.
    pub fn verify_account(&self, owner: Vec<u8>) -> (r: (u32, u32, u32, u32, u32))
        requires
            wf(self@),
        ensures
            r.0 == acct_claims(self@.workhistory, owner@).len(),
            r.1 == acct_claims(self@.education, owner@).len(),
            r.2 == acct_claims(self@.expertise, owner@).len(),
            r.3 == acct_claims(self@.gooddeeds, owner@).len(),
            r.4 == acct_claims(self@.intellectualproperty, owner@).len(),
    {
        proof {
            lemma_acct_claims_bound(self@.workhistory, self@.records, owner@);
            lemma_acct_claims_bound(self@.education, self@.records, owner@);
            lemma_acct_claims_bound(self@.expertise, self@.records, owner@);
            lemma_acct_claims_bound(self@.gooddeeds, self@.records, owner@);
            lemma_acct_claims_bound(self@.intellectualproperty, self@.records, owner@);
        }
        let work = self.account_claims_workhistory.claims_len(&owner);
        let ed = self.account_claims_education.claims_len(&owner);
        let expert = self.account_claims_expertise.claims_len(&owner);
        let deeds = self.account_claims_gooddeeds.claims_len(&owner);
        let ip = self.account_claims_intellectualproperty.claims_len(&owner);
        (work as u32, ed as u32, expert as u32, deeds as u32, ip as u32)
    }

    /// How many claims the ledger holds.
    pub fn ledger_len(&self) -> (n: usize)
        ensures
            n == self@.records.len(),
    {
        self.claim_details.len()
    }

    /// The observable event log, in call order.
    pub fn event_log(&self) -> (r: &Vec<Event>)
        ensures
            r.deep_view() == self@.events,
    {
        &self.events
    }
}

} // verus!
