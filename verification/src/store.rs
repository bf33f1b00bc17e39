//! The record store: the content-addressed table of claim records, kept in
//! acceptance order so that it is also the global ledger for linear scans.

use vstd::prelude::*;

use crate::bytes::bytes_clone;
use crate::bytes::bytes_eq;
use crate::bytes::bytes_list_clone;
use crate::bytes::sat_add;
use crate::bytes::spec_sat_add;
use crate::model::lemma_rec_find_first;
use crate::model::lemma_rec_find_props;
use crate::model::rec_contains;
use crate::model::rec_find;
use crate::model::rec_lookup;
use crate::types::ClaimModel;
use crate::types::Details;

verus! {

/// Append-only table of claim records, addressed by fingerprint; the row
/// order is the ledger (acceptance) order.
pub struct DetailsTable {
    pub(crate) rows: Vec<Details>,
}

impl View for DetailsTable {
    type V = Seq<ClaimModel>;

    open(crate) spec fn view(&self) -> Seq<ClaimModel> {
        self.rows.deep_view()
    }
}

impl DetailsTable {
    /// The empty store.
    pub fn new() -> (t: DetailsTable)
        ensures
            t@ =~= Seq::<ClaimModel>::empty(),
    {
        DetailsTable { rows: Vec::new() }
    }

    /// Number of accepted claims.
    pub fn len(&self) -> (n: usize)
        ensures
            n == self@.len(),
    {
        self.rows.len()
    }

    /// Index of the record with the given fingerprint, if any.
    pub fn find(&self, fp: &Vec<u8>) -> (r: Option<usize>)
        ensures
            match r {
                Some(i) => rec_find(self@, fp@) == i as int,
                None => rec_find(self@, fp@) == -1,
            },
    {
        let mut i: usize = 0;
        while i < self.rows.len()
            invariant
                i <= self.rows.len(),
                self@.len() == self.rows.len(),
                forall|j: int| 0 <= j < i ==> self@[j].claim_id != fp@,
            decreases self.rows.len() - i,
        {
            proof {
                assert(self@[i as int] == self.rows[i as int]@);
            }
            if bytes_eq(&self.rows[i].claim_id, fp) {
                proof {
                    lemma_rec_find_first(self@, fp@, i as int);
                }
                return Some(i);
            }
            i += 1;
        }
        proof {
            lemma_rec_find_props(self@, fp@);
        }
        None
    }

    /// Whether a record with the given fingerprint exists.
    pub fn contains_fp(&self, fp: &Vec<u8>) -> (r: bool)
        ensures
            r == rec_contains(self@, fp@),
    {
        self.find(fp).is_some()
    }

    /// The record with the given fingerprint, or the sentinel record if none
    /// exists.
    pub fn get_or_default(&self, fp: &Vec<u8>) -> (d: Details)
        ensures
            d@ == rec_lookup(self@, fp@),
    {
        match self.find(fp) {
            Some(i) => {
                proof {
                    lemma_rec_find_props(self@, fp@);
                    assert(self@[i as int] == self.rows[i as int]@);
                }
                self.rows[i].duplicate()
            },
            None => Details::default(),
        }
    }

    /// An owned copy of the record at a ledger position.
    pub fn row_at(&self, i: usize) -> (d: Details)
        requires
            i < self@.len(),
        ensures
            d@ == self@[i as int],
    {
        proof {
            assert(self@[i as int] == self.rows[i as int]@);
        }
        self.rows[i].duplicate()
    }

    /// An owned copy of the claimant of the record at an index.
    pub fn claimant_at(&self, i: usize) -> (r: Vec<u8>)
        requires
            i < self@.len(),
        ensures
            r@ == self@[i as int].claimant,
    {
        proof {
            assert(self@[i as int] == self.rows[i as int]@);
        }
        bytes_clone(&self.rows[i].claimant)
    }

    /// Whether the given account is the claimant of the record at an index.
    pub fn claimant_is(&self, i: usize, who: &Vec<u8>) -> (r: bool)
        requires
            i < self@.len(),
        ensures
            r == (self@[i as int].claimant == who@),
    {
        proof {
            assert(self@[i as int] == self.rows[i as int]@);
        }
        bytes_eq(&self.rows[i].claimant, who)
    }

    /// Number of endorsers (the claimant included) of the record at an index.
    pub fn endorsers_len_at(&self, i: usize) -> (n: usize)
        requires
            i < self@.len(),
        ensures
            n == self@[i as int].endorsers.len(),
    {
        proof {
            assert(self@[i as int] == self.rows[i as int]@);
        }
        self.rows[i].endorsers.len()
    }

    /// Whether the given account is already an endorser of the record at an
    /// index.
    pub fn has_endorser(&self, i: usize, who: &Vec<u8>) -> (r: bool)
        requires
            i < self@.len(),
        ensures
            r == self@[i as int].endorsers.contains(who@),
    {
        proof {
            assert(self@[i as int] == self.rows[i as int]@);
        }
        let es = &self.rows[i].endorsers;
        let mut j: usize = 0;
        while j < es.len()
            invariant
                j <= es.len(),
                es.deep_view() == self@[i as int].endorsers,
                forall|k: int| 0 <= k < j ==> es.deep_view()[k] != who@,
            decreases es.len() - j,
        {
            proof {
                assert(es.deep_view()[j as int] == es[j as int]@);
            }
            if bytes_eq(&es[j], who) {
                return true;
            }
            j += 1;
        }
        proof {
            assert(!self@[i as int].endorsers.contains(who@));
        }
        false
    }

    /// An owned copy of the endorser list of the record at an index.
    pub fn endorsers_at(&self, i: usize) -> (r: Vec<Vec<u8>>)
        requires
            i < self@.len(),
        ensures
            r.deep_view() == self@[i as int].endorsers,
    {
        proof {
            assert(self@[i as int] == self.rows[i as int]@);
        }
        bytes_list_clone(&self.rows[i].endorsers)
    }

    /// Appends a freshly accepted record at the end of the ledger.
    pub fn push_row(&mut self, d: Details)
        ensures
            final(self)@ == old(self)@.push(d@),
    {
        let ghost dv = d@;
        self.rows.push(d);
        proof {
            assert(final(self)@ =~~= old(self)@.push(dv));
        }
    }

    /// Sets the display flag of the record at an index, in place; every other
    /// field is untouched.
    pub fn set_show(&mut self, i: usize, show: bool)
        requires
            i < old(self)@.len(),
        ensures
            final(self)@ == old(self)@.update(
                i as int,
                ClaimModel { show: show, ..old(self)@[i as int] },
            ),
    {
        proof {
            assert(old(self)@[i as int] == old(self).rows[i as int]@);
        }
        let row = &mut self.rows[i];
        row.show = show;
        proof {
            assert(final(self)@ =~~= old(self)@.update(
                i as int,
                ClaimModel { show: show, ..old(self)@[i as int] },
            ));
        }
    }

    /// Appends an endorser to the record at an index and increments its
    /// third-party endorsement count, in place; every other field is
    /// untouched.
    pub fn add_endorser(&mut self, i: usize, who: Vec<u8>)
        requires
            i < old(self)@.len(),
        ensures
            final(self)@ == old(self)@.update(
                i as int,
                ClaimModel {
                    endorser_count: spec_sat_add(old(self)@[i as int].endorser_count, 1),
                    endorsers: old(self)@[i as int].endorsers.push(who@),
                    ..old(self)@[i as int]
                },
            ),
    {
        proof {
            assert(old(self)@[i as int] == old(self).rows[i as int]@);
        }
        let ghost whov = who@;
        let row = &mut self.rows[i];
        let count = row.endorser_count;
        row.endorsers.push(who);
        row.endorser_count = sat_add(count, 1);
        proof {
            assert(final(self)@ =~~= old(self)@.update(
                i as int,
                ClaimModel {
                    endorser_count: spec_sat_add(old(self)@[i as int].endorser_count, 1),
                    endorsers: old(self)@[i as int].endorsers.push(whov),
                    ..old(self)@[i as int]
                },
            ));
        }
    }
}

} // verus!
