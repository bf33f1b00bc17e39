//! One per-account category index: for each account, the ordered list of
//! fingerprints it has submitted in that category.

use vstd::prelude::*;

use crate::bytes::bytes_clone;
use crate::bytes::bytes_eq;
use crate::bytes::bytes_list_clone;
use crate::model::acct_claims;
use crate::model::acct_find;
use crate::model::acct_upsert;
use crate::model::lemma_acct_find_first;
use crate::model::lemma_acct_find_props;
use crate::model::AcctSlot;
use crate::types::Claims;

verus! {

/// One slot of the index: an account and its submissions in this category.
pub struct AccountEntry {
    pub account: Vec<u8>,
    pub claims: Claims,
}

impl DeepView for AccountEntry {
    type V = AcctSlot;

    open spec fn deep_view(&self) -> AcctSlot {
        (self.account@, self.claims.claims.deep_view())
    }
}

/// The index of one claim category over all accounts.
pub struct AccountTable {
    pub(crate) entries: Vec<AccountEntry>,
}

impl View for AccountTable {
    type V = Seq<AcctSlot>;

    open(crate) spec fn view(&self) -> Seq<AcctSlot> {
        self.entries.deep_view()
    }
}

impl AccountTable {
    /// The empty index.
    pub fn new() -> (t: AccountTable)
        ensures
            t@ =~= Seq::<AcctSlot>::empty(),
    {
        AccountTable { entries: Vec::new() }
    }

    /// Index of the slot of the given account, if any.
    fn find(&self, a: &Vec<u8>) -> (r: Option<usize>)
        ensures
            match r {
                Some(i) => acct_find(self@, a@) == i as int,
                None => acct_find(self@, a@) == -1,
            },
    {
        let mut i: usize = 0;
        while i < self.entries.len()
            invariant
                i <= self.entries.len(),
                self@.len() == self.entries.len(),
                forall|j: int| 0 <= j < i ==> self@[j].0 != a@,
            decreases self.entries.len() - i,
        {
            proof {
                assert(self@[i as int] == self.entries[i as int].deep_view());
            }
            if bytes_eq(&self.entries[i].account, a) {
                proof {
                    lemma_acct_find_first(self@, a@, i as int);
                }
                return Some(i);
            }
            i += 1;
        }
        proof {
            lemma_acct_find_props(self@, a@);
        }
        None
    }

    /// How many fingerprints the account has submitted in this category.
    pub fn claims_len(&self, a: &Vec<u8>) -> (n: usize)
        ensures
            n == acct_claims(self@, a@).len(),
    {
        match self.find(a) {
            Some(i) => {
                proof {
                    lemma_acct_find_props(self@, a@);
                    assert(self@[i as int] == self.entries[i as int].deep_view());
                }
                self.entries[i].claims.claims.len()
            },
            None => 0,
        }
    }

    /// An owned copy of the account's ordered fingerprint list.
    pub fn claims_of(&self, a: &Vec<u8>) -> (r: Vec<Vec<u8>>)
        ensures
            r.deep_view() == acct_claims(self@, a@),
    {
        match self.find(a) {
            Some(i) => {
                proof {
                    lemma_acct_find_props(self@, a@);
                    assert(self@[i as int] == self.entries[i as int].deep_view());
                }
                bytes_list_clone(&self.entries[i].claims.claims)
            },
            None => {
                let r: Vec<Vec<u8>> = Vec::new();
                proof {
                    assert(r.deep_view() =~~= acct_claims(self@, a@));
                }
                r
            },
        }
    }

    /// Appends an accepted fingerprint to the account's list, creating the
    /// slot on first use.
    pub fn push_claim(&mut self, a: &Vec<u8>, fp: Vec<u8>)
        ensures
            final(self)@ == acct_upsert(old(self)@, a@, fp@),
    {
        let ghost fpv = fp@;
        match self.find(a) {
            Some(i) => {
                proof {
                    lemma_acct_find_props(self@, a@);
                    assert(old(self)@[i as int] == old(self).entries[i as int].deep_view());
                }
                let entry = &mut self.entries[i];
                entry.claims.claims.push(fp);
                proof {
                    assert(final(self)@ =~~= old(self)@.update(
                        i as int,
                        (a@, old(self)@[i as int].1.push(fpv)),
                    ));
                }
            },
            None => {
                let mut list: Vec<Vec<u8>> = Vec::new();
                list.push(fp);
                let entry = AccountEntry { account: bytes_clone(a), claims: Claims { claims: list } };
                proof {
                    assert(entry.deep_view().1 =~~= seq![fpv]);
                }
                self.entries.push(entry);
                proof {
                    assert(final(self)@ =~~= old(self)@.push((a@, seq![fpv])));
                }
            },
        }
    }
}

} // verus!
