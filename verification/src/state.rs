//! The offering store: every piece of state the marketplace persists.
//!
//! One `Store` value holds the keyed offering table, the identifier counter,
//! and the two configuration cells. Each request handler takes the store by
//! reference; the host commits the new value only when the handler returns
//! success, which gives every request all-or-nothing semantics.

use vstd::prelude::*;
use crate::Coin;
use crate::numeral::{dec_str, lemma_dec_str_injective};
use crate::package::ContractInfoResponse;

verus! {

/// A configuration record kept in its own cell.
pub struct State {
    pub count: i32,
    pub owner: String,
}

/// One token held in escrow awaiting sale. Immutable after creation: an
/// offering only persists unchanged or is deleted on settlement.
pub struct Offering {
    pub token_id: String,
    pub contract_addr: String,
    pub seller: String,
    pub list_price: Coin,
}

/// Identifiers strictly ascend along the table.
pub open spec fn sorted_ids(s: Seq<(u64, Offering)>) -> bool {
    forall|a: int, b: int|
        0 <= a < b < s.len() ==> (#[trigger] s[a]).0 < (#[trigger] s[b]).0
}

/// Every identifier in the table was minted by the counter.
pub open spec fn ids_bounded(s: Seq<(u64, Offering)>, c: u64) -> bool {
    forall|a: int| 0 <= a < s.len() ==> (#[trigger] s[a]).0 <= c
}

/// Some entry's identifier renders to the string `q`.
pub open spec fn has_id(s: Seq<(u64, Offering)>, q: Seq<char>) -> bool {
    exists|i: int| 0 <= i < s.len() && dec_str((#[trigger] s[i]).0 as nat) == q
}

/// The index of the entry whose identifier renders to `q`; meaningful only
/// when `has_id` holds, and unique by `lemma_match_unique`.
pub open spec fn index_of_id(s: Seq<(u64, Offering)>, q: Seq<char>) -> int {
    choose|i: int| 0 <= i < s.len() && dec_str((#[trigger] s[i]).0 as nat) == q
}

/// In a table of strictly ascending identifiers, at most one entry renders to
/// a given identifier string.
pub proof fn lemma_match_unique(s: Seq<(u64, Offering)>, q: Seq<char>, i: int, j: int)
    requires
        sorted_ids(s),
        0 <= i < s.len(),
        0 <= j < s.len(),
        dec_str(s[i].0 as nat) == q,
        dec_str(s[j].0 as nat) == q,
    ensures
        i == j,
{
    lemma_dec_str_injective(s[i].0 as nat, s[j].0 as nat);
    if i < j {
        assert(s[i].0 < s[j].0);
    } else if j < i {
        assert(s[j].0 < s[i].0);
    }
}

/// The durable state of one marketplace instance: the offering table in
/// ascending identifier order, the identifier counter, and the two
/// configuration cells.
pub struct Store {
    offerings: Vec<(u64, Offering)>,
    num_offerings: u64,
    contract_info: Option<ContractInfoResponse>,
    config_state: Option<State>,
}

impl Store {
    /// The offering table, in storage order.
    pub closed spec fn entries(self) -> Seq<(u64, Offering)> {
        self.offerings@
    }

    /// The highest identifier minted so far.
    pub closed spec fn counter(self) -> u64 {
        self.num_offerings
    }

    /// The marketplace configuration cell.
    pub closed spec fn info(self) -> Option<ContractInfoResponse> {
        self.contract_info
    }

    /// The secondary configuration cell.
    pub closed spec fn config_cell(self) -> Option<State> {
        self.config_state
    }

    /// Well-formedness: identifiers strictly ascend and never exceed the
    /// counter, so a freshly minted identifier is never already live.
    pub open spec fn wf(self) -> bool {
        &&& sorted_ids(self.entries())
        &&& ids_bounded(self.entries(), self.counter())
    }

    /// An empty store: no offerings, counter at zero, both cells unset.
    pub fn new() -> (s: Store)
        ensures
            s.wf(),
            s.entries() == Seq::<(u64, Offering)>::empty(),
            s.counter() == 0,
            s.info() is None,
            s.config_cell() is None,
    {
        let s = Store {
            offerings: Vec::new(),
            num_offerings: 0,
            contract_info: None,
            config_state: None,
        };
        proof {
            assert(s.entries() =~= Seq::<(u64, Offering)>::empty());
        }
        s
    }

    /// The index of the entry whose identifier renders to `offering_id`,
    /// if one is live.
    fn find(&self, offering_id: &String) -> (r: Option<usize>)
        ensures
            match r {
                Some(i) => 0 <= i < self.entries().len()
                    && dec_str(self.entries()[i as int].0 as nat) == offering_id@,
                None => !has_id(self.entries(), offering_id@),
            },
    {
        let n = self.offerings.len();
        for i in 0..n
            invariant
                n == self.offerings.len(),
                forall|k: int|
                    0 <= k < i ==> dec_str((#[trigger] self.entries()[k]).0 as nat)
                        != offering_id@,
        {
            let rendered = crate::numeral::u64_to_dec(self.offerings[i].0);
            if rendered == *offering_id {
                return Some(i);
            }
        }
        None
    }

    /// Look an offering up by its identifier string.
    pub fn get(&self, offering_id: &String) -> (r: Option<&Offering>)
        requires
            self.wf(),
        ensures
            match r {
                Some(o) => has_id(self.entries(), offering_id@)
                    && *o == self.entries()[index_of_id(self.entries(), offering_id@)].1,
                None => !has_id(self.entries(), offering_id@),
            },
    {
        match self.find(offering_id) {
            Some(i) => {
                proof {
                    let q = offering_id@;
                    assert(has_id(self.entries(), q));
                    lemma_match_unique(self.entries(), q, i as int, index_of_id(self.entries(), q));
                }
                Some(&self.offerings[i].1)
            },
            None => None,
        }
    }

    /// Delete an offering by its identifier string, returning the deleted
    /// entry; the table is unchanged when no entry matches.
    pub fn remove(&mut self, offering_id: &String) -> (r: Option<(u64, Offering)>)
        requires
            old(self).wf(),
        ensures
            final(self).wf(),
            final(self).counter() == old(self).counter(),
            final(self).info() == old(self).info(),
            final(self).config_cell() == old(self).config_cell(),
            match r {
                Some(e) => has_id(old(self).entries(), offering_id@)
                    && e == old(self).entries()[index_of_id(old(self).entries(), offering_id@)]
                    && final(self).entries() == old(self).entries().remove(
                        index_of_id(old(self).entries(), offering_id@),
                    ),
                None => !has_id(old(self).entries(), offering_id@)
                    && final(self).entries() == old(self).entries(),
            },
    {
        match self.find(offering_id) {
            Some(i) => {
                proof {
                    let q = offering_id@;
                    assert(has_id(self.entries(), q));
                    lemma_match_unique(self.entries(), q, i as int, index_of_id(self.entries(), q));
                }
                let e = self.offerings.remove(i);
                proof {
                    let s0 = old(self).entries();
                    let s1 = self.entries();
                    s0.remove_ensures(i as int);
                    assert forall|a: int, b: int|
                        0 <= a < b < s1.len() implies (#[trigger] s1[a]).0 < (#[trigger] s1[b]).0 by {
                        let a0: int = if a < i { a } else { a + 1 };
                        let b0: int = if b < i { b } else { b + 1 };
                        assert(s1[a] == s0[a0]);
                        assert(s1[b] == s0[b0]);
                    }
                    assert forall|a: int| 0 <= a < s1.len() implies (#[trigger] s1[a]).0
                        <= self.counter() by {
                        let a0: int = if a < i { a } else { a + 1 };
                        assert(s1[a] == s0[a0]);
                    }
                }
                Some(e)
            },
            None => None,
        }
    }

    /// Insert a freshly minted offering. The identifier must be newer than
    /// every live entry and already covered by the counter, which keeps the
    /// table sorted and the store well formed.
    pub fn put(&mut self, id: u64, offering: Offering)
        requires
            old(self).wf(),
            forall|k: int|
                0 <= k < old(self).entries().len() ==> (#[trigger] old(self).entries()[k]).0 < id,
            id <= old(self).counter(),
        ensures
            final(self).wf(),
            final(self).entries() == old(self).entries().push((id, offering)),
            final(self).counter() == old(self).counter(),
            final(self).info() == old(self).info(),
            final(self).config_cell() == old(self).config_cell(),
    {
        self.offerings.push((id, offering));
        proof {
            let s0 = old(self).entries();
            let s1 = self.entries();
            assert forall|a: int, b: int|
                0 <= a < b < s1.len() implies (#[trigger] s1[a]).0 < (#[trigger] s1[b]).0 by {
                if b < s1.len() - 1 {
                    assert(s1[a] == s0[a]);
                    assert(s1[b] == s0[b]);
                } else {
                    assert(s1[a] == s0[a]);
                }
            }
        }
    }

    /// The whole offering table, in ascending identifier order.
    pub fn list_all(&self) -> (r: &Vec<(u64, Offering)>)
        ensures
            r@ == self.entries(),
    {
        &self.offerings
    }

    /// Record the marketplace configuration.
    pub fn set_contract_info(&mut self, info: ContractInfoResponse)
        ensures
            final(self).info() == Some(info),
            final(self).entries() == old(self).entries(),
            final(self).counter() == old(self).counter(),
            final(self).config_cell() == old(self).config_cell(),
            old(self).wf() ==> final(self).wf(),
    {
        self.contract_info = Some(info);
    }

    /// Read the marketplace configuration.
    pub fn contract_info(&self) -> (r: Option<&ContractInfoResponse>)
        ensures
            match r {
                Some(c) => self.info() == Some(*c),
                None => self.info() is None,
            },
    {
        self.contract_info.as_ref()
    }
}

/// The highest identifier minted so far.
pub fn num_offerings(store: &Store) -> (n: u64)
    ensures
        n == store.counter(),
{
    store.num_offerings
}

/// Mint a fresh identifier: advance the counter by one and return it. The
/// counter never goes back down, so identifiers are never reused, even after
/// the offering they named is deleted.
pub fn increment_offerings(store: &mut Store) -> (n: u64)
    requires
        old(store).counter() < u64::MAX,
    ensures
        n == old(store).counter() + 1,
        final(store).counter() == n,
        final(store).entries() == old(store).entries(),
        final(store).info() == old(store).info(),
        final(store).config_cell() == old(store).config_cell(),
        old(store).wf() ==> final(store).wf(),
{
    store.num_offerings = store.num_offerings + 1;
    store.num_offerings
}

/// Write the secondary configuration cell.
pub fn config(store: &mut Store, value: State)
    ensures
        final(store).config_cell() == Some(value),
        final(store).entries() == old(store).entries(),
        final(store).counter() == old(store).counter(),
        final(store).info() == old(store).info(),
        old(store).wf() ==> final(store).wf(),
{
    store.config_state = Some(value);
}

/// Read the secondary configuration cell.
pub fn config_read(store: &Store) -> (r: Option<&State>)
    ensures
        match r {
            Some(s) => store.config_cell() == Some(*s),
            None => store.config_cell() is None,
        },
{
    store.config_state.as_ref()
}

} // verus!
