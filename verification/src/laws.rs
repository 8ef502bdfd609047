//! System-wide guarantees, stated and proved once over the store model.
//!
//! Each proof function here assumes only what the handlers' own contracts
//! establish, so the guarantee holds after any sequence of requests.

use vstd::prelude::*;
use crate::contract::{query_matches, query_record_matches};
use crate::numeral::{dec_str, lemma_dec_str_injective};
use crate::package::OfferingsResponse;
use crate::state::{has_id, index_of_id, lemma_match_unique, Offering, Store};

verus! {

/// Uniqueness: no two live offerings share an identifier, neither numerically
/// nor in its rendered string form.
pub proof fn lemma_offering_ids_unique(s: Store)
    requires
        s.wf(),
    ensures
        forall|i: int, j: int|
            0 <= i < s.entries().len() && 0 <= j < s.entries().len() && i != j
                ==> (#[trigger] s.entries()[i]).0 != (#[trigger] s.entries()[j]).0
                    && dec_str(s.entries()[i].0 as nat) != dec_str(s.entries()[j].0 as nat),
{
    assert forall|i: int, j: int|
        0 <= i < s.entries().len() && 0 <= j < s.entries().len() && i != j
        implies (#[trigger] s.entries()[i]).0 != (#[trigger] s.entries()[j]).0 && dec_str(
        s.entries()[i].0 as nat,
    ) != dec_str(s.entries()[j].0 as nat) by {
        if i < j {
            assert(s.entries()[i].0 < s.entries()[j].0);
        } else {
            assert(s.entries()[j].0 < s.entries()[i].0);
        }
        if dec_str(s.entries()[i].0 as nat) == dec_str(s.entries()[j].0 as nat) {
            lemma_dec_str_injective(s.entries()[i].0 as nat, s.entries()[j].0 as nat);
        }
    }
}

/// The identifier the counter will mint next is never already live, even when
/// earlier offerings have been deleted: the counter never goes back down.
pub proof fn lemma_fresh_id_not_listed(s: Store)
    requires
        s.wf(),
        s.counter() < u64::MAX,
    ensures
        !has_id(s.entries(), dec_str((s.counter() + 1) as nat)),
{
    assert forall|i: int| 0 <= i < s.entries().len() implies dec_str(
        (#[trigger] s.entries()[i]).0 as nat,
    ) != dec_str((s.counter() + 1) as nat) by {
        if dec_str(s.entries()[i].0 as nat) == dec_str((s.counter() + 1) as nat) {
            lemma_dec_str_injective(s.entries()[i].0 as nat, (s.counter() + 1) as nat);
        }
    }
}

/// Listing round-trip: after one successful listing, the offerings report
/// holds exactly one record carrying the freshly minted identifier, and that
/// record reproduces the listed token, seller and price.
pub proof fn lemma_listing_round_trip(s0: Store, s1: Store, resp: OfferingsResponse, off: Offering)
    requires
        s0.wf(),
        s0.counter() < u64::MAX,
        s1.entries() == s0.entries().push(((s0.counter() + 1) as u64, off)),
        query_matches(resp, s1.entries()),
    ensures
        resp.offerings@.len() == s0.entries().len() + 1,
        query_record_matches(
            resp.offerings@[s0.entries().len() as int],
            ((s0.counter() + 1) as u64, off),
        ),
        forall|k: int|
            0 <= k < s0.entries().len() ==> (#[trigger] resp.offerings@[k]).id@ != dec_str(
                (s0.counter() + 1) as nat,
            ),
{
    let n = s0.entries().len() as int;
    assert(s1.entries()[n] == ((s0.counter() + 1) as u64, off));
    assert(query_record_matches(resp.offerings@[n], s1.entries()[n]));
    assert forall|k: int| 0 <= k < n implies (#[trigger] resp.offerings@[k]).id@ != dec_str(
        (s0.counter() + 1) as nat,
    ) by {
        assert(s1.entries()[k] == s0.entries()[k]);
        assert(query_record_matches(resp.offerings@[k], s1.entries()[k]));
        if dec_str(s0.entries()[k].0 as nat) == dec_str((s0.counter() + 1) as nat) {
            lemma_dec_str_injective(s0.entries()[k].0 as nat, (s0.counter() + 1) as nat);
        }
    }
}

/// Settlement removes exactly one record: the table shrinks by exactly one
/// and the purchased identifier is no longer retrievable.
pub proof fn lemma_settlement_removes_exactly_one(s0: Store, s1: Store, offering_id: Seq<char>)
    requires
        s0.wf(),
        has_id(s0.entries(), offering_id),
        s1.entries() == s0.entries().remove(index_of_id(s0.entries(), offering_id)),
    ensures
        s1.entries().len() == s0.entries().len() - 1,
        !has_id(s1.entries(), offering_id),
{
    let idx = index_of_id(s0.entries(), offering_id);
    assert(0 <= idx < s0.entries().len() && dec_str(s0.entries()[idx].0 as nat) == offering_id);
    s0.entries().remove_ensures(idx);
    assert forall|j: int| 0 <= j < s1.entries().len() implies dec_str(
        (#[trigger] s1.entries()[j]).0 as nat,
    ) != offering_id by {
        let j0: int = if j < idx {
            j
        } else {
            j + 1
        };
        assert(s1.entries()[j] == s0.entries()[j0]);
        if dec_str(s0.entries()[j0].0 as nat) == offering_id {
            lemma_match_unique(s0.entries(), offering_id, j0, idx);
        }
    }
}

} // verus!
