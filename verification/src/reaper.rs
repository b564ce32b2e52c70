//! The per-block reaper: purges order-book entries whose expiration equals
//! the current block, and compacts deal orders while retaining funded deals,
//! which must stay closeable and exemptible past their nominal expiration.

use vstd::prelude::*;

use crate::ledger::{
    drop_exp, find_entry, lemma_drop_exp_find, lemma_drop_exp_members, retain_drop_exp, DealEntry,
    Keyed, Ledger,
};

verus! {

/// `s` with every deal both expiring at `exp` and still unfunded removed.
pub open spec fn drop_expired_unfunded(s: Seq<DealEntry>, exp: u64) -> Seq<DealEntry>
    decreases s.len(),
{
    if s.len() == 0 {
        Seq::empty()
    } else if s[0].kexp() == exp && s[0].deal.state.funding_of() is None {
        drop_expired_unfunded(s.drop_first(), exp)
    } else {
        seq![s[0]] + drop_expired_unfunded(s.drop_first(), exp)
    }
}

/// How many deals of `s` expire at `exp` but stay because they are funded.
pub open spec fn count_funded_at(s: Seq<DealEntry>, exp: u64) -> int
    decreases s.len(),
{
    if s.len() == 0 {
        0
    } else {
        (if s[0].kexp() == exp && s[0].deal.state.funding_of() is Some {
            1int
        } else {
            0int
        }) + count_funded_at(s.drop_first(), exp)
    }
}

/// Compacting deals touches only the purged block: other blocks are
/// untouched, and a funded deal keyed at the purged block stays bound to the
/// same entry.
pub proof fn lemma_drop_expired_unfunded_find(s: Seq<DealEntry>, exp: u64, exp2: u64, h2: Seq<u8>)
    ensures
        exp2 != exp ==> find_entry(drop_expired_unfunded(s, exp), exp2, h2) == find_entry(
            s,
            exp2,
            h2,
        ),
        (exp2 == exp && (find_entry(s, exp2, h2) matches Some(e)
            && e.deal.state.funding_of() is Some)) ==> find_entry(
            drop_expired_unfunded(s, exp),
            exp2,
            h2,
        ) == find_entry(s, exp2, h2),
    decreases s.len(),
{
    if s.len() == 0 {
    } else if s[0].kexp() == exp && s[0].deal.state.funding_of() is None {
        lemma_drop_expired_unfunded_find(s.drop_first(), exp, exp2, h2);
    } else {
        let rest = drop_expired_unfunded(s.drop_first(), exp);
        let whole = seq![s[0]] + rest;
        assert(whole[0] == s[0]);
        assert(whole.drop_first() =~= rest);
        lemma_drop_expired_unfunded_find(s.drop_first(), exp, exp2, h2);
    }
}

/// No unfunded deal of the purged block survives the compaction.
pub proof fn lemma_drop_expired_unfunded_members(s: Seq<DealEntry>, exp: u64)
    ensures
        forall|j: int|
            #![trigger drop_expired_unfunded(s, exp)[j]]
            0 <= j < drop_expired_unfunded(s, exp).len() ==> !(drop_expired_unfunded(s, exp)[j].kexp()
                == exp && drop_expired_unfunded(s, exp)[j].deal.state.funding_of() is None),
    decreases s.len(),
{
    if s.len() == 0 {
    } else {
        lemma_drop_expired_unfunded_members(s.drop_first(), exp);
        let rest = drop_expired_unfunded(s.drop_first(), exp);
        assert forall|j: int| 0 <= j < drop_expired_unfunded(s, exp).len() implies !(
        #[trigger] drop_expired_unfunded(s, exp)[j].kexp() == exp && drop_expired_unfunded(
            s,
            exp,
        )[j].deal.state.funding_of() is None) by {
            if s[0].kexp() == exp && s[0].deal.state.funding_of() is None {
                assert(drop_expired_unfunded(s, exp) == rest);
                assert(!(rest[j].kexp() == exp && rest[j].deal.state.funding_of() is None));
            } else {
                assert(drop_expired_unfunded(s, exp) == seq![s[0]] + rest);
                if j == 0 {
                    assert(drop_expired_unfunded(s, exp)[0] == s[0]);
                } else {
                    assert(drop_expired_unfunded(s, exp)[j] == rest[j - 1]);
                    assert(!(rest[j - 1].kexp() == exp && rest[j - 1].deal.state.funding_of()
                        is None));
                }
            }
        }
    }
}

/// How many entries each store lost to (or, for funded deals, kept through)
/// a reaper pass; the chain's cost accounting reads these.
#[derive(Clone, Copy, Debug, PartialEq, Eq, Structural)]
pub struct ExpiredCounts {
    pub ask_orders: usize,
    pub bid_orders: usize,
    pub offers: usize,
    pub deal_orders: usize,
    pub funded_deals: usize,
}

impl Ledger {
    /// Runs once at the start of block `block`, before any call of that
    /// block: every ask, bid and offer keyed at `block` is purged, and every
    /// deal keyed at `block` without a funding transfer; funded deals stay.
    pub fn on_initialize(&mut self, block: u64) -> (r: ExpiredCounts)
        ensures
            final(self).ask_orders@ == drop_exp(old(self).ask_orders@, block),
            final(self).bid_orders@ == drop_exp(old(self).bid_orders@, block),
            final(self).offers@ == drop_exp(old(self).offers@, block),
            final(self).deal_orders@ == drop_expired_unfunded(old(self).deal_orders@, block),
            forall|j: int|
                #![trigger final(self).ask_orders@[j]]
                0 <= j < final(self).ask_orders@.len() ==> final(self).ask_orders@[j].kexp()
                    != block,
            forall|j: int|
                #![trigger final(self).bid_orders@[j]]
                0 <= j < final(self).bid_orders@.len() ==> final(self).bid_orders@[j].kexp()
                    != block,
            forall|j: int|
                #![trigger final(self).offers@[j]]
                0 <= j < final(self).offers@.len() ==> final(self).offers@[j].kexp() != block,
            forall|j: int|
                #![trigger final(self).deal_orders@[j]]
                0 <= j < final(self).deal_orders@.len() ==> !(final(self).deal_orders@[j].kexp()
                    == block && final(self).deal_orders@[j].deal.state.funding_of() is None),
            forall|e2: u64, h2: Seq<u8>|
                e2 != block ==> #[trigger] find_entry(final(self).ask_orders@, e2, h2)
                    == find_entry(old(self).ask_orders@, e2, h2),
            forall|e2: u64, h2: Seq<u8>|
                e2 != block ==> #[trigger] find_entry(final(self).bid_orders@, e2, h2)
                    == find_entry(old(self).bid_orders@, e2, h2),
            forall|e2: u64, h2: Seq<u8>|
                e2 != block ==> #[trigger] find_entry(final(self).offers@, e2, h2) == find_entry(
                    old(self).offers@,
                    e2,
                    h2,
                ),
            forall|e2: u64, h2: Seq<u8>|
                e2 != block ==> #[trigger] find_entry(final(self).deal_orders@, e2, h2)
                    == find_entry(old(self).deal_orders@, e2, h2),
            forall|h2: Seq<u8>|
                #![trigger find_entry(final(self).deal_orders@, block, h2)]
                (find_entry(old(self).deal_orders@, block, h2) matches Some(e)
                    && e.deal.state.funding_of() is Some) ==> find_entry(
                    final(self).deal_orders@,
                    block,
                    h2,
                ) == find_entry(old(self).deal_orders@, block, h2),
            forall|h2: Seq<u8>|
                #![trigger find_entry(final(self).deal_orders@, block, h2)]
                (find_entry(final(self).deal_orders@, block, h2) matches Some(e)
                    ==> e.deal.state.funding_of() is Some),
            r.ask_orders == old(self).ask_orders@.len() - final(self).ask_orders@.len(),
            r.bid_orders == old(self).bid_orders@.len() - final(self).bid_orders@.len(),
            r.offers == old(self).offers@.len() - final(self).offers@.len(),
            r.deal_orders == old(self).deal_orders@.len() - final(self).deal_orders@.len(),
            r.funded_deals == count_funded_at(old(self).deal_orders@, block),
            final(self).addresses == old(self).addresses,
            final(self).transfers == old(self).transfers,
            final(self).collected_coins == old(self).collected_coins,
            final(self).used_guids == old(self).used_guids,
            final(self).authorities == old(self).authorities,
            final(self).pending_tasks == old(self).pending_tasks,
            final(self).collect_coins_contract == old(self).collect_coins_contract,
            final(self).balances == old(self).balances,
            final(self).events == old(self).events,
    {
        let ask_count = retain_drop_exp(&mut self.ask_orders, block);
        let bid_count = retain_drop_exp(&mut self.bid_orders, block);
        let offer_count = retain_drop_exp(&mut self.offers, block);
        let (deal_count, funded_count) = self.compact_deals(block);
        proof {
            lemma_drop_exp_members(old(self).ask_orders@, block);
            lemma_drop_exp_members(old(self).bid_orders@, block);
            lemma_drop_exp_members(old(self).offers@, block);
            lemma_drop_expired_unfunded_members(old(self).deal_orders@, block);
            assert forall|e2: u64, h2: Seq<u8>| e2 != block implies #[trigger] find_entry(
                self.ask_orders@,
                e2,
                h2,
            ) == find_entry(old(self).ask_orders@, e2, h2) by {
                lemma_drop_exp_find(old(self).ask_orders@, block, e2, h2);
            }
            assert forall|e2: u64, h2: Seq<u8>| e2 != block implies #[trigger] find_entry(
                self.bid_orders@,
                e2,
                h2,
            ) == find_entry(old(self).bid_orders@, e2, h2) by {
                lemma_drop_exp_find(old(self).bid_orders@, block, e2, h2);
            }
            assert forall|e2: u64, h2: Seq<u8>| e2 != block implies #[trigger] find_entry(
                self.offers@,
                e2,
                h2,
            ) == find_entry(old(self).offers@, e2, h2) by {
                lemma_drop_exp_find(old(self).offers@, block, e2, h2);
            }
            assert forall|e2: u64, h2: Seq<u8>| e2 != block implies #[trigger] find_entry(
                self.deal_orders@,
                e2,
                h2,
            ) == find_entry(old(self).deal_orders@, e2, h2) by {
                lemma_drop_expired_unfunded_find(old(self).deal_orders@, block, e2, h2);
            }
            assert forall|h2: Seq<u8>|
                #![trigger find_entry(self.deal_orders@, block, h2)]
                (find_entry(old(self).deal_orders@, block, h2) matches Some(e)
                    && e.deal.state.funding_of() is Some) ==> find_entry(
                    self.deal_orders@,
                    block,
                    h2,
                ) == find_entry(old(self).deal_orders@, block, h2) by {
                lemma_drop_expired_unfunded_find(old(self).deal_orders@, block, block, h2);
            }
            assert forall|h2: Seq<u8>|
                #![trigger find_entry(self.deal_orders@, block, h2)]
                (find_entry(self.deal_orders@, block, h2) matches Some(e)
                    ==> e.deal.state.funding_of() is Some) by {
                crate::ledger::lemma_find_member(self.deal_orders@, block, h2);
                if find_entry(self.deal_orders@, block, h2) is Some {
                    let e = find_entry(self.deal_orders@, block, h2).unwrap();
                    let j = choose|j: int|
                        0 <= j < self.deal_orders@.len() && self.deal_orders@[j] == e;
                    assert(self.deal_orders@[j].kexp() == block);
                    assert(!(self.deal_orders@[j].kexp() == block
                        && self.deal_orders@[j].deal.state.funding_of() is None));
                }
            }
        }
        ExpiredCounts {
            ask_orders: ask_count,
            bid_orders: bid_count,
            offers: offer_count,
            deal_orders: deal_count,
            funded_deals: funded_count,
        }
    }

    /// Removes the unfunded deals of expiration block `exp`, keeping order,
    /// and counts both the removed and the funded survivors of that block.
    fn compact_deals(&mut self, exp: u64) -> (r: (usize, usize))
        ensures
            final(self).deal_orders@ == drop_expired_unfunded(old(self).deal_orders@, exp),
            r.0 == old(self).deal_orders@.len() - final(self).deal_orders@.len(),
            r.1 == count_funded_at(old(self).deal_orders@, exp),
            final(self).addresses == old(self).addresses,
            final(self).ask_orders == old(self).ask_orders,
            final(self).bid_orders == old(self).bid_orders,
            final(self).offers == old(self).offers,
            final(self).transfers == old(self).transfers,
            final(self).collected_coins == old(self).collected_coins,
            final(self).used_guids == old(self).used_guids,
            final(self).authorities == old(self).authorities,
            final(self).pending_tasks == old(self).pending_tasks,
            final(self).collect_coins_contract == old(self).collect_coins_contract,
            final(self).balances == old(self).balances,
            final(self).events == old(self).events,
    {
        let mut kept: Vec<DealEntry> = Vec::new();
        let mut funded: usize = 0;
        let ghost orig = self.deal_orders@;
        let total = self.deal_orders.len();
        assert(kept@ + drop_expired_unfunded(self.deal_orders@, exp) =~= drop_expired_unfunded(
            orig,
            exp,
        ));
        while self.deal_orders.len() > 0
            invariant
                kept@ + drop_expired_unfunded(self.deal_orders@, exp) == drop_expired_unfunded(
                    orig,
                    exp,
                ),
                funded + count_funded_at(self.deal_orders@, exp) == count_funded_at(orig, exp),
                kept@.len() + self.deal_orders@.len() <= orig.len(),
                funded <= kept@.len(),
                total == orig.len(),
                self.addresses == old(self).addresses,
                self.ask_orders == old(self).ask_orders,
                self.bid_orders == old(self).bid_orders,
                self.offers == old(self).offers,
                self.transfers == old(self).transfers,
                self.collected_coins == old(self).collected_coins,
                self.used_guids == old(self).used_guids,
                self.authorities == old(self).authorities,
                self.pending_tasks == old(self).pending_tasks,
                self.collect_coins_contract == old(self).collect_coins_contract,
                self.balances == old(self).balances,
                self.events == old(self).events,
            decreases self.deal_orders@.len(),
        {
            let ghost pre = self.deal_orders@;
            let e = self.deal_orders.remove(0);
            proof {
                assert(pre[0] == e);
                assert(self.deal_orders@ =~= pre.drop_first());
            }
            let expires_now = e.has_exp(exp);
            let is_funded = e.deal.state.has_funding();
            if expires_now && !is_funded {
            } else {
                proof {
                    assert(drop_expired_unfunded(pre, exp) == seq![e] + drop_expired_unfunded(
                        pre.drop_first(),
                        exp,
                    ));
                    assert((kept@ + seq![e]) + drop_expired_unfunded(pre.drop_first(), exp) =~=
                    kept@ + (seq![e] + drop_expired_unfunded(pre.drop_first(), exp)));
                    assert(kept@.push(e) =~= kept@ + seq![e]);
                }
                kept.push(e);
                if expires_now {
                    funded += 1;
                }
            }
        }
        proof {
            assert(drop_expired_unfunded(self.deal_orders@, exp) =~= Seq::<DealEntry>::empty());
            assert(kept@ + drop_expired_unfunded(self.deal_orders@, exp) =~= kept@);
            assert(count_funded_at(self.deal_orders@, exp) == 0);
        }
        let removed = total - kept.len();
        self.deal_orders = kept;
        (removed, funded)
    }
}

} // verus!
