//! Ledger-wide laws, stated over the outcome functions that the extrinsic
//! contracts are written against.
//!
//! Together with each operation's own `ensures` (state change on success,
//! no change at all on failure), these pin down the global behaviour:
//! identifiers are deterministic and duplicates are rejected, guids are
//! single-use, terms must match for an offer or deal to form, the deal
//! lifecycle only moves forward, and a task outcome commits at most once.

use vstd::prelude::*;

use crate::deals::{
    close_deal_order_outcome, exempt_outcome, fund_deal_order_outcome, lock_deal_order_outcome,
};
use crate::ids;
use crate::ledger::{find_entry, lemma_find_push, Ledger};
use crate::oracle::{fail_task_outcome, persist_task_output_outcome};
use crate::orders::{add_ask_order_outcome, add_bid_order_outcome, add_offer_outcome};
use crate::types::{
    terms_match, AskOrderId, BidOrderId, DealOrderId, Error, LoanTerms, TaskId, TaskOutput,
};

verus! {

/// Identifier derivation is pure: the same fields always derive the same
/// id, for every entity kind.
pub proof fn lemma_derive_id_deterministic(e1: u64, g1: Seq<u8>, e2: u64, g2: Seq<u8>)
    ensures
        (e1 == e2 && g1 == g2) ==> ids::ask_order_hash_of(e1, g1) == ids::ask_order_hash_of(
            e2,
            g2,
        ),
        (e1 == e2 && g1 == g2) ==> ids::bid_order_hash_of(e1, g1) == ids::bid_order_hash_of(
            e2,
            g2,
        ),
{
}

/// Once an ask order stands under an id, a second creation deriving the
/// same id is rejected with a duplicate-class error, whoever calls and
/// whatever address or terms they bring.
pub proof fn lemma_duplicate_ask_rejected(
    l: Ledger,
    who: Seq<u8>,
    address_id: Seq<u8>,
    terms: LoanTerms,
    expiration_block: u64,
    guid: Seq<u8>,
    block: u64,
)
    requires
        block <= expiration_block,
        find_entry(
            l.ask_orders@,
            expiration_block,
            ids::ask_order_hash_of(expiration_block, guid),
        ) is Some,
    ensures
        add_ask_order_outcome(l, who, address_id, terms, expiration_block, guid, block) == Err::<
            (),
            Error,
        >(Error::DuplicateId),
{
}

/// Once a guid is in the used set, every later ask or bid creation carrying
/// it fails, whatever else the call brings.
pub proof fn lemma_guid_single_use(
    l: Ledger,
    who: Seq<u8>,
    address_id: Seq<u8>,
    terms: LoanTerms,
    expiration_block: u64,
    guid: Seq<u8>,
    block: u64,
)
    requires
        l.guid_used_s(guid),
    ensures
        add_ask_order_outcome(l, who, address_id, terms, expiration_block, guid, block) is Err,
        add_bid_order_outcome(l, who, address_id, terms, expiration_block, guid, block) is Err,
{
}

/// A consumed guid stays consumed when the used set grows.
pub proof fn lemma_guid_used_persists(l: Ledger, l2: Ledger, guid: Seq<u8>)
    requires
        l.guid_used_s(guid),
        l2.used_guids@ == l.used_guids@.push(l2.used_guids@.last()),
    ensures
        l2.guid_used_s(guid),
{
    lemma_find_push(l.used_guids@, l2.used_guids@.last(), 0, guid);
}

/// Matched terms make an offer: when the ask is owned by the caller and
/// unexpired, the bid is someone else's and unexpired, both orders share a
/// chain, the terms agree, and the offer id is fresh, `add_offer` succeeds;
/// when everything else holds but the terms disagree, it fails with the
/// terms-mismatch error.
pub proof fn lemma_offer_terms_matching(
    l: Ledger,
    who: Seq<u8>,
    ask_id: AskOrderId,
    bid_id: BidOrderId,
    expiration_block: u64,
    block: u64,
)
    requires
        ({
            let ask = find_entry(l.ask_orders@, ask_id.expiration_block, ask_id.hash@);
            let bid = find_entry(l.bid_orders@, bid_id.expiration_block, bid_id.hash@);
            &&& ask matches Some(a)
            &&& a.order.lender@ == who
            &&& a.order.expiration_block >= block
            &&& bid matches Some(b)
            &&& b.order.borrower@ != who
            &&& b.order.expiration_block >= block
            &&& a.order.blockchain == b.order.blockchain
        }),
    ensures
        ({
            let a = find_entry(l.ask_orders@, ask_id.expiration_block, ask_id.hash@).unwrap();
            let b = find_entry(l.bid_orders@, bid_id.expiration_block, bid_id.hash@).unwrap();
            &&& (terms_match(a.order.terms, b.order.terms) && find_entry(
                l.offers@,
                expiration_block,
                ids::offer_hash_of(
                    expiration_block,
                    ask_id.expiration_block,
                    ask_id.hash@,
                    bid_id.expiration_block,
                    bid_id.hash@,
                ),
            ) is None) ==> add_offer_outcome(l, who, ask_id, bid_id, expiration_block, block)
                == Ok::<(), Error>(())
            &&& !terms_match(a.order.terms, b.order.terms) ==> add_offer_outcome(
                l,
                who,
                ask_id,
                bid_id,
                expiration_block,
                block,
            ) == Err::<(), Error>(Error::AskBidMismatch)
        }),
{
}

/// The deal lifecycle only moves forward: each transition succeeds only
/// from the position just before it, an out-of-order attempt fails, and a
/// settled deal (closed or exempted) accepts no transition at all.
pub proof fn lemma_deal_lifecycle_monotonic(
    l: Ledger,
    who: Seq<u8>,
    deal_order_id: DealOrderId,
    transfer_id: Seq<u8>,
    block: u64,
    timestamp: u64,
)
    requires
        find_entry(l.deal_orders@, deal_order_id.expiration_block, deal_order_id.hash@) is Some,
    ensures
        ({
            let st = find_entry(
                l.deal_orders@,
                deal_order_id.expiration_block,
                deal_order_id.hash@,
            ).unwrap().deal.state;
            &&& fund_deal_order_outcome(l, who, deal_order_id, transfer_id, block, timestamp)
                is Ok ==> st is Open
            &&& lock_deal_order_outcome(l, who, deal_order_id) is Ok ==> st is Funded
            &&& close_deal_order_outcome(l, who, deal_order_id, transfer_id, block, timestamp)
                is Ok ==> st is Locked
            &&& exempt_outcome(l, who, deal_order_id) is Ok ==> !st.is_settled()
            &&& st is Open ==> lock_deal_order_outcome(l, who, deal_order_id) == Err::<
                (),
                Error,
            >(Error::DealNotFunded)
            &&& st is Open ==> close_deal_order_outcome(
                l,
                who,
                deal_order_id,
                transfer_id,
                block,
                timestamp,
            ) is Err
            &&& st.is_settled() ==> fund_deal_order_outcome(
                l,
                who,
                deal_order_id,
                transfer_id,
                block,
                timestamp,
            ) is Err
            &&& st.is_settled() ==> lock_deal_order_outcome(l, who, deal_order_id) is Err
            &&& st.is_settled() ==> close_deal_order_outcome(
                l,
                who,
                deal_order_id,
                transfer_id,
                block,
                timestamp,
            ) is Err
            &&& st.is_settled() ==> exempt_outcome(l, who, deal_order_id) == Err::<(), Error>(
                Error::DealOrderAlreadyClosed,
            )
        }),
{
    let de = find_entry(
        l.deal_orders@,
        deal_order_id.expiration_block,
        deal_order_id.hash@,
    ).unwrap();
    let st = de.deal.state;
    if st.is_settled() {
        assert(st is Closed || st is Exempted);
        assert(st is Closed ==> st.funding_of() is Some);
    }
    if fund_deal_order_outcome(l, who, deal_order_id, transfer_id, block, timestamp) is Ok {
        assert(!(st is Exempted) && st.funding_of() is None);
    }
    if close_deal_order_outcome(l, who, deal_order_id, transfer_id, block, timestamp) is Ok {
        assert(!st.is_settled() && st.lock_of() is Some);
    }
}

/// A task outcome commits at most once: as soon as the target store holds
/// the claim id, both a second successful submission and a failure
/// submission for it are rejected.
pub proof fn lemma_task_commit_at_most_once(
    l: Ledger,
    who: Seq<u8>,
    output: TaskOutput,
    task_id: TaskId,
)
    ensures
        (output matches TaskOutput::VerifyTransfer { id, .. } && find_entry(
            l.transfers@,
            0,
            id@,
        ) is Some) ==> persist_task_output_outcome(l, who, output) is Err,
        (output matches TaskOutput::CollectCoins { id, .. } && find_entry(
            l.collected_coins@,
            0,
            id@,
        ) is Some) ==> persist_task_output_outcome(l, who, output) is Err,
        (task_id matches TaskId::VerifyTransfer { id } && find_entry(
            l.transfers@,
            0,
            id@,
        ) is Some) ==> fail_task_outcome(l, who, task_id) is Err,
        (task_id matches TaskId::CollectCoins { id } && find_entry(
            l.collected_coins@,
            0,
            id@,
        ) is Some) ==> fail_task_outcome(l, who, task_id) is Err,
{
}

/// After a reaper pass at block `k`, no ask, bid or offer keyed at `k`
/// remains, and a deal keyed at `k` remains exactly when it was funded;
/// such survivors stay bound to their keys, so they stay closeable.
pub proof fn lemma_reaper_purges_block(l: Ledger, l2: Ledger, k: u64, h: Seq<u8>)
    requires
        l2.ask_orders@ == crate::ledger::drop_exp(l.ask_orders@, k),
        l2.bid_orders@ == crate::ledger::drop_exp(l.bid_orders@, k),
        l2.offers@ == crate::ledger::drop_exp(l.offers@, k),
        l2.deal_orders@ == crate::reaper::drop_expired_unfunded(l.deal_orders@, k),
    ensures
        find_entry(l2.ask_orders@, k, h) is None,
        find_entry(l2.bid_orders@, k, h) is None,
        find_entry(l2.offers@, k, h) is None,
        (find_entry(l.deal_orders@, k, h) matches Some(e) && e.deal.state.funding_of() is Some)
            ==> find_entry(l2.deal_orders@, k, h) == find_entry(l.deal_orders@, k, h),
{
    crate::ledger::lemma_drop_exp_find(l.ask_orders@, k, k, h);
    crate::ledger::lemma_drop_exp_find(l.bid_orders@, k, k, h);
    crate::ledger::lemma_drop_exp_find(l.offers@, k, k, h);
    crate::reaper::lemma_drop_expired_unfunded_find(l.deal_orders@, k, k, h);
}

} // verus!
