//! The deal lifecycle: funding, locking, closing, and exemption.
//!
//! A deal moves along `Open -> Funded -> Locked -> Closed`, or to the
//! terminal `Exempted` from any earlier position; a settled deal (one with a
//! repayment reference) accepts no further transition.  Funding and closing
//! are transactional dual mutations: the deal and the transfer it consumes
//! are validated together and either both change or neither does.

use vstd::prelude::*;

use crate::ids;
use crate::ledger::{find_entry, find_index, lemma_find_update_same, Keyed, Ledger};
use crate::types::{
    AccountId, DealOrder, DealOrderId, DealState, Error, Event,
};
use crate::util;

verus! {

/// What `lock_deal_order` returns, as a function of the pre-state.
pub open spec fn lock_deal_order_outcome(l: Ledger, who: Seq<u8>, id: DealOrderId) -> Result<
    (),
    Error,
> {
    match find_entry(l.deal_orders@, id.expiration_block, id.hash@) {
        None => Err(Error::NonExistentDealOrder),
        Some(de) => {
            if de.deal.state.lock_of() is Some {
                Err(Error::DealOrderAlreadyLocked)
            } else if de.deal.state.funding_of() is None {
                Err(Error::DealNotFunded)
            } else if de.deal.state.is_settled() {
                Err(Error::DealOrderAlreadyClosed)
            } else if de.deal.borrower@ != who {
                Err(Error::NotBorrower)
            } else {
                Ok(())
            }
        },
    }
}

/// What `fund_deal_order` returns, as a function of the pre-state.
pub open spec fn fund_deal_order_outcome(
    l: Ledger,
    who: Seq<u8>,
    id: DealOrderId,
    transfer_id: Seq<u8>,
    block: u64,
    timestamp: u64,
) -> Result<(), Error> {
    match find_entry(l.deal_orders@, id.expiration_block, id.hash@) {
        None => Err(Error::NonExistentDealOrder),
        Some(de) => {
            match find_entry(l.addresses@, 0, de.deal.lender_address_id@) {
                None => Err(Error::NonExistentAddress),
                Some(ae) => {
                    if ae.address.owner@ != who {
                        Err(Error::NotLender)
                    } else if timestamp < de.deal.timestamp {
                        Err(Error::MalformedDealOrder)
                    } else if de.deal.state is Exempted {
                        Err(Error::DealOrderAlreadyClosed)
                    } else if de.deal.state.funding_of() is Some {
                        Err(Error::DealOrderAlreadyFunded)
                    } else if de.deal.expiration_block < block {
                        Err(Error::DealOrderExpired)
                    } else {
                        match find_entry(l.transfers@, 0, transfer_id) {
                            None => Err(Error::NonExistentTransfer),
                            Some(te) => {
                                if !(te.transfer.deal_order_id.expiration_block
                                    == id.expiration_block && te.transfer.deal_order_id.hash@
                                    == id.hash@) {
                                    Err(Error::TransferDealOrderMismatch)
                                } else if te.transfer.amount != de.deal.terms.amount {
                                    Err(Error::TransferAmountMismatch)
                                } else if te.transfer.account_id@ != who {
                                    Err(Error::TransferAccountMismatch)
                                } else if te.transfer.is_processed {
                                    Err(Error::TransferAlreadyProcessed)
                                } else {
                                    Ok(())
                                }
                            },
                        }
                    }
                },
            }
        },
    }
}

/// What `close_deal_order` returns, as a function of the pre-state.
pub open spec fn close_deal_order_outcome(
    l: Ledger,
    who: Seq<u8>,
    id: DealOrderId,
    transfer_id: Seq<u8>,
    block: u64,
    timestamp: u64,
) -> Result<(), Error> {
    match find_entry(l.deal_orders@, id.expiration_block, id.hash@) {
        None => Err(Error::NonExistentDealOrder),
        Some(de) => {
            match find_entry(l.addresses@, 0, de.deal.borrower_address_id@) {
                None => Err(Error::NonExistentAddress),
                Some(ae) => {
                    if ae.address.owner@ != who {
                        Err(Error::NotBorrower)
                    } else if timestamp < de.deal.timestamp {
                        Err(Error::MalformedDealOrder)
                    } else if de.deal.state.is_settled() {
                        Err(Error::DealOrderAlreadyClosed)
                    } else if de.deal.state.lock_of() is None {
                        Err(Error::DealOrderMustBeLocked)
                    } else {
                        match find_entry(l.transfers@, 0, transfer_id) {
                            None => Err(Error::NonExistentTransfer),
                            Some(te) => {
                                if !(te.transfer.deal_order_id.expiration_block
                                    == id.expiration_block && te.transfer.deal_order_id.hash@
                                    == id.hash@) {
                                    Err(Error::TransferDealOrderMismatch)
                                } else if te.transfer.block > block {
                                    Err(Error::MalformedTransfer)
                                } else if te.transfer.account_id@ != who {
                                    Err(Error::TransferAccountMismatch)
                                } else if te.transfer.is_processed {
                                    Err(Error::TransferAlreadyProcessed)
                                } else {
                                    Ok(())
                                }
                            },
                        }
                    }
                },
            }
        },
    }
}

/// What `exempt` returns, as a function of the pre-state.
pub open spec fn exempt_outcome(l: Ledger, who: Seq<u8>, id: DealOrderId) -> Result<(), Error> {
    match find_entry(l.deal_orders@, id.expiration_block, id.hash@) {
        None => Err(Error::NonExistentDealOrder),
        Some(de) => {
            if de.deal.state.is_settled() {
                Err(Error::DealOrderAlreadyClosed)
            } else {
                match find_entry(l.addresses@, 0, de.deal.lender_address_id@) {
                    None => Err(Error::NonExistentAddress),
                    Some(ae) => {
                        if ae.address.owner@ != who {
                            Err(Error::NotLender)
                        } else {
                            Ok(())
                        }
                    },
                }
            }
        },
    }
}

impl Ledger {
    /// The borrower locks a funded deal in preparation for repayment.
    pub fn lock_deal_order(&mut self, who: AccountId, deal_order_id: DealOrderId) -> (r: Result<
        (),
        Error,
    >)
        ensures
            r == lock_deal_order_outcome(*old(self), who@, deal_order_id),
            r is Err ==> *final(self) == *old(self),
            r is Ok ==> {
                let e0 = find_entry(
                    old(self).deal_orders@,
                    deal_order_id.expiration_block,
                    deal_order_id.hash@,
                ).unwrap();
                let found = find_entry(
                    final(self).deal_orders@,
                    deal_order_id.expiration_block,
                    deal_order_id.hash@,
                );
                &&& found is Some
                &&& {
                    let e = found.unwrap();
                    &&& (e.deal.state matches DealState::Locked { funding_transfer_id, lock }
                        && Some(funding_transfer_id@) == e0.deal.state.funding_of() && lock@
                        == who@)
                    &&& (e.deal == DealOrder { state: e.deal.state, ..e0.deal })
                    &&& e.deal.state.rank() > e0.deal.state.rank()
                    &&& e.expiration_block == e0.expiration_block
                    &&& e.hash == e0.hash
                }
                &&& final(self).deal_orders@.len() == old(self).deal_orders@.len()
                &&& (forall|j: int|
                    #![trigger old(self).deal_orders@[j]]
                    0 <= j < old(self).deal_orders@.len() && !(old(self).deal_orders@[j].kexp()
                        == deal_order_id.expiration_block && old(self).deal_orders@[j].khash()
                        == deal_order_id.hash@) ==> final(self).deal_orders@[j] == old(
                        self,
                    ).deal_orders@[j])
            },
            r is Ok ==> {
                let ev = final(self).events@;
                &&& ev == old(self).events@.push(ev.last())
                &&& (ev.last() matches Event::DealOrderLocked { expiration_block: xe, hash: xh }
                    && xe == deal_order_id.expiration_block && xh@ == deal_order_id.hash@)
            },
            final(self).addresses == old(self).addresses,
            final(self).ask_orders == old(self).ask_orders,
            final(self).bid_orders == old(self).bid_orders,
            final(self).offers == old(self).offers,
            final(self).transfers == old(self).transfers,
            final(self).collected_coins == old(self).collected_coins,
            final(self).used_guids == old(self).used_guids,
            final(self).authorities == old(self).authorities,
            final(self).pending_tasks == old(self).pending_tasks,
            final(self).collect_coins_contract == old(self).collect_coins_contract,
            final(self).balances == old(self).balances,
    {
        let deal_i = match find_index(
            &self.deal_orders,
            deal_order_id.expiration_block,
            &deal_order_id.hash,
        ) {
            Some(i) => i,
            None => {
                return Err(Error::NonExistentDealOrder);
            },
        };
        if self.deal_orders[deal_i].deal.state.has_lock() {
            return Err(Error::DealOrderAlreadyLocked);
        }
        if !self.deal_orders[deal_i].deal.state.has_funding() {
            return Err(Error::DealNotFunded);
        }
        if self.deal_orders[deal_i].deal.state.settled() {
            return Err(Error::DealOrderAlreadyClosed);
        }
        if !util::bytes_eq(&self.deal_orders[deal_i].deal.borrower, &who) {
            return Err(Error::NotBorrower);
        }
        let funding = match &self.deal_orders[deal_i].deal.state {
            DealState::Funded { funding_transfer_id } => util::copy_bytes(funding_transfer_id),
            _ => {
                proof {
                    assert(false);
                }
                Vec::new()
            },
        };
        self.deal_orders[deal_i].deal.state = DealState::Locked {
            funding_transfer_id: funding,
            lock: who,
        };
        proof {
            lemma_find_update_same(
                old(self).deal_orders@,
                deal_i as int,
                self.deal_orders@[deal_i as int],
            );
        }
        self.events.push(
            Event::DealOrderLocked {
                expiration_block: deal_order_id.expiration_block,
                hash: deal_order_id.hash,
            },
        );
        Ok(())
    }

    /// The lender funds an open, unexpired deal by consuming a registered,
    /// verified transfer of exactly the agreed amount; deal and transfer
    /// change together or not at all.
    pub fn fund_deal_order(
        &mut self,
        who: AccountId,
        deal_order_id: DealOrderId,
        transfer_id: Vec<u8>,
        block: u64,
        timestamp: u64,
    ) -> (r: Result<(), Error>)
        ensures
            r == fund_deal_order_outcome(
                *old(self),
                who@,
                deal_order_id,
                transfer_id@,
                block,
                timestamp,
            ),
            r is Err ==> *final(self) == *old(self),
            r is Ok ==> {
                let e0 = find_entry(
                    old(self).deal_orders@,
                    deal_order_id.expiration_block,
                    deal_order_id.hash@,
                ).unwrap();
                let found = find_entry(
                    final(self).deal_orders@,
                    deal_order_id.expiration_block,
                    deal_order_id.hash@,
                );
                &&& found is Some
                &&& {
                    let e = found.unwrap();
                    &&& (e.deal.state matches DealState::Funded { funding_transfer_id }
                        && funding_transfer_id@ == transfer_id@)
                    &&& (e.deal == DealOrder {
                        state: e.deal.state,
                        timestamp: timestamp,
                        ..e0.deal
                    })
                    &&& e.deal.state.rank() > e0.deal.state.rank()
                    &&& e.expiration_block == e0.expiration_block
                    &&& e.hash == e0.hash
                }
                &&& final(self).deal_orders@.len() == old(self).deal_orders@.len()
                &&& (forall|j: int|
                    #![trigger old(self).deal_orders@[j]]
                    0 <= j < old(self).deal_orders@.len() && !(old(self).deal_orders@[j].kexp()
                        == deal_order_id.expiration_block && old(self).deal_orders@[j].khash()
                        == deal_order_id.hash@) ==> final(self).deal_orders@[j] == old(
                        self,
                    ).deal_orders@[j])
            },
            r is Ok ==> {
                let t0 = find_entry(old(self).transfers@, 0, transfer_id@).unwrap();
                let found = find_entry(final(self).transfers@, 0, transfer_id@);
                &&& found is Some
                &&& {
                    let t = found.unwrap();
                    &&& t.transfer.is_processed
                    &&& (t.transfer == crate::types::Transfer {
                        is_processed: true,
                        ..t0.transfer
                    })
                    &&& t.id == t0.id
                }
                &&& final(self).transfers@.len() == old(self).transfers@.len()
                &&& (forall|j: int|
                    #![trigger old(self).transfers@[j]]
                    0 <= j < old(self).transfers@.len() && !(old(self).transfers@[j].khash()
                        == transfer_id@) ==> final(self).transfers@[j] == old(self).transfers@[j])
            },
            r is Ok ==> {
                let ev = final(self).events@;
                &&& ev.len() == old(self).events@.len() + 2
                &&& ev == old(self).events@.push(ev[ev.len() - 2]).push(ev[ev.len() - 1])
                &&& (ev[ev.len() - 2] matches Event::DealOrderFunded {
                    expiration_block: xe,
                    hash: xh,
                } && xe == deal_order_id.expiration_block && xh@ == deal_order_id.hash@)
                &&& (ev.last() matches Event::TransferProcessed { transfer_id: t } && t@
                    == transfer_id@)
            },
            final(self).addresses == old(self).addresses,
            final(self).ask_orders == old(self).ask_orders,
            final(self).bid_orders == old(self).bid_orders,
            final(self).offers == old(self).offers,
            final(self).collected_coins == old(self).collected_coins,
            final(self).used_guids == old(self).used_guids,
            final(self).authorities == old(self).authorities,
            final(self).pending_tasks == old(self).pending_tasks,
            final(self).collect_coins_contract == old(self).collect_coins_contract,
            final(self).balances == old(self).balances,
    {
        let deal_i = match find_index(
            &self.deal_orders,
            deal_order_id.expiration_block,
            &deal_order_id.hash,
        ) {
            Some(i) => i,
            None => {
                return Err(Error::NonExistentDealOrder);
            },
        };
        let addr_i = match find_index(
            &self.addresses,
            0,
            &self.deal_orders[deal_i].deal.lender_address_id,
        ) {
            Some(i) => i,
            None => {
                return Err(Error::NonExistentAddress);
            },
        };
        if !util::bytes_eq(&self.addresses[addr_i].address.owner, &who) {
            return Err(Error::NotLender);
        }
        if timestamp < self.deal_orders[deal_i].deal.timestamp {
            return Err(Error::MalformedDealOrder);
        }
        if self.deal_orders[deal_i].deal.state.exempted() {
            return Err(Error::DealOrderAlreadyClosed);
        }
        if self.deal_orders[deal_i].deal.state.has_funding() {
            return Err(Error::DealOrderAlreadyFunded);
        }
        if self.deal_orders[deal_i].deal.expiration_block < block {
            return Err(Error::DealOrderExpired);
        }
        let t_i = match find_index(&self.transfers, 0, &transfer_id) {
            Some(i) => i,
            None => {
                return Err(Error::NonExistentTransfer);
            },
        };
        if !(self.transfers[t_i].transfer.deal_order_id.expiration_block
            == deal_order_id.expiration_block && util::bytes_eq(
            &self.transfers[t_i].transfer.deal_order_id.hash,
            &deal_order_id.hash,
        )) {
            return Err(Error::TransferDealOrderMismatch);
        }
        if self.transfers[t_i].transfer.amount != self.deal_orders[deal_i].deal.terms.amount {
            return Err(Error::TransferAmountMismatch);
        }
        if !util::bytes_eq(&self.transfers[t_i].transfer.account_id, &who) {
            return Err(Error::TransferAccountMismatch);
        }
        if self.transfers[t_i].transfer.is_processed {
            return Err(Error::TransferAlreadyProcessed);
        }
        self.deal_orders[deal_i].deal.state = DealState::Funded {
            funding_transfer_id: util::copy_bytes(&transfer_id),
        };
        self.deal_orders[deal_i].deal.timestamp = timestamp;
        self.transfers[t_i].transfer.is_processed = true;
        proof {
            assert(self.deal_orders@ =~= old(self).deal_orders@.update(
                deal_i as int,
                self.deal_orders@[deal_i as int],
            ));
            lemma_find_update_same(
                old(self).deal_orders@,
                deal_i as int,
                self.deal_orders@[deal_i as int],
            );
            lemma_find_update_same(
                old(self).transfers@,
                t_i as int,
                self.transfers@[t_i as int],
            );
        }
        self.events.push(
            Event::DealOrderFunded {
                expiration_block: deal_order_id.expiration_block,
                hash: deal_order_id.hash,
            },
        );
        self.events.push(Event::TransferProcessed { transfer_id });
        Ok(())
    }

    /// The borrower closes a locked deal by consuming a registered repayment
    /// transfer; deal and transfer change together or not at all.
    pub fn close_deal_order(
        &mut self,
        who: AccountId,
        deal_order_id: DealOrderId,
        transfer_id: Vec<u8>,
        block: u64,
        timestamp: u64,
    ) -> (r: Result<(), Error>)
        ensures
            r == close_deal_order_outcome(
                *old(self),
                who@,
                deal_order_id,
                transfer_id@,
                block,
                timestamp,
            ),
            r is Err ==> *final(self) == *old(self),
            r is Ok ==> {
                let e0 = find_entry(
                    old(self).deal_orders@,
                    deal_order_id.expiration_block,
                    deal_order_id.hash@,
                ).unwrap();
                let found = find_entry(
                    final(self).deal_orders@,
                    deal_order_id.expiration_block,
                    deal_order_id.hash@,
                );
                &&& found is Some
                &&& {
                    let e = found.unwrap();
                    &&& (e.deal.state matches DealState::Closed {
                        funding_transfer_id,
                        lock,
                        repayment_transfer_id,
                    } && Some(funding_transfer_id@) == e0.deal.state.funding_of() && Some(lock@)
                        == e0.deal.state.lock_of() && repayment_transfer_id@ == transfer_id@)
                    &&& (e.deal == DealOrder { state: e.deal.state, ..e0.deal })
                    &&& e.deal.state.rank() > e0.deal.state.rank()
                    &&& e.expiration_block == e0.expiration_block
                    &&& e.hash == e0.hash
                }
                &&& final(self).deal_orders@.len() == old(self).deal_orders@.len()
                &&& (forall|j: int|
                    #![trigger old(self).deal_orders@[j]]
                    0 <= j < old(self).deal_orders@.len() && !(old(self).deal_orders@[j].kexp()
                        == deal_order_id.expiration_block && old(self).deal_orders@[j].khash()
                        == deal_order_id.hash@) ==> final(self).deal_orders@[j] == old(
                        self,
                    ).deal_orders@[j])
            },
            r is Ok ==> {
                let t0 = find_entry(old(self).transfers@, 0, transfer_id@).unwrap();
                let found = find_entry(final(self).transfers@, 0, transfer_id@);
                &&& found is Some
                &&& {
                    let t = found.unwrap();
                    &&& t.transfer.is_processed
                    &&& (t.transfer == crate::types::Transfer {
                        is_processed: true,
                        ..t0.transfer
                    })
                    &&& t.id == t0.id
                }
                &&& final(self).transfers@.len() == old(self).transfers@.len()
                &&& (forall|j: int|
                    #![trigger old(self).transfers@[j]]
                    0 <= j < old(self).transfers@.len() && !(old(self).transfers@[j].khash()
                        == transfer_id@) ==> final(self).transfers@[j] == old(self).transfers@[j])
            },
            r is Ok ==> {
                let ev = final(self).events@;
                &&& ev.len() == old(self).events@.len() + 2
                &&& ev == old(self).events@.push(ev[ev.len() - 2]).push(ev[ev.len() - 1])
                &&& (ev[ev.len() - 2] matches Event::DealOrderClosed {
                    expiration_block: xe,
                    hash: xh,
                } && xe == deal_order_id.expiration_block && xh@ == deal_order_id.hash@)
                &&& (ev.last() matches Event::TransferProcessed { transfer_id: t } && t@
                    == transfer_id@)
            },
            final(self).addresses == old(self).addresses,
            final(self).ask_orders == old(self).ask_orders,
            final(self).bid_orders == old(self).bid_orders,
            final(self).offers == old(self).offers,
            final(self).collected_coins == old(self).collected_coins,
            final(self).used_guids == old(self).used_guids,
            final(self).authorities == old(self).authorities,
            final(self).pending_tasks == old(self).pending_tasks,
            final(self).collect_coins_contract == old(self).collect_coins_contract,
            final(self).balances == old(self).balances,
    {
        let deal_i = match find_index(
            &self.deal_orders,
            deal_order_id.expiration_block,
            &deal_order_id.hash,
        ) {
            Some(i) => i,
            None => {
                return Err(Error::NonExistentDealOrder);
            },
        };
        let addr_i = match find_index(
            &self.addresses,
            0,
            &self.deal_orders[deal_i].deal.borrower_address_id,
        ) {
            Some(i) => i,
            None => {
                return Err(Error::NonExistentAddress);
            },
        };
        if !util::bytes_eq(&self.addresses[addr_i].address.owner, &who) {
            return Err(Error::NotBorrower);
        }
        if timestamp < self.deal_orders[deal_i].deal.timestamp {
            return Err(Error::MalformedDealOrder);
        }
        if self.deal_orders[deal_i].deal.state.settled() {
            return Err(Error::DealOrderAlreadyClosed);
        }
        if !self.deal_orders[deal_i].deal.state.has_lock() {
            return Err(Error::DealOrderMustBeLocked);
        }
        let t_i = match find_index(&self.transfers, 0, &transfer_id) {
            Some(i) => i,
            None => {
                return Err(Error::NonExistentTransfer);
            },
        };
        if !(self.transfers[t_i].transfer.deal_order_id.expiration_block
            == deal_order_id.expiration_block && util::bytes_eq(
            &self.transfers[t_i].transfer.deal_order_id.hash,
            &deal_order_id.hash,
        )) {
            return Err(Error::TransferDealOrderMismatch);
        }
        if self.transfers[t_i].transfer.block > block {
            return Err(Error::MalformedTransfer);
        }
        if !util::bytes_eq(&self.transfers[t_i].transfer.account_id, &who) {
            return Err(Error::TransferAccountMismatch);
        }
        if self.transfers[t_i].transfer.is_processed {
            return Err(Error::TransferAlreadyProcessed);
        }
        let (funding, lock) = match &self.deal_orders[deal_i].deal.state {
            DealState::Locked { funding_transfer_id, lock } => (
                util::copy_bytes(funding_transfer_id),
                util::copy_bytes(lock),
            ),
            _ => {
                proof {
                    assert(false);
                }
                (Vec::new(), Vec::new())
            },
        };
        self.deal_orders[deal_i].deal.state = DealState::Closed {
            funding_transfer_id: funding,
            lock,
            repayment_transfer_id: util::copy_bytes(&transfer_id),
        };
        self.transfers[t_i].transfer.is_processed = true;
        proof {
            lemma_find_update_same(
                old(self).deal_orders@,
                deal_i as int,
                self.deal_orders@[deal_i as int],
            );
            lemma_find_update_same(
                old(self).transfers@,
                t_i as int,
                self.transfers@[t_i as int],
            );
        }
        self.events.push(
            Event::DealOrderClosed {
                expiration_block: deal_order_id.expiration_block,
                hash: deal_order_id.hash,
            },
        );
        self.events.push(Event::TransferProcessed { transfer_id });
        Ok(())
    }

    /// The lender waives repayment on an unsettled deal.  A synthetic
    /// zero-amount repayment reference (the transfer id of tx `"0"` on the
    /// lender's chain) marks the deal settled; no transfer record is stored.
    pub fn exempt(&mut self, who: AccountId, deal_order_id: DealOrderId) -> (r: Result<
        (),
        Error,
    >)
        ensures
            r == exempt_outcome(*old(self), who@, deal_order_id),
            r is Err ==> *final(self) == *old(self),
            r is Ok ==> {
                let e0 = find_entry(
                    old(self).deal_orders@,
                    deal_order_id.expiration_block,
                    deal_order_id.hash@,
                ).unwrap();
                let lender = find_entry(
                    old(self).addresses@,
                    0,
                    e0.deal.lender_address_id@,
                ).unwrap();
                let found = find_entry(
                    final(self).deal_orders@,
                    deal_order_id.expiration_block,
                    deal_order_id.hash@,
                );
                &&& found is Some
                &&& {
                    let e = found.unwrap();
                    &&& (e.deal.state matches DealState::Exempted {
                        funding_transfer_id,
                        lock,
                        repayment_transfer_id,
                    } && (match funding_transfer_id {
                        Some(f) => e0.deal.state.funding_of() == Some(f@),
                        None => e0.deal.state.funding_of() is None,
                    }) && (match lock {
                        Some(a) => e0.deal.state.lock_of() == Some(a@),
                        None => e0.deal.state.lock_of() is None,
                    }) && repayment_transfer_id@ == ids::transfer_id_of(
                        lender.address.blockchain,
                        seq![48u8],
                    ))
                    &&& (e.deal == DealOrder { state: e.deal.state, ..e0.deal })
                    &&& e.deal.state.rank() > e0.deal.state.rank()
                    &&& e.expiration_block == e0.expiration_block
                    &&& e.hash == e0.hash
                }
                &&& final(self).deal_orders@.len() == old(self).deal_orders@.len()
                &&& (forall|j: int|
                    #![trigger old(self).deal_orders@[j]]
                    0 <= j < old(self).deal_orders@.len() && !(old(self).deal_orders@[j].kexp()
                        == deal_order_id.expiration_block && old(self).deal_orders@[j].khash()
                        == deal_order_id.hash@) ==> final(self).deal_orders@[j] == old(
                        self,
                    ).deal_orders@[j])
            },
            r is Ok ==> {
                let ev = final(self).events@;
                &&& ev == old(self).events@.push(ev.last())
                &&& (ev.last() matches Event::LoanExempted { expiration_block: xe, hash: xh }
                    && xe == deal_order_id.expiration_block && xh@ == deal_order_id.hash@)
            },
            final(self).addresses == old(self).addresses,
            final(self).ask_orders == old(self).ask_orders,
            final(self).bid_orders == old(self).bid_orders,
            final(self).offers == old(self).offers,
            final(self).transfers == old(self).transfers,
            final(self).collected_coins == old(self).collected_coins,
            final(self).used_guids == old(self).used_guids,
            final(self).authorities == old(self).authorities,
            final(self).pending_tasks == old(self).pending_tasks,
            final(self).collect_coins_contract == old(self).collect_coins_contract,
            final(self).balances == old(self).balances,
    {
        let deal_i = match find_index(
            &self.deal_orders,
            deal_order_id.expiration_block,
            &deal_order_id.hash,
        ) {
            Some(i) => i,
            None => {
                return Err(Error::NonExistentDealOrder);
            },
        };
        if self.deal_orders[deal_i].deal.state.settled() {
            return Err(Error::DealOrderAlreadyClosed);
        }
        let addr_i = match find_index(
            &self.addresses,
            0,
            &self.deal_orders[deal_i].deal.lender_address_id,
        ) {
            Some(i) => i,
            None => {
                return Err(Error::NonExistentAddress);
            },
        };
        if !util::bytes_eq(&who, &self.addresses[addr_i].address.owner) {
            return Err(Error::NotLender);
        }
        let mut zero_tx: Vec<u8> = Vec::new();
        zero_tx.push(48u8);
        assert(zero_tx@ =~= seq![48u8]);
        let fake_transfer_id = ids::transfer_id(
            self.addresses[addr_i].address.blockchain,
            &zero_tx,
        );
        let (funding, lock) = match &self.deal_orders[deal_i].deal.state {
            DealState::Open => (None, None),
            DealState::Funded { funding_transfer_id } => (
                Some(util::copy_bytes(funding_transfer_id)),
                None,
            ),
            DealState::Locked { funding_transfer_id, lock } => (
                Some(util::copy_bytes(funding_transfer_id)),
                Some(util::copy_bytes(lock)),
            ),
            _ => {
                proof {
                    assert(false);
                }
                (None, None)
            },
        };
        self.deal_orders[deal_i].deal.state = DealState::Exempted {
            funding_transfer_id: funding,
            lock,
            repayment_transfer_id: fake_transfer_id,
        };
        proof {
            lemma_find_update_same(
                old(self).deal_orders@,
                deal_i as int,
                self.deal_orders@[deal_i as int],
            );
        }
        self.events.push(
            Event::LoanExempted {
                expiration_block: deal_order_id.expiration_block,
                hash: deal_order_id.hash,
            },
        );
        Ok(())
    }
}

} // verus!
