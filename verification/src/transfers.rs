//! Registration of claimed external-chain transfers.
//!
//! A registered transfer is not trusted: it becomes a verification task
//! under the oracle's current deadline, and only a successful
//! `persist_task_output` stores the transfer record itself.  A funding claim
//! always carries the deal's agreed amount; a repayment claim carries a
//! caller-supplied amount (partial repayment is allowed by design).

use vstd::prelude::*;

use crate::ids;
use crate::ledger::{find_entry, find_index, lemma_find_push, Keyed, Ledger, PendingTask};
use crate::types::{
    kind_supported, AccountId, DealOrderId, Error, Event, ExternalTxId, TransferKind,
};
use crate::util;

verus! {

/// What registering a transfer from `from_id` to `to_id` returns, once the
/// deal is resolved; checks in this order, first failure wins.
pub open spec fn register_transfer_internal_outcome(
    l: Ledger,
    who: Seq<u8>,
    kind: TransferKind,
    from_id: Seq<u8>,
    to_id: Seq<u8>,
    tx_id: Seq<u8>,
    deadline: u64,
) -> Result<(), Error> {
    match find_entry(l.addresses@, 0, from_id) {
        None => Err(Error::NonExistentAddress),
        Some(fe) => {
            match find_entry(l.addresses@, 0, to_id) {
                None => Err(Error::NonExistentAddress),
                Some(te) => {
                    if fe.address.owner@ != who {
                        Err(Error::NotAddressOwner)
                    } else if fe.address.blockchain != te.address.blockchain {
                        Err(Error::AddressBlockchainMismatch)
                    } else if !kind_supported(fe.address.blockchain, kind) {
                        Err(Error::UnsupportedTransferKind)
                    } else if find_entry(
                        l.transfers@,
                        0,
                        ids::transfer_id_of(fe.address.blockchain, tx_id),
                    ) is Some {
                        Err(Error::TransferAlreadyRegistered)
                    } else if l.is_scheduled_s(
                        deadline,
                        ids::transfer_id_of(fe.address.blockchain, tx_id),
                    ) {
                        Err(Error::TransferAlreadyRegistered)
                    } else {
                        Ok(())
                    }
                },
            }
        },
    }
}

/// What `register_funding_transfer` returns: the claim runs from the deal's
/// lender address to its borrower address.
pub open spec fn register_funding_transfer_outcome(
    l: Ledger,
    who: Seq<u8>,
    kind: TransferKind,
    deal_order_id: DealOrderId,
    tx_id: Seq<u8>,
    deadline: u64,
) -> Result<(), Error> {
    match find_entry(l.deal_orders@, deal_order_id.expiration_block, deal_order_id.hash@) {
        None => Err(Error::NonExistentDealOrder),
        Some(de) => register_transfer_internal_outcome(
            l,
            who,
            kind,
            de.deal.lender_address_id@,
            de.deal.borrower_address_id@,
            tx_id,
            deadline,
        ),
    }
}

/// What `register_repayment_transfer` returns: the claim runs from the
/// deal's borrower address to its lender address.
pub open spec fn register_repayment_transfer_outcome(
    l: Ledger,
    who: Seq<u8>,
    kind: TransferKind,
    deal_order_id: DealOrderId,
    tx_id: Seq<u8>,
    deadline: u64,
) -> Result<(), Error> {
    match find_entry(l.deal_orders@, deal_order_id.expiration_block, deal_order_id.hash@) {
        None => Err(Error::NonExistentDealOrder),
        Some(de) => register_transfer_internal_outcome(
            l,
            who,
            kind,
            de.deal.borrower_address_id@,
            de.deal.lender_address_id@,
            tx_id,
            deadline,
        ),
    }
}

impl Ledger {
    /// Shared tail of the two registration calls, once the claim's endpoint
    /// address ids and amount are resolved from the deal.
    fn register_transfer_internal(
        &mut self,
        who: AccountId,
        kind: TransferKind,
        from_id: Vec<u8>,
        to_id: Vec<u8>,
        amount: u128,
        tx_id: ExternalTxId,
        deadline: u64,
    ) -> (r: Result<(), Error>)
        ensures
            r == register_transfer_internal_outcome(
                *old(self),
                who@,
                kind,
                from_id@,
                to_id@,
                tx_id@,
                deadline,
            ),
            r is Err ==> *final(self) == *old(self),
            r is Ok ==> {
                let chain = find_entry(
                    old(self).addresses@,
                    0,
                    from_id@,
                ).unwrap().address.blockchain;
                let p = final(self).pending_tasks@;
                &&& p == old(self).pending_tasks@.push(p.last())
                &&& p.last().deadline == deadline
                &&& p.last().task_id@ == ids::transfer_id_of(chain, tx_id@)
                &&& final(self).is_scheduled_s(deadline, ids::transfer_id_of(chain, tx_id@))
            },
            r is Ok ==> {
                let chain = find_entry(
                    old(self).addresses@,
                    0,
                    from_id@,
                ).unwrap().address.blockchain;
                let ev = final(self).events@;
                &&& ev == old(self).events@.push(ev.last())
                &&& (ev.last() matches Event::TransferRegistered { transfer_id: t, amount: a }
                    && t@ == ids::transfer_id_of(chain, tx_id@) && a == amount)
            },
            final(self).addresses == old(self).addresses,
            final(self).ask_orders == old(self).ask_orders,
            final(self).bid_orders == old(self).bid_orders,
            final(self).offers == old(self).offers,
            final(self).deal_orders == old(self).deal_orders,
            final(self).transfers == old(self).transfers,
            final(self).collected_coins == old(self).collected_coins,
            final(self).used_guids == old(self).used_guids,
            final(self).authorities == old(self).authorities,
            final(self).collect_coins_contract == old(self).collect_coins_contract,
            final(self).balances == old(self).balances,
    {
        let from_i = match find_index(&self.addresses, 0, &from_id) {
            Some(i) => i,
            None => {
                return Err(Error::NonExistentAddress);
            },
        };
        let to_i = match find_index(&self.addresses, 0, &to_id) {
            Some(i) => i,
            None => {
                return Err(Error::NonExistentAddress);
            },
        };
        if !util::bytes_eq(&self.addresses[from_i].address.owner, &who) {
            return Err(Error::NotAddressOwner);
        }
        if self.addresses[from_i].address.blockchain != self.addresses[to_i].address.blockchain {
            return Err(Error::AddressBlockchainMismatch);
        }
        let chain = self.addresses[from_i].address.blockchain;
        if !crate::types::kind_supported_exec(chain, &kind) {
            return Err(Error::UnsupportedTransferKind);
        }
        let transfer_id = ids::transfer_id(chain, &tx_id);
        if find_index(&self.transfers, 0, &transfer_id).is_some() {
            return Err(Error::TransferAlreadyRegistered);
        }
        if self.is_scheduled(deadline, &transfer_id) {
            return Err(Error::TransferAlreadyRegistered);
        }
        let task = PendingTask { deadline, task_id: util::copy_bytes(&transfer_id) };
        proof {
            lemma_find_push(self.pending_tasks@, task, deadline, task.task_id@);
        }
        self.pending_tasks.push(task);
        self.events.push(Event::TransferRegistered { transfer_id, amount });
        Ok(())
    }

    /// A lender claims to have funded a deal on its external chain.  The
    /// claim is scheduled for oracle verification; nothing else changes.
    pub fn register_funding_transfer(
        &mut self,
        who: AccountId,
        transfer_kind: TransferKind,
        deal_order_id: DealOrderId,
        blockchain_tx_id: ExternalTxId,
        deadline: u64,
    ) -> (r: Result<(), Error>)
        ensures
            r == register_funding_transfer_outcome(
                *old(self),
                who@,
                transfer_kind,
                deal_order_id,
                blockchain_tx_id@,
                deadline,
            ),
            r is Err ==> *final(self) == *old(self),
            r is Ok ==> {
                let de = find_entry(
                    old(self).deal_orders@,
                    deal_order_id.expiration_block,
                    deal_order_id.hash@,
                ).unwrap();
                let chain = find_entry(
                    old(self).addresses@,
                    0,
                    de.deal.lender_address_id@,
                ).unwrap().address.blockchain;
                let p = final(self).pending_tasks@;
                let ev = final(self).events@;
                &&& p == old(self).pending_tasks@.push(p.last())
                &&& p.last().deadline == deadline
                &&& p.last().task_id@ == ids::transfer_id_of(chain, blockchain_tx_id@)
                &&& final(self).is_scheduled_s(
                    deadline,
                    ids::transfer_id_of(chain, blockchain_tx_id@),
                )
                &&& ev == old(self).events@.push(ev.last())
                &&& (ev.last() matches Event::TransferRegistered { transfer_id: t, amount: a }
                    && t@ == ids::transfer_id_of(chain, blockchain_tx_id@) && a
                    == de.deal.terms.amount)
            },
            final(self).addresses == old(self).addresses,
            final(self).ask_orders == old(self).ask_orders,
            final(self).bid_orders == old(self).bid_orders,
            final(self).offers == old(self).offers,
            final(self).deal_orders == old(self).deal_orders,
            final(self).transfers == old(self).transfers,
            final(self).collected_coins == old(self).collected_coins,
            final(self).used_guids == old(self).used_guids,
            final(self).authorities == old(self).authorities,
            final(self).collect_coins_contract == old(self).collect_coins_contract,
            final(self).balances == old(self).balances,
    {
        let deal_i = match find_index(
            &self.deal_orders,
            deal_order_id.expiration_block,
            &deal_order_id.hash,
        ) {
            Some(i) => i,
            None => {
                return Err(Error::NonExistentDealOrder);
            },
        };
        let from_id = util::copy_bytes(&self.deal_orders[deal_i].deal.lender_address_id);
        let to_id = util::copy_bytes(&self.deal_orders[deal_i].deal.borrower_address_id);
        let amount = self.deal_orders[deal_i].deal.terms.amount;
        self.register_transfer_internal(
            who,
            transfer_kind,
            from_id,
            to_id,
            amount,
            blockchain_tx_id,
            deadline,
        )
    }

    /// A borrower claims to have repaid a deal on its external chain, for a
    /// caller-chosen amount.  The claim is scheduled for oracle
    /// verification; nothing else changes.
    pub fn register_repayment_transfer(
        &mut self,
        who: AccountId,
        transfer_kind: TransferKind,
        repayment_amount: u128,
        deal_order_id: DealOrderId,
        blockchain_tx_id: ExternalTxId,
        deadline: u64,
    ) -> (r: Result<(), Error>)
        ensures
            r == register_repayment_transfer_outcome(
                *old(self),
                who@,
                transfer_kind,
                deal_order_id,
                blockchain_tx_id@,
                deadline,
            ),
            r is Err ==> *final(self) == *old(self),
            r is Ok ==> {
                let de = find_entry(
                    old(self).deal_orders@,
                    deal_order_id.expiration_block,
                    deal_order_id.hash@,
                ).unwrap();
                let chain = find_entry(
                    old(self).addresses@,
                    0,
                    de.deal.borrower_address_id@,
                ).unwrap().address.blockchain;
                let p = final(self).pending_tasks@;
                let ev = final(self).events@;
                &&& p == old(self).pending_tasks@.push(p.last())
                &&& p.last().deadline == deadline
                &&& p.last().task_id@ == ids::transfer_id_of(chain, blockchain_tx_id@)
                &&& final(self).is_scheduled_s(
                    deadline,
                    ids::transfer_id_of(chain, blockchain_tx_id@),
                )
                &&& ev == old(self).events@.push(ev.last())
                &&& (ev.last() matches Event::TransferRegistered { transfer_id: t, amount: a }
                    && t@ == ids::transfer_id_of(chain, blockchain_tx_id@) && a
                    == repayment_amount)
            },
            final(self).addresses == old(self).addresses,
            final(self).ask_orders == old(self).ask_orders,
            final(self).bid_orders == old(self).bid_orders,
            final(self).offers == old(self).offers,
            final(self).deal_orders == old(self).deal_orders,
            final(self).transfers == old(self).transfers,
            final(self).collected_coins == old(self).collected_coins,
            final(self).used_guids == old(self).used_guids,
            final(self).authorities == old(self).authorities,
            final(self).collect_coins_contract == old(self).collect_coins_contract,
            final(self).balances == old(self).balances,
    {
        let deal_i = match find_index(
            &self.deal_orders,
            deal_order_id.expiration_block,
            &deal_order_id.hash,
        ) {
            Some(i) => i,
            None => {
                return Err(Error::NonExistentDealOrder);
            },
        };
        let from_id = util::copy_bytes(&self.deal_orders[deal_i].deal.borrower_address_id);
        let to_id = util::copy_bytes(&self.deal_orders[deal_i].deal.lender_address_id);
        self.register_transfer_internal(
            who,
            transfer_kind,
            from_id,
            to_id,
            repayment_amount,
            blockchain_tx_id,
            deadline,
        )
    }
}

} // verus!
