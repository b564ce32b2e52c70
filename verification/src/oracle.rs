//! The verification oracle protocol: claim registration for coin
//! collection, at-most-once commitment of task outcomes, and the authority
//! set.
//!
//! An authority's submission is re-validated from scratch at commit time:
//! the "does this id already exist" check on the target store is the sole
//! guard against two authorities racing, and removing the task from the
//! pending index is what makes resolution final.

use vstd::prelude::*;

use crate::ids;
use crate::ledger::{
    drop_key, find_entry, find_index, lemma_drop_key_find, lemma_find_push,
    lemma_find_update_diff, lemma_find_update_same, Authority, BalanceEntry, CollectedCoinsEntry,
    Keyed, Ledger, PendingTask, TransferEntry,
};
use crate::types::{
    AccountId, CollectCoinsContract, Error, Event, ExternalTxId, Transfer, TaskId, TaskOutput,
    VerificationFailureCause,
};
use crate::util;

verus! {

/// What `request_collect_coins` returns, as a function of the pre-state.
pub open spec fn request_collect_coins_outcome(
    l: Ledger,
    who: Seq<u8>,
    evm_address: Seq<u8>,
    tx_id: Seq<u8>,
    deadline: u64,
) -> Result<(), Error> {
    let id = ids::collected_coins_id_of(
        evm_address,
        tx_id,
        l.collect_coins_contract.chain,
        l.collect_coins_contract.address@,
    );
    if find_entry(l.collected_coins@, 0, id) is Some {
        Err(Error::CollectCoinsAlreadyRegistered)
    } else if l.is_scheduled_s(deadline, id) {
        Err(Error::CollectCoinsAlreadyRegistered)
    } else {
        match find_entry(
            l.addresses@,
            0,
            ids::address_id_of(l.collect_coins_contract.chain, evm_address),
        ) {
            None => Err(Error::NonExistentAddress),
            Some(ae) => {
                if ae.address.owner@ != who {
                    Err(Error::NotAddressOwner)
                } else {
                    Ok(())
                }
            },
        }
    }
}

/// What `persist_task_output` returns, as a function of the pre-state.
pub open spec fn persist_task_output_outcome(
    l: Ledger,
    who: Seq<u8>,
    output: TaskOutput,
) -> Result<(), Error> {
    if !l.is_authority_s(who) {
        Err(Error::InsufficientAuthority)
    } else {
        match output {
            TaskOutput::VerifyTransfer { id, transfer } => {
                if find_entry(l.transfers@, 0, id@) is Some {
                    Err(Error::TransferAlreadyRegistered)
                } else {
                    Ok(())
                }
            },
            TaskOutput::CollectCoins { id, coins } => {
                if find_entry(l.collected_coins@, 0, id@) is Some {
                    Err(Error::CollectCoinsAlreadyRegistered)
                } else {
                    match find_entry(l.addresses@, 0, coins.to@) {
                        None => Err(Error::NonExistentAddress),
                        Some(ae) => {
                            if l.balance_s(ae.address.owner@) + coins.amount > u128::MAX {
                                Err(Error::BalanceOverflow)
                            } else {
                                Ok(())
                            }
                        },
                    }
                }
            },
        }
    }
}

/// What `fail_task` returns, as a function of the pre-state.
pub open spec fn fail_task_outcome(l: Ledger, who: Seq<u8>, task_id: TaskId) -> Result<
    (),
    Error,
> {
    if !l.is_authority_s(who) {
        Err(Error::InsufficientAuthority)
    } else {
        match task_id {
            TaskId::VerifyTransfer { id } => {
                if find_entry(l.transfers@, 0, id@) is Some {
                    Err(Error::TransferAlreadyRegistered)
                } else {
                    Ok(())
                }
            },
            TaskId::CollectCoins { id } => {
                if find_entry(l.collected_coins@, 0, id@) is Some {
                    Err(Error::CollectCoinsAlreadyRegistered)
                } else {
                    Ok(())
                }
            },
        }
    }
}

impl Ledger {
    /// The owner of an address on the collection contract's chain claims
    /// that coins were deposited for withdrawal; the claim is scheduled for
    /// oracle verification.
    pub fn request_collect_coins(
        &mut self,
        who: AccountId,
        evm_address: Vec<u8>,
        tx_id: ExternalTxId,
        deadline: u64,
    ) -> (r: Result<(), Error>)
        ensures
            r == request_collect_coins_outcome(*old(self), who@, evm_address@, tx_id@, deadline),
            r is Err ==> *final(self) == *old(self),
            r is Ok ==> {
                let id = ids::collected_coins_id_of(
                    evm_address@,
                    tx_id@,
                    old(self).collect_coins_contract.chain,
                    old(self).collect_coins_contract.address@,
                );
                let p = final(self).pending_tasks@;
                let ev = final(self).events@;
                &&& p == old(self).pending_tasks@.push(p.last())
                &&& p.last().deadline == deadline
                &&& p.last().task_id@ == id
                &&& final(self).is_scheduled_s(deadline, id)
                &&& ev == old(self).events@.push(ev.last())
                &&& (ev.last() matches Event::CollectCoinsRegistered { collected_coins_id: x }
                    && x@ == id)
            },
            final(self).addresses == old(self).addresses,
            final(self).ask_orders == old(self).ask_orders,
            final(self).bid_orders == old(self).bid_orders,
            final(self).offers == old(self).offers,
            final(self).deal_orders == old(self).deal_orders,
            final(self).transfers == old(self).transfers,
            final(self).collected_coins == old(self).collected_coins,
            final(self).used_guids == old(self).used_guids,
            final(self).authorities == old(self).authorities,
            final(self).collect_coins_contract == old(self).collect_coins_contract,
            final(self).balances == old(self).balances,
    {
        let id = ids::collected_coins_id(
            &evm_address,
            &tx_id,
            self.collect_coins_contract.chain,
            &self.collect_coins_contract.address,
        );
        if find_index(&self.collected_coins, 0, &id).is_some() {
            return Err(Error::CollectCoinsAlreadyRegistered);
        }
        if self.is_scheduled(deadline, &id) {
            return Err(Error::CollectCoinsAlreadyRegistered);
        }
        let address_id = ids::address_id(self.collect_coins_contract.chain, &evm_address);
        let addr_i = match find_index(&self.addresses, 0, &address_id) {
            Some(i) => i,
            None => {
                return Err(Error::NonExistentAddress);
            },
        };
        if !util::bytes_eq(&self.addresses[addr_i].address.owner, &who) {
            return Err(Error::NotAddressOwner);
        }
        let task = PendingTask { deadline, task_id: util::copy_bytes(&id) };
        proof {
            lemma_find_push(self.pending_tasks@, task, deadline, task.task_id@);
        }
        self.pending_tasks.push(task);
        self.events.push(Event::CollectCoinsRegistered { collected_coins_id: id });
        Ok(())
    }

    /// An authority commits a successful verification: the verified entity
    /// is stored (and, for coin collections, the amount minted to the
    /// receiving address's owner), the task leaves the pending index, and a
    /// success event is logged.  A second commitment of the same id fails.
    pub fn persist_task_output(
        &mut self,
        who: AccountId,
        deadline: u64,
        output: TaskOutput,
        block: u64,
    ) -> (r: Result<(), Error>)
        ensures
            r == persist_task_output_outcome(*old(self), who@, output),
            r is Err ==> *final(self) == *old(self),
            r is Ok ==> (output matches TaskOutput::VerifyTransfer { id, transfer } ==> {
                let s = final(self).transfers@;
                let e = s.last();
                &&& s == old(self).transfers@.push(e)
                &&& e.id@ == id@
                &&& (e.transfer == Transfer { block: block, ..transfer })
                &&& find_entry(s, 0, id@) == Some(e)
                &&& final(self).collected_coins == old(self).collected_coins
                &&& final(self).balances == old(self).balances
                &&& final(self).pending_tasks@ == drop_key(
                    old(self).pending_tasks@,
                    deadline,
                    id@,
                )
                &&& !final(self).is_scheduled_s(deadline, id@)
                &&& (forall|d2: u64, h2: Seq<u8>|
                    !(d2 == deadline && h2 == id@) ==> #[trigger] find_entry(
                        final(self).pending_tasks@,
                        d2,
                        h2,
                    ) == find_entry(old(self).pending_tasks@, d2, h2))
                &&& {
                    let ev = final(self).events@;
                    &&& ev == old(self).events@.push(ev.last())
                    &&& (ev.last() matches Event::TransferVerified { transfer_id: t } && t@
                        == id@)
                }
            }),
            r is Ok ==> (output matches TaskOutput::CollectCoins { id, coins } ==> {
                let s = final(self).collected_coins@;
                let e = s.last();
                let owner = find_entry(
                    old(self).addresses@,
                    0,
                    coins.to@,
                ).unwrap().address.owner@;
                &&& s == old(self).collected_coins@.push(e)
                &&& e.id@ == id@
                &&& e.coins == coins
                &&& find_entry(s, 0, id@) == Some(e)
                &&& final(self).transfers == old(self).transfers
                &&& final(self).balance_s(owner) == old(self).balance_s(owner) + coins.amount
                &&& (forall|a2: Seq<u8>|
                    a2 != owner ==> #[trigger] final(self).balance_s(a2) == old(self).balance_s(
                        a2,
                    ))
                &&& final(self).pending_tasks@ == drop_key(
                    old(self).pending_tasks@,
                    deadline,
                    id@,
                )
                &&& !final(self).is_scheduled_s(deadline, id@)
                &&& (forall|d2: u64, h2: Seq<u8>|
                    !(d2 == deadline && h2 == id@) ==> #[trigger] find_entry(
                        final(self).pending_tasks@,
                        d2,
                        h2,
                    ) == find_entry(old(self).pending_tasks@, d2, h2))
                &&& {
                    let ev = final(self).events@;
                    &&& ev == old(self).events@.push(ev.last())
                    &&& (ev.last() matches Event::CollectedCoinsMinted { collected_coins_id: x }
                        && x@ == id@)
                }
            }),
            final(self).addresses == old(self).addresses,
            final(self).ask_orders == old(self).ask_orders,
            final(self).bid_orders == old(self).bid_orders,
            final(self).offers == old(self).offers,
            final(self).deal_orders == old(self).deal_orders,
            final(self).used_guids == old(self).used_guids,
            final(self).authorities == old(self).authorities,
            final(self).collect_coins_contract == old(self).collect_coins_contract,
    {
        if !self.is_authority(&who) {
            return Err(Error::InsufficientAuthority);
        }
        match output {
            TaskOutput::VerifyTransfer { id, transfer } => {
                if find_index(&self.transfers, 0, &id).is_some() {
                    return Err(Error::TransferAlreadyRegistered);
                }
                let entry = TransferEntry {
                    id: util::copy_bytes(&id),
                    transfer: Transfer { block, ..transfer },
                };
                proof {
                    lemma_find_push(self.transfers@, entry, 0, entry.id@);
                }
                self.transfers.push(entry);
                let ghost pending_pre = self.pending_tasks@;
                crate::ledger::retain_drop_key(&mut self.pending_tasks, deadline, &id);
                proof {
                    lemma_drop_key_find(pending_pre, deadline, id@, deadline, id@);
                    assert forall|d2: u64, h2: Seq<u8>| !(d2 == deadline && h2 == id@)
                        implies #[trigger] find_entry(self.pending_tasks@, d2, h2) == find_entry(
                        pending_pre,
                        d2,
                        h2,
                    ) by {
                        lemma_drop_key_find(pending_pre, deadline, id@, d2, h2);
                    }
                }
                self.events.push(Event::TransferVerified { transfer_id: id });
                Ok(())
            },
            TaskOutput::CollectCoins { id, coins } => {
                if find_index(&self.collected_coins, 0, &id).is_some() {
                    return Err(Error::CollectCoinsAlreadyRegistered);
                }
                let addr_i = match find_index(&self.addresses, 0, &coins.to) {
                    Some(i) => i,
                    None => {
                        return Err(Error::NonExistentAddress);
                    },
                };
                let owner = util::copy_bytes(&self.addresses[addr_i].address.owner);
                match find_index(&self.balances, 0, &owner) {
                    Some(b_i) => {
                        let current = self.balances[b_i].amount;
                        if coins.amount > u128::MAX - current {
                            return Err(Error::BalanceOverflow);
                        }
                        self.balances[b_i].amount = current + coins.amount;
                        proof {
                            lemma_find_update_same(
                                old(self).balances@,
                                b_i as int,
                                self.balances@[b_i as int],
                            );
                            assert forall|a2: Seq<u8>| a2 != owner@ implies #[trigger] find_entry(
                                self.balances@,
                                0,
                                a2,
                            ) == find_entry(old(self).balances@, 0, a2) by {
                                lemma_find_update_diff(
                                    old(self).balances@,
                                    b_i as int,
                                    self.balances@[b_i as int],
                                    0,
                                    a2,
                                );
                            }
                        }
                    },
                    None => {
                        let b = BalanceEntry { account: owner, amount: coins.amount };
                        proof {
                            lemma_find_push(self.balances@, b, 0, b.account@);
                            assert forall|a2: Seq<u8>| a2 != b.account@ implies #[trigger]
                                find_entry(self.balances@.push(b), 0, a2) == find_entry(
                                self.balances@,
                                0,
                                a2,
                            ) by {
                                lemma_find_push(self.balances@, b, 0, a2);
                            }
                        }
                        self.balances.push(b);
                    },
                }
                let entry = CollectedCoinsEntry { id: util::copy_bytes(&id), coins };
                proof {
                    lemma_find_push(self.collected_coins@, entry, 0, entry.id@);
                }
                self.collected_coins.push(entry);
                let ghost pending_pre = self.pending_tasks@;
                crate::ledger::retain_drop_key(&mut self.pending_tasks, deadline, &id);
                proof {
                    lemma_drop_key_find(pending_pre, deadline, id@, deadline, id@);
                    assert forall|d2: u64, h2: Seq<u8>| !(d2 == deadline && h2 == id@)
                        implies #[trigger] find_entry(self.pending_tasks@, d2, h2) == find_entry(
                        pending_pre,
                        d2,
                        h2,
                    ) by {
                        lemma_drop_key_find(pending_pre, deadline, id@, d2, h2);
                    }
                }
                self.events.push(Event::CollectedCoinsMinted { collected_coins_id: id });
                Ok(())
            },
        }
    }

    /// An authority reports that verification failed.  Nothing is stored:
    /// the task leaves the pending index and the cause is logged, so a
    /// rejected claim is permanently recorded rather than silently dropped.
    pub fn fail_task(
        &mut self,
        who: AccountId,
        deadline: u64,
        task_id: TaskId,
        cause: VerificationFailureCause,
    ) -> (r: Result<(), Error>)
        ensures
            r == fail_task_outcome(*old(self), who@, task_id),
            r is Err ==> *final(self) == *old(self),
            r is Ok ==> {
                let inner = match task_id {
                    TaskId::VerifyTransfer { id } => id@,
                    TaskId::CollectCoins { id } => id@,
                };
                &&& final(self).pending_tasks@ == drop_key(
                    old(self).pending_tasks@,
                    deadline,
                    inner,
                )
                &&& !final(self).is_scheduled_s(deadline, inner)
                &&& (forall|d2: u64, h2: Seq<u8>|
                    !(d2 == deadline && h2 == inner) ==> #[trigger] find_entry(
                        final(self).pending_tasks@,
                        d2,
                        h2,
                    ) == find_entry(old(self).pending_tasks@, d2, h2))
                &&& {
                    let ev = final(self).events@;
                    &&& ev == old(self).events@.push(ev.last())
                    &&& (task_id matches TaskId::VerifyTransfer { id } ==> (ev.last()
                        matches Event::TransferFailedVerification { transfer_id: t, cause: c }
                        && t@ == id@ && c == cause))
                    &&& (task_id matches TaskId::CollectCoins { id } ==> (ev.last()
                        matches Event::CollectCoinsFailedVerification {
                        collected_coins_id: t,
                        cause: c,
                    } && t@ == id@ && c == cause))
                }
            },
            final(self).addresses == old(self).addresses,
            final(self).ask_orders == old(self).ask_orders,
            final(self).bid_orders == old(self).bid_orders,
            final(self).offers == old(self).offers,
            final(self).deal_orders == old(self).deal_orders,
            final(self).transfers == old(self).transfers,
            final(self).collected_coins == old(self).collected_coins,
            final(self).used_guids == old(self).used_guids,
            final(self).authorities == old(self).authorities,
            final(self).collect_coins_contract == old(self).collect_coins_contract,
            final(self).balances == old(self).balances,
    {
        if !self.is_authority(&who) {
            return Err(Error::InsufficientAuthority);
        }
        match task_id {
            TaskId::VerifyTransfer { id } => {
                if find_index(&self.transfers, 0, &id).is_some() {
                    return Err(Error::TransferAlreadyRegistered);
                }
                let ghost pending_pre = self.pending_tasks@;
                crate::ledger::retain_drop_key(&mut self.pending_tasks, deadline, &id);
                proof {
                    lemma_drop_key_find(pending_pre, deadline, id@, deadline, id@);
                    assert forall|d2: u64, h2: Seq<u8>| !(d2 == deadline && h2 == id@)
                        implies #[trigger] find_entry(self.pending_tasks@, d2, h2) == find_entry(
                        pending_pre,
                        d2,
                        h2,
                    ) by {
                        lemma_drop_key_find(pending_pre, deadline, id@, d2, h2);
                    }
                }
                self.events.push(
                    Event::TransferFailedVerification { transfer_id: id, cause },
                );
                Ok(())
            },
            TaskId::CollectCoins { id } => {
                if find_index(&self.collected_coins, 0, &id).is_some() {
                    return Err(Error::CollectCoinsAlreadyRegistered);
                }
                let ghost pending_pre = self.pending_tasks@;
                crate::ledger::retain_drop_key(&mut self.pending_tasks, deadline, &id);
                proof {
                    lemma_drop_key_find(pending_pre, deadline, id@, deadline, id@);
                    assert forall|d2: u64, h2: Seq<u8>| !(d2 == deadline && h2 == id@)
                        implies #[trigger] find_entry(self.pending_tasks@, d2, h2) == find_entry(
                        pending_pre,
                        d2,
                        h2,
                    ) by {
                        lemma_drop_key_find(pending_pre, deadline, id@, d2, h2);
                    }
                }
                self.events.push(
                    Event::CollectCoinsFailedVerification { collected_coins_id: id, cause },
                );
                Ok(())
            },
        }
    }

    /// Grants an account the right to commit task outcomes.  The caller is
    /// the chain's privileged origin; that gate lies outside the ledger.
    pub fn add_authority(&mut self, account: AccountId) -> (r: Result<(), Error>)
        ensures
            r == if old(self).is_authority_s(account@) {
                Err::<(), Error>(Error::AlreadyAuthority)
            } else {
                Ok::<(), Error>(())
            },
            r is Err ==> *final(self) == *old(self),
            r is Ok ==> final(self).is_authority_s(account@),
            r is Ok ==> final(self).authorities@ == old(self).authorities@.push(
                final(self).authorities@.last(),
            ) && final(self).authorities@.last().account@ == account@,
            final(self).addresses == old(self).addresses,
            final(self).ask_orders == old(self).ask_orders,
            final(self).bid_orders == old(self).bid_orders,
            final(self).offers == old(self).offers,
            final(self).deal_orders == old(self).deal_orders,
            final(self).transfers == old(self).transfers,
            final(self).collected_coins == old(self).collected_coins,
            final(self).used_guids == old(self).used_guids,
            final(self).pending_tasks == old(self).pending_tasks,
            final(self).collect_coins_contract == old(self).collect_coins_contract,
            final(self).balances == old(self).balances,
            final(self).events == old(self).events,
    {
        if self.is_authority(&account) {
            return Err(Error::AlreadyAuthority);
        }
        let a = Authority { account };
        proof {
            lemma_find_push(self.authorities@, a, 0, a.account@);
        }
        self.authorities.push(a);
        Ok(())
    }

    /// Revokes an account's right to commit task outcomes.
    pub fn remove_authority(&mut self, account: AccountId) -> (r: Result<(), Error>)
        ensures
            r == if old(self).is_authority_s(account@) {
                Ok::<(), Error>(())
            } else {
                Err::<(), Error>(Error::NotAnAuthority)
            },
            r is Err ==> *final(self) == *old(self),
            r is Ok ==> !final(self).is_authority_s(account@),
            r is Ok ==> (forall|a2: Seq<u8>|
                a2 != account@ ==> #[trigger] final(self).is_authority_s(a2) == old(
                    self,
                ).is_authority_s(a2)),
            final(self).addresses == old(self).addresses,
            final(self).ask_orders == old(self).ask_orders,
            final(self).bid_orders == old(self).bid_orders,
            final(self).offers == old(self).offers,
            final(self).deal_orders == old(self).deal_orders,
            final(self).transfers == old(self).transfers,
            final(self).collected_coins == old(self).collected_coins,
            final(self).used_guids == old(self).used_guids,
            final(self).pending_tasks == old(self).pending_tasks,
            final(self).collect_coins_contract == old(self).collect_coins_contract,
            final(self).balances == old(self).balances,
            final(self).events == old(self).events,
    {
        if !self.is_authority(&account) {
            return Err(Error::NotAnAuthority);
        }
        let ghost pre = self.authorities@;
        crate::ledger::retain_drop_key(&mut self.authorities, 0, &account);
        proof {
            lemma_drop_key_find(pre, 0, account@, 0, account@);
            assert forall|a2: Seq<u8>| a2 != account@ implies #[trigger] find_entry(
                self.authorities@,
                0,
                a2,
            ) == find_entry(pre, 0, a2) by {
                lemma_drop_key_find(pre, 0, account@, 0, a2);
            }
        }
        Ok(())
    }

    /// Replaces the trusted collection contract; callable only by the
    /// chain's privileged origin, which lies outside the ledger.
    pub fn set_collect_coins_contract(&mut self, contract: CollectCoinsContract)
        ensures
            final(self).collect_coins_contract == contract,
            final(self).addresses == old(self).addresses,
            final(self).ask_orders == old(self).ask_orders,
            final(self).bid_orders == old(self).bid_orders,
            final(self).offers == old(self).offers,
            final(self).deal_orders == old(self).deal_orders,
            final(self).transfers == old(self).transfers,
            final(self).collected_coins == old(self).collected_coins,
            final(self).used_guids == old(self).used_guids,
            final(self).authorities == old(self).authorities,
            final(self).pending_tasks == old(self).pending_tasks,
            final(self).balances == old(self).balances,
            final(self).events == old(self).events,
    {
        self.collect_coins_contract = contract;
    }
}

} // verus!
