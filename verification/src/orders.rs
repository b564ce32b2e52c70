//! The order book: asks, bids, offers, and the creation of deal orders.

use vstd::prelude::*;

use crate::ids;
use crate::ledger::{
    find_entry, find_index, lemma_find_push, AskEntry, BidEntry, DealEntry, Ledger, OfferEntry,
    UsedGuid,
};
use crate::types::{
    terms_match, AccountId, AskOrder, AskOrderId, BidOrder, BidOrderId, DealOrder, DealOrderId,
    DealState, Error, Event, Guid, LoanTerms, Offer, OfferId,
};
use crate::util;

verus! {

/// What `add_ask_order` returns, as a function of the pre-state and the
/// arguments; checks are made in this order, first failure wins.
pub open spec fn add_ask_order_outcome(
    l: Ledger,
    who: Seq<u8>,
    address_id: Seq<u8>,
    terms: LoanTerms,
    expiration_block: u64,
    guid: Seq<u8>,
    block: u64,
) -> Result<(), Error> {
    if expiration_block < block {
        Err(Error::AskOrderExpired)
    } else if find_entry(
        l.ask_orders@,
        expiration_block,
        ids::ask_order_hash_of(expiration_block, guid),
    ) is Some {
        Err(Error::DuplicateId)
    } else {
        match find_entry(l.addresses@, 0, address_id) {
            None => Err(Error::NonExistentAddress),
            Some(entry) => {
                if entry.address.owner@ != who {
                    Err(Error::NotAddressOwner)
                } else if l.guid_used_s(guid) {
                    Err(Error::GuidAlreadyUsed)
                } else if !terms.valid() {
                    Err(Error::InvalidTermLength)
                } else {
                    Ok(())
                }
            },
        }
    }
}

/// What `add_bid_order` returns; symmetric to `add_ask_order_outcome`.
pub open spec fn add_bid_order_outcome(
    l: Ledger,
    who: Seq<u8>,
    address_id: Seq<u8>,
    terms: LoanTerms,
    expiration_block: u64,
    guid: Seq<u8>,
    block: u64,
) -> Result<(), Error> {
    if expiration_block < block {
        Err(Error::BidOrderExpired)
    } else if find_entry(
        l.bid_orders@,
        expiration_block,
        ids::bid_order_hash_of(expiration_block, guid),
    ) is Some {
        Err(Error::DuplicateId)
    } else {
        match find_entry(l.addresses@, 0, address_id) {
            None => Err(Error::NonExistentAddress),
            Some(entry) => {
                if entry.address.owner@ != who {
                    Err(Error::NotAddressOwner)
                } else if l.guid_used_s(guid) {
                    Err(Error::GuidAlreadyUsed)
                } else if !terms.valid() {
                    Err(Error::InvalidTermLength)
                } else {
                    Ok(())
                }
            },
        }
    }
}

/// What `add_offer` returns, as a function of the pre-state and arguments.
pub open spec fn add_offer_outcome(
    l: Ledger,
    who: Seq<u8>,
    ask_id: AskOrderId,
    bid_id: BidOrderId,
    expiration_block: u64,
    block: u64,
) -> Result<(), Error> {
    match find_entry(l.ask_orders@, ask_id.expiration_block, ask_id.hash@) {
        None => Err(Error::NonExistentAskOrder),
        Some(ask) => {
            if ask.order.lender@ != who {
                Err(Error::NotLender)
            } else if ask.order.expiration_block < block {
                Err(Error::AskOrderExpired)
            } else {
                match find_entry(l.bid_orders@, bid_id.expiration_block, bid_id.hash@) {
                    None => Err(Error::NonExistentBidOrder),
                    Some(bid) => {
                        if bid.order.borrower@ == who {
                            Err(Error::SameOwner)
                        } else if bid.order.expiration_block < block {
                            Err(Error::BidOrderExpired)
                        } else if ask.order.blockchain != bid.order.blockchain {
                            Err(Error::AddressBlockchainMismatch)
                        } else if !terms_match(ask.order.terms, bid.order.terms) {
                            Err(Error::AskBidMismatch)
                        } else if find_entry(
                            l.offers@,
                            expiration_block,
                            ids::offer_hash_of(
                                expiration_block,
                                ask_id.expiration_block,
                                ask_id.hash@,
                                bid_id.expiration_block,
                                bid_id.hash@,
                            ),
                        ) is Some {
                            Err(Error::DuplicateOffer)
                        } else {
                            Ok(())
                        }
                    },
                }
            }
        },
    }
}

/// What `add_deal_order` returns, as a function of the pre-state and
/// arguments.
pub open spec fn add_deal_order_outcome(
    l: Ledger,
    who: Seq<u8>,
    offer_id: OfferId,
    expiration_block: u64,
    block: u64,
) -> Result<(), Error> {
    if find_entry(
        l.deal_orders@,
        expiration_block,
        ids::deal_order_hash_of(expiration_block, offer_id.expiration_block, offer_id.hash@),
    ) is Some {
        Err(Error::DuplicateDealOrder)
    } else {
        match find_entry(l.offers@, offer_id.expiration_block, offer_id.hash@) {
            None => Err(Error::NonExistentOffer),
            Some(offer) => {
                if offer.offer.expiration_block < block {
                    Err(Error::OfferExpired)
                } else {
                    match find_entry(
                        l.ask_orders@,
                        offer.offer.ask_id.expiration_block,
                        offer.offer.ask_id.hash@,
                    ) {
                        None => Err(Error::NonExistentAskOrder),
                        Some(ask) => {
                            match find_entry(
                                l.bid_orders@,
                                offer.offer.bid_id.expiration_block,
                                offer.offer.bid_id.hash@,
                            ) {
                                None => Err(Error::NonExistentBidOrder),
                                Some(bid) => {
                                    if bid.order.borrower@ != who {
                                        Err(Error::NotBorrower)
                                    } else if !terms_match(ask.order.terms, bid.order.terms) {
                                        Err(Error::AskBidMismatch)
                                    } else {
                                        Ok(())
                                    }
                                },
                            }
                        },
                    }
                }
            },
        }
    }
}


/// The message the borrower signs to authorize `register_deal_order`: the
/// canonical encoding of `(expiration_block, ask_guid, bid_guid, terms)`.
pub open spec fn deal_order_message_of(
    expiration_block: u64,
    ask_guid: Seq<u8>,
    bid_guid: Seq<u8>,
    terms: LoanTerms,
) -> Seq<u8> {
    crate::encode::enc_u64_s(expiration_block) + crate::encode::enc_bytes_s(ask_guid)
        + crate::encode::enc_bytes_s(bid_guid) + crate::encode::enc_terms_s(terms)
}

/// Builds the borrower's message executably.
pub fn deal_order_message(
    expiration_block: u64,
    ask_guid: &Guid,
    bid_guid: &Guid,
    terms: &LoanTerms,
) -> (r: Vec<u8>)
    ensures
        r@ == deal_order_message_of(expiration_block, ask_guid@, bid_guid@, *terms),
{
    let mut buf: Vec<u8> = Vec::new();
    crate::encode::enc_u64(expiration_block, &mut buf);
    crate::encode::enc_bytes(ask_guid, &mut buf);
    crate::encode::enc_bytes(bid_guid, &mut buf);
    crate::encode::enc_terms(terms, &mut buf);
    assert(buf@ =~= deal_order_message_of(expiration_block, ask_guid@, bid_guid@, *terms));
    buf
}

/// What `register_deal_order` returns, as a function of the pre-state.
pub open spec fn register_deal_order_outcome(
    l: Ledger,
    who: Seq<u8>,
    lender_address_id: Seq<u8>,
    borrower_address_id: Seq<u8>,
    terms: LoanTerms,
    expiration_block: u64,
    ask_guid: Seq<u8>,
    bid_guid: Seq<u8>,
    borrower_key: Seq<u8>,
    borrower_signature: Seq<u8>,
) -> Result<(), Error> {
    if borrower_key.len() != 33 || borrower_signature.len() != 65 {
        Err(Error::InvalidSignature)
    } else if !crate::crypto::ecdsa_verifies(
        borrower_signature,
        deal_order_message_of(expiration_block, ask_guid, bid_guid, terms),
        borrower_key,
    ) {
        Err(Error::InvalidSignature)
    } else {
        let borrower_account = crate::hashing::blake2_of(borrower_key);
        match find_entry(l.addresses@, 0, borrower_address_id) {
            None => Err(Error::NonExistentAddress),
            Some(be) => {
                if be.address.owner@ != borrower_account {
                    Err(Error::NotAddressOwner)
                } else {
                    match find_entry(l.addresses@, 0, lender_address_id) {
                        None => Err(Error::NonExistentAddress),
                        Some(le) => {
                            if le.address.owner@ != who {
                                Err(Error::NotAddressOwner)
                            } else if le.address.blockchain != be.address.blockchain {
                                Err(Error::AddressBlockchainMismatch)
                            } else {
                                let ask_h = ids::ask_order_hash_of(expiration_block, ask_guid);
                                let bid_h = ids::bid_order_hash_of(expiration_block, bid_guid);
                                let offer_h = ids::offer_hash_of(
                                    expiration_block,
                                    expiration_block,
                                    ask_h,
                                    expiration_block,
                                    bid_h,
                                );
                                let deal_h = ids::deal_order_hash_of(
                                    expiration_block,
                                    expiration_block,
                                    offer_h,
                                );
                                if find_entry(l.ask_orders@, expiration_block, ask_h) is Some {
                                    Err(Error::DuplicateId)
                                } else if find_entry(
                                    l.bid_orders@,
                                    expiration_block,
                                    bid_h,
                                ) is Some {
                                    Err(Error::DuplicateId)
                                } else if find_entry(
                                    l.offers@,
                                    expiration_block,
                                    offer_h,
                                ) is Some {
                                    Err(Error::DuplicateOffer)
                                } else if find_entry(
                                    l.deal_orders@,
                                    expiration_block,
                                    deal_h,
                                ) is Some {
                                    Err(Error::DuplicateDealOrder)
                                } else if !terms.valid() {
                                    Err(Error::InvalidTermLength)
                                } else {
                                    Ok(())
                                }
                            }
                        },
                    }
                }
            },
        }
    }
}

impl Ledger {

    /// A prospective lender posts an ask order.  On success the order is
    /// stored under `(expiration_block, hash)`, the guid is consumed for
    /// ever, and an `AskOrderAdded` event is logged; on failure nothing
    /// changes.
    pub fn add_ask_order(
        &mut self,
        who: AccountId,
        address_id: Vec<u8>,
        terms: LoanTerms,
        expiration_block: u64,
        guid: Guid,
        block: u64,
    ) -> (r: Result<(), Error>)
        ensures
            r == add_ask_order_outcome(
                *old(self),
                who@,
                address_id@,
                terms,
                expiration_block,
                guid@,
                block,
            ),
            r is Err ==> *final(self) == *old(self),
            r is Ok ==> {
                let s = final(self).ask_orders@;
                let e = s.last();
                &&& s == old(self).ask_orders@.push(e)
                &&& e.expiration_block == expiration_block
                &&& e.hash@ == ids::ask_order_hash_of(expiration_block, guid@)
                &&& e.order.blockchain == find_entry(
                    old(self).addresses@,
                    0,
                    address_id@,
                ).unwrap().address.blockchain
                &&& e.order.lender_address_id@ == address_id@
                &&& e.order.terms == terms
                &&& e.order.expiration_block == expiration_block
                &&& e.order.block == block
                &&& e.order.lender@ == who@
                &&& find_entry(s, expiration_block, e.hash@) == Some(e)
            },
            r is Ok ==> {
                let g = final(self).used_guids@;
                &&& g == old(self).used_guids@.push(g.last())
                &&& g.last().guid@ == guid@
                &&& final(self).guid_used_s(guid@)
            },
            r is Ok ==> {
                let ev = final(self).events@;
                &&& ev == old(self).events@.push(ev.last())
                &&& (ev.last() matches Event::AskOrderAdded { expiration_block: xe, hash: xh }
                    && xe == expiration_block && xh@ == ids::ask_order_hash_of(
                    expiration_block,
                    guid@,
                ))
            },
            final(self).addresses == old(self).addresses,
            final(self).bid_orders == old(self).bid_orders,
            final(self).offers == old(self).offers,
            final(self).deal_orders == old(self).deal_orders,
            final(self).transfers == old(self).transfers,
            final(self).collected_coins == old(self).collected_coins,
            final(self).authorities == old(self).authorities,
            final(self).pending_tasks == old(self).pending_tasks,
            final(self).collect_coins_contract == old(self).collect_coins_contract,
            final(self).balances == old(self).balances,
    {
        let hash = ids::ask_order_hash(expiration_block, &guid);
        if expiration_block < block {
            return Err(Error::AskOrderExpired);
        }
        if find_index(&self.ask_orders, expiration_block, &hash).is_some() {
            return Err(Error::DuplicateId);
        }
        let addr_i = match find_index(&self.addresses, 0, &address_id) {
            Some(i) => i,
            None => {
                return Err(Error::NonExistentAddress);
            },
        };
        if !util::bytes_eq(&self.addresses[addr_i].address.owner, &who) {
            return Err(Error::NotAddressOwner);
        }
        if self.guid_used(&guid) {
            return Err(Error::GuidAlreadyUsed);
        }
        if terms.term_length.secs == 0 && terms.term_length.nanos == 0 {
            return Err(Error::InvalidTermLength);
        }
        let blockchain = self.addresses[addr_i].address.blockchain;
        let entry = AskEntry {
            expiration_block,
            hash: util::copy_bytes(&hash),
            order: AskOrder {
                blockchain,
                lender_address_id: address_id,
                terms,
                expiration_block,
                block,
                lender: who,
            },
        };
        proof {
            lemma_find_push(self.ask_orders@, entry, expiration_block, entry.hash@);
        }
        self.ask_orders.push(entry);
        let guid_entry = UsedGuid { guid };
        proof {
            lemma_find_push(self.used_guids@, guid_entry, 0, guid_entry.guid@);
        }
        self.used_guids.push(guid_entry);
        self.events.push(Event::AskOrderAdded { expiration_block, hash });
        Ok(())
    }

    /// A prospective borrower posts a bid order; the mirror image of
    /// `add_ask_order`.
    pub fn add_bid_order(
        &mut self,
        who: AccountId,
        address_id: Vec<u8>,
        terms: LoanTerms,
        expiration_block: u64,
        guid: Guid,
        block: u64,
    ) -> (r: Result<(), Error>)
        ensures
            r == add_bid_order_outcome(
                *old(self),
                who@,
                address_id@,
                terms,
                expiration_block,
                guid@,
                block,
            ),
            r is Err ==> *final(self) == *old(self),
            r is Ok ==> {
                let s = final(self).bid_orders@;
                let e = s.last();
                &&& s == old(self).bid_orders@.push(e)
                &&& e.expiration_block == expiration_block
                &&& e.hash@ == ids::bid_order_hash_of(expiration_block, guid@)
                &&& e.order.blockchain == find_entry(
                    old(self).addresses@,
                    0,
                    address_id@,
                ).unwrap().address.blockchain
                &&& e.order.borrower_address_id@ == address_id@
                &&& e.order.terms == terms
                &&& e.order.expiration_block == expiration_block
                &&& e.order.block == block
                &&& e.order.borrower@ == who@
                &&& find_entry(s, expiration_block, e.hash@) == Some(e)
            },
            r is Ok ==> {
                let g = final(self).used_guids@;
                &&& g == old(self).used_guids@.push(g.last())
                &&& g.last().guid@ == guid@
                &&& final(self).guid_used_s(guid@)
            },
            r is Ok ==> {
                let ev = final(self).events@;
                &&& ev == old(self).events@.push(ev.last())
                &&& (ev.last() matches Event::BidOrderAdded { expiration_block: xe, hash: xh }
                    && xe == expiration_block && xh@ == ids::bid_order_hash_of(
                    expiration_block,
                    guid@,
                ))
            },
            final(self).addresses == old(self).addresses,
            final(self).ask_orders == old(self).ask_orders,
            final(self).offers == old(self).offers,
            final(self).deal_orders == old(self).deal_orders,
            final(self).transfers == old(self).transfers,
            final(self).collected_coins == old(self).collected_coins,
            final(self).authorities == old(self).authorities,
            final(self).pending_tasks == old(self).pending_tasks,
            final(self).collect_coins_contract == old(self).collect_coins_contract,
            final(self).balances == old(self).balances,
    {
        let hash = ids::bid_order_hash(expiration_block, &guid);
        if expiration_block < block {
            return Err(Error::BidOrderExpired);
        }
        if find_index(&self.bid_orders, expiration_block, &hash).is_some() {
            return Err(Error::DuplicateId);
        }
        let addr_i = match find_index(&self.addresses, 0, &address_id) {
            Some(i) => i,
            None => {
                return Err(Error::NonExistentAddress);
            },
        };
        if !util::bytes_eq(&self.addresses[addr_i].address.owner, &who) {
            return Err(Error::NotAddressOwner);
        }
        if self.guid_used(&guid) {
            return Err(Error::GuidAlreadyUsed);
        }
        if terms.term_length.secs == 0 && terms.term_length.nanos == 0 {
            return Err(Error::InvalidTermLength);
        }
        let blockchain = self.addresses[addr_i].address.blockchain;
        let entry = BidEntry {
            expiration_block,
            hash: util::copy_bytes(&hash),
            order: BidOrder {
                blockchain,
                borrower_address_id: address_id,
                terms,
                expiration_block,
                block,
                borrower: who,
            },
        };
        proof {
            lemma_find_push(self.bid_orders@, entry, expiration_block, entry.hash@);
        }
        self.bid_orders.push(entry);
        let guid_entry = UsedGuid { guid };
        proof {
            lemma_find_push(self.used_guids@, guid_entry, 0, guid_entry.guid@);
        }
        self.used_guids.push(guid_entry);
        self.events.push(Event::BidOrderAdded { expiration_block, hash });
        Ok(())
    }

    /// A lender offers a loan to the owner of a matched bid.  Requires the
    /// caller to own the ask, both orders to be unexpired and on one chain,
    /// and the terms to match.
    pub fn add_offer(
        &mut self,
        who: AccountId,
        ask_order_id: AskOrderId,
        bid_order_id: BidOrderId,
        expiration_block: u64,
        block: u64,
    ) -> (r: Result<(), Error>)
        ensures
            r == add_offer_outcome(
                *old(self),
                who@,
                ask_order_id,
                bid_order_id,
                expiration_block,
                block,
            ),
            r is Err ==> *final(self) == *old(self),
            r is Ok ==> {
                let s = final(self).offers@;
                let e = s.last();
                &&& s == old(self).offers@.push(e)
                &&& e.expiration_block == expiration_block
                &&& e.hash@ == ids::offer_hash_of(
                    expiration_block,
                    ask_order_id.expiration_block,
                    ask_order_id.hash@,
                    bid_order_id.expiration_block,
                    bid_order_id.hash@,
                )
                &&& e.offer.ask_id == ask_order_id
                &&& e.offer.bid_id == bid_order_id
                &&& e.offer.blockchain == find_entry(
                    old(self).ask_orders@,
                    ask_order_id.expiration_block,
                    ask_order_id.hash@,
                ).unwrap().order.blockchain
                &&& e.offer.expiration_block == expiration_block
                &&& e.offer.block == block
                &&& e.offer.lender@ == who@
                &&& find_entry(s, expiration_block, e.hash@) == Some(e)
            },
            r is Ok ==> {
                let ev = final(self).events@;
                &&& ev == old(self).events@.push(ev.last())
                &&& (ev.last() matches Event::OfferAdded { expiration_block: xe, hash: xh } && xe
                    == expiration_block && xh@ == ids::offer_hash_of(
                    expiration_block,
                    ask_order_id.expiration_block,
                    ask_order_id.hash@,
                    bid_order_id.expiration_block,
                    bid_order_id.hash@,
                ))
            },
            final(self).addresses == old(self).addresses,
            final(self).ask_orders == old(self).ask_orders,
            final(self).bid_orders == old(self).bid_orders,
            final(self).deal_orders == old(self).deal_orders,
            final(self).transfers == old(self).transfers,
            final(self).collected_coins == old(self).collected_coins,
            final(self).used_guids == old(self).used_guids,
            final(self).authorities == old(self).authorities,
            final(self).pending_tasks == old(self).pending_tasks,
            final(self).collect_coins_contract == old(self).collect_coins_contract,
            final(self).balances == old(self).balances,
    {
        let ask_i = match find_index(
            &self.ask_orders,
            ask_order_id.expiration_block,
            &ask_order_id.hash,
        ) {
            Some(i) => i,
            None => {
                return Err(Error::NonExistentAskOrder);
            },
        };
        if !util::bytes_eq(&self.ask_orders[ask_i].order.lender, &who) {
            return Err(Error::NotLender);
        }
        if self.ask_orders[ask_i].order.expiration_block < block {
            return Err(Error::AskOrderExpired);
        }
        let bid_i = match find_index(
            &self.bid_orders,
            bid_order_id.expiration_block,
            &bid_order_id.hash,
        ) {
            Some(i) => i,
            None => {
                return Err(Error::NonExistentBidOrder);
            },
        };
        if util::bytes_eq(&self.bid_orders[bid_i].order.borrower, &who) {
            return Err(Error::SameOwner);
        }
        if self.bid_orders[bid_i].order.expiration_block < block {
            return Err(Error::BidOrderExpired);
        }
        if self.ask_orders[ask_i].order.blockchain != self.bid_orders[bid_i].order.blockchain {
            return Err(Error::AddressBlockchainMismatch);
        }
        if !crate::types::terms_match_exec(
            &self.ask_orders[ask_i].order.terms,
            &self.bid_orders[bid_i].order.terms,
        ) {
            return Err(Error::AskBidMismatch);
        }
        let hash = ids::offer_hash(
            expiration_block,
            ask_order_id.expiration_block,
            &ask_order_id.hash,
            bid_order_id.expiration_block,
            &bid_order_id.hash,
        );
        if find_index(&self.offers, expiration_block, &hash).is_some() {
            return Err(Error::DuplicateOffer);
        }
        let blockchain = self.ask_orders[ask_i].order.blockchain;
        let entry = OfferEntry {
            expiration_block,
            hash: util::copy_bytes(&hash),
            offer: Offer {
                ask_id: ask_order_id,
                bid_id: bid_order_id,
                blockchain,
                expiration_block,
                block,
                lender: who,
            },
        };
        proof {
            lemma_find_push(self.offers@, entry, expiration_block, entry.hash@);
        }
        self.offers.push(entry);
        self.events.push(Event::OfferAdded { expiration_block, hash });
        Ok(())
    }

    /// The borrower of a matched bid accepts an offer, creating a deal order
    /// in the `Open` state whose terms are the resolution of the matched ask
    /// and bid terms.
    pub fn add_deal_order(
        &mut self,
        who: AccountId,
        offer_id: OfferId,
        expiration_block: u64,
        block: u64,
        timestamp: u64,
    ) -> (r: Result<(), Error>)
        ensures
            r == add_deal_order_outcome(*old(self), who@, offer_id, expiration_block, block),
            r is Err ==> *final(self) == *old(self),
            r is Ok ==> {
                let s = final(self).deal_orders@;
                let e = s.last();
                let offer = find_entry(
                    old(self).offers@,
                    offer_id.expiration_block,
                    offer_id.hash@,
                ).unwrap();
                let ask = find_entry(
                    old(self).ask_orders@,
                    offer.offer.ask_id.expiration_block,
                    offer.offer.ask_id.hash@,
                ).unwrap();
                let bid = find_entry(
                    old(self).bid_orders@,
                    offer.offer.bid_id.expiration_block,
                    offer.offer.bid_id.hash@,
                ).unwrap();
                &&& s == old(self).deal_orders@.push(e)
                &&& e.expiration_block == expiration_block
                &&& e.hash@ == ids::deal_order_hash_of(
                    expiration_block,
                    offer_id.expiration_block,
                    offer_id.hash@,
                )
                &&& e.deal.blockchain == offer.offer.blockchain
                &&& e.deal.offer_id == offer_id
                &&& e.deal.lender_address_id@ == ask.order.lender_address_id@
                &&& e.deal.borrower_address_id@ == bid.order.borrower_address_id@
                &&& e.deal.terms == ask.order.terms
                &&& e.deal.expiration_block == expiration_block
                &&& e.deal.block == Some(block)
                &&& e.deal.timestamp == timestamp
                &&& e.deal.borrower@ == who@
                &&& e.deal.state is Open
                &&& find_entry(s, expiration_block, e.hash@) == Some(e)
            },
            r is Ok ==> {
                let ev = final(self).events@;
                &&& ev == old(self).events@.push(ev.last())
                &&& (ev.last() matches Event::DealOrderAdded { expiration_block: xe, hash: xh }
                    && xe == expiration_block && xh@ == ids::deal_order_hash_of(
                    expiration_block,
                    offer_id.expiration_block,
                    offer_id.hash@,
                ))
            },
            final(self).addresses == old(self).addresses,
            final(self).ask_orders == old(self).ask_orders,
            final(self).bid_orders == old(self).bid_orders,
            final(self).offers == old(self).offers,
            final(self).transfers == old(self).transfers,
            final(self).collected_coins == old(self).collected_coins,
            final(self).used_guids == old(self).used_guids,
            final(self).authorities == old(self).authorities,
            final(self).pending_tasks == old(self).pending_tasks,
            final(self).collect_coins_contract == old(self).collect_coins_contract,
            final(self).balances == old(self).balances,
    {
        let hash = ids::deal_order_hash(expiration_block, offer_id.expiration_block, &offer_id.hash);
        if find_index(&self.deal_orders, expiration_block, &hash).is_some() {
            return Err(Error::DuplicateDealOrder);
        }
        let offer_i = match find_index(
            &self.offers,
            offer_id.expiration_block,
            &offer_id.hash,
        ) {
            Some(i) => i,
            None => {
                return Err(Error::NonExistentOffer);
            },
        };
        if self.offers[offer_i].offer.expiration_block < block {
            return Err(Error::OfferExpired);
        }
        let ask_i = match find_index(
            &self.ask_orders,
            self.offers[offer_i].offer.ask_id.expiration_block,
            &self.offers[offer_i].offer.ask_id.hash,
        ) {
            Some(i) => i,
            None => {
                return Err(Error::NonExistentAskOrder);
            },
        };
        let bid_i = match find_index(
            &self.bid_orders,
            self.offers[offer_i].offer.bid_id.expiration_block,
            &self.offers[offer_i].offer.bid_id.hash,
        ) {
            Some(i) => i,
            None => {
                return Err(Error::NonExistentBidOrder);
            },
        };
        if !util::bytes_eq(&self.bid_orders[bid_i].order.borrower, &who) {
            return Err(Error::NotBorrower);
        }
        if !crate::types::terms_match_exec(
            &self.ask_orders[ask_i].order.terms,
            &self.bid_orders[bid_i].order.terms,
        ) {
            return Err(Error::AskBidMismatch);
        }
        let blockchain = self.offers[offer_i].offer.blockchain;
        let terms = self.ask_orders[ask_i].order.terms;
        let lender_address_id = util::copy_bytes(&self.ask_orders[ask_i].order.lender_address_id);
        let borrower_address_id = util::copy_bytes(
            &self.bid_orders[bid_i].order.borrower_address_id,
        );
        let entry = DealEntry {
            expiration_block,
            hash: util::copy_bytes(&hash),
            deal: DealOrder {
                blockchain,
                offer_id,
                lender_address_id,
                borrower_address_id,
                terms,
                expiration_block,
                block: Some(block),
                timestamp,
                borrower: who,
                state: DealState::Open,
            },
        };
        proof {
            lemma_find_push(self.deal_orders@, entry, expiration_block, entry.hash@);
        }
        self.deal_orders.push(entry);
        self.events.push(Event::DealOrderAdded { expiration_block, hash });
        Ok(())
    }

    /// A lender and a borrower, who has signed off out of band, create ask,
    /// bid, offer and deal in one atomic call.  The borrower's detached
    /// signature over `(expiration_block, ask_guid, bid_guid, terms)` must
    /// resolve to the borrower account that owns the borrower address; all
    /// four entities are created together or none are.
    pub fn register_deal_order(
        &mut self,
        who: AccountId,
        lender_address_id: Vec<u8>,
        borrower_address_id: Vec<u8>,
        terms: LoanTerms,
        expiration_block: u64,
        ask_guid: Guid,
        bid_guid: Guid,
        borrower_key: Vec<u8>,
        borrower_signature: Vec<u8>,
        block: u64,
        timestamp: u64,
    ) -> (r: Result<(), Error>)
        ensures
            r == register_deal_order_outcome(
                *old(self),
                who@,
                lender_address_id@,
                borrower_address_id@,
                terms,
                expiration_block,
                ask_guid@,
                bid_guid@,
                borrower_key@,
                borrower_signature@,
            ),
            r is Err ==> *final(self) == *old(self),
            r is Ok ==> {
                let ask_h = ids::ask_order_hash_of(expiration_block, ask_guid@);
                let bid_h = ids::bid_order_hash_of(expiration_block, bid_guid@);
                let offer_h = ids::offer_hash_of(
                    expiration_block,
                    expiration_block,
                    ask_h,
                    expiration_block,
                    bid_h,
                );
                let deal_h = ids::deal_order_hash_of(expiration_block, expiration_block, offer_h);
                let chain = find_entry(
                    old(self).addresses@,
                    0,
                    lender_address_id@,
                ).unwrap().address.blockchain;
                let borrower_account = crate::hashing::blake2_of(borrower_key@);
                let a = final(self).ask_orders@;
                let b = final(self).bid_orders@;
                let o = final(self).offers@;
                let d = final(self).deal_orders@;
                &&& a == old(self).ask_orders@.push(a.last())
                &&& a.last().expiration_block == expiration_block
                &&& a.last().hash@ == ask_h
                &&& a.last().order.blockchain == chain
                &&& a.last().order.lender_address_id@ == lender_address_id@
                &&& a.last().order.terms == terms
                &&& a.last().order.expiration_block == expiration_block
                &&& a.last().order.block == block
                &&& a.last().order.lender@ == who@
                &&& find_entry(a, expiration_block, ask_h) == Some(a.last())
                &&& b == old(self).bid_orders@.push(b.last())
                &&& b.last().expiration_block == expiration_block
                &&& b.last().hash@ == bid_h
                &&& b.last().order.blockchain == chain
                &&& b.last().order.borrower_address_id@ == borrower_address_id@
                &&& b.last().order.terms == terms
                &&& b.last().order.expiration_block == expiration_block
                &&& b.last().order.block == block
                &&& b.last().order.borrower@ == borrower_account
                &&& find_entry(b, expiration_block, bid_h) == Some(b.last())
                &&& o == old(self).offers@.push(o.last())
                &&& o.last().expiration_block == expiration_block
                &&& o.last().hash@ == offer_h
                &&& o.last().offer.ask_id.expiration_block == expiration_block
                &&& o.last().offer.ask_id.hash@ == ask_h
                &&& o.last().offer.bid_id.expiration_block == expiration_block
                &&& o.last().offer.bid_id.hash@ == bid_h
                &&& o.last().offer.blockchain == chain
                &&& o.last().offer.expiration_block == expiration_block
                &&& o.last().offer.block == block
                &&& o.last().offer.lender@ == who@
                &&& find_entry(o, expiration_block, offer_h) == Some(o.last())
                &&& d == old(self).deal_orders@.push(d.last())
                &&& d.last().expiration_block == expiration_block
                &&& d.last().hash@ == deal_h
                &&& d.last().deal.blockchain == chain
                &&& d.last().deal.offer_id.expiration_block == expiration_block
                &&& d.last().deal.offer_id.hash@ == offer_h
                &&& d.last().deal.lender_address_id@ == lender_address_id@
                &&& d.last().deal.borrower_address_id@ == borrower_address_id@
                &&& d.last().deal.terms == terms
                &&& d.last().deal.expiration_block == expiration_block
                &&& d.last().deal.block == Some(block)
                &&& d.last().deal.timestamp == timestamp
                &&& d.last().deal.borrower@ == borrower_account
                &&& d.last().deal.state is Open
                &&& find_entry(d, expiration_block, deal_h) == Some(d.last())
            },
            r is Ok ==> {
                let ev = final(self).events@;
                &&& ev.len() == old(self).events@.len() + 4
                &&& ev == old(self).events@.push(ev[ev.len() - 4]).push(ev[ev.len() - 3]).push(
                    ev[ev.len() - 2],
                ).push(ev[ev.len() - 1])
                &&& (ev[ev.len() - 4] matches Event::AskOrderAdded { .. })
                &&& (ev[ev.len() - 3] matches Event::BidOrderAdded { .. })
                &&& (ev[ev.len() - 2] matches Event::OfferAdded { .. })
                &&& (ev[ev.len() - 1] matches Event::DealOrderAdded { expiration_block: xe, hash: xh }
                    && xe == expiration_block && xh@ == ids::deal_order_hash_of(
                    expiration_block,
                    expiration_block,
                    ids::offer_hash_of(
                        expiration_block,
                        expiration_block,
                        ids::ask_order_hash_of(expiration_block, ask_guid@),
                        expiration_block,
                        ids::bid_order_hash_of(expiration_block, bid_guid@),
                    ),
                ))
            },
            final(self).addresses == old(self).addresses,
            final(self).transfers == old(self).transfers,
            final(self).collected_coins == old(self).collected_coins,
            final(self).used_guids == old(self).used_guids,
            final(self).authorities == old(self).authorities,
            final(self).pending_tasks == old(self).pending_tasks,
            final(self).collect_coins_contract == old(self).collect_coins_contract,
            final(self).balances == old(self).balances,
    {
        if borrower_key.len() != 33 || borrower_signature.len() != 65 {
            return Err(Error::InvalidSignature);
        }
        let message = deal_order_message(expiration_block, &ask_guid, &bid_guid, &terms);
        if !crate::crypto::ecdsa_verify(&borrower_signature, &message, &borrower_key) {
            return Err(Error::InvalidSignature);
        }
        let borrower_account = crate::hashing::blake2_256(&borrower_key);
        let b_addr_i = match find_index(&self.addresses, 0, &borrower_address_id) {
            Some(i) => i,
            None => {
                return Err(Error::NonExistentAddress);
            },
        };
        if !util::bytes_eq(&self.addresses[b_addr_i].address.owner, &borrower_account) {
            return Err(Error::NotAddressOwner);
        }
        let l_addr_i = match find_index(&self.addresses, 0, &lender_address_id) {
            Some(i) => i,
            None => {
                return Err(Error::NonExistentAddress);
            },
        };
        if !util::bytes_eq(&self.addresses[l_addr_i].address.owner, &who) {
            return Err(Error::NotAddressOwner);
        }
        if self.addresses[l_addr_i].address.blockchain
            != self.addresses[b_addr_i].address.blockchain {
            return Err(Error::AddressBlockchainMismatch);
        }
        let ask_hash = ids::ask_order_hash(expiration_block, &ask_guid);
        if find_index(&self.ask_orders, expiration_block, &ask_hash).is_some() {
            return Err(Error::DuplicateId);
        }
        let bid_hash = ids::bid_order_hash(expiration_block, &bid_guid);
        if find_index(&self.bid_orders, expiration_block, &bid_hash).is_some() {
            return Err(Error::DuplicateId);
        }
        let offer_hash = ids::offer_hash(
            expiration_block,
            expiration_block,
            &ask_hash,
            expiration_block,
            &bid_hash,
        );
        if find_index(&self.offers, expiration_block, &offer_hash).is_some() {
            return Err(Error::DuplicateOffer);
        }
        let deal_hash = ids::deal_order_hash(expiration_block, expiration_block, &offer_hash);
        if find_index(&self.deal_orders, expiration_block, &deal_hash).is_some() {
            return Err(Error::DuplicateDealOrder);
        }
        if terms.term_length.secs == 0 && terms.term_length.nanos == 0 {
            return Err(Error::InvalidTermLength);
        }
        let chain = self.addresses[l_addr_i].address.blockchain;
        let ask_entry = AskEntry {
            expiration_block,
            hash: util::copy_bytes(&ask_hash),
            order: AskOrder {
                blockchain: chain,
                lender_address_id: util::copy_bytes(&lender_address_id),
                terms,
                expiration_block,
                block,
                lender: util::copy_bytes(&who),
            },
        };
        let bid_entry = BidEntry {
            expiration_block,
            hash: util::copy_bytes(&bid_hash),
            order: BidOrder {
                blockchain: chain,
                borrower_address_id: util::copy_bytes(&borrower_address_id),
                terms,
                expiration_block,
                block,
                borrower: util::copy_bytes(&borrower_account),
            },
        };
        let offer_entry = OfferEntry {
            expiration_block,
            hash: util::copy_bytes(&offer_hash),
            offer: Offer {
                ask_id: AskOrderId { expiration_block, hash: util::copy_bytes(&ask_hash) },
                bid_id: BidOrderId { expiration_block, hash: util::copy_bytes(&bid_hash) },
                blockchain: chain,
                expiration_block,
                block,
                lender: who,
            },
        };
        let deal_entry = DealEntry {
            expiration_block,
            hash: util::copy_bytes(&deal_hash),
            deal: DealOrder {
                blockchain: chain,
                offer_id: OfferId { expiration_block, hash: util::copy_bytes(&offer_hash) },
                lender_address_id,
                borrower_address_id,
                terms,
                expiration_block,
                block: Some(block),
                timestamp,
                borrower: borrower_account,
                state: DealState::Open,
            },
        };
        proof {
            lemma_find_push(self.ask_orders@, ask_entry, expiration_block, ask_entry.hash@);
            lemma_find_push(self.bid_orders@, bid_entry, expiration_block, bid_entry.hash@);
            lemma_find_push(self.offers@, offer_entry, expiration_block, offer_entry.hash@);
            lemma_find_push(self.deal_orders@, deal_entry, expiration_block, deal_entry.hash@);
        }
        self.ask_orders.push(ask_entry);
        self.bid_orders.push(bid_entry);
        self.offers.push(offer_entry);
        self.deal_orders.push(deal_entry);
        self.events.push(Event::AskOrderAdded { expiration_block, hash: ask_hash });
        self.events.push(Event::BidOrderAdded { expiration_block, hash: bid_hash });
        self.events.push(Event::OfferAdded { expiration_block, hash: offer_hash });
        self.events.push(Event::DealOrderAdded { expiration_block, hash: deal_hash });
        Ok(())
    }
}

} // verus!
