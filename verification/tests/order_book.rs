use creditcoin::ids;
use creditcoin::ledger::{AddressEntry, Ledger};
use creditcoin::types::{
    Address, AskOrderId, BidOrderId, Blockchain, CollectCoinsContract, DealOrderId, Duration,
    Error, Event, InterestRate, InterestType, LoanTerms, OfferId,
};

fn acct(n: u8) -> Vec<u8> {
    vec![n; 32]
}

fn test_terms(amount: u128) -> LoanTerms {
    LoanTerms {
        amount,
        interest_rate: InterestRate {
            rate_per_period: 10,
            decimals: 4,
            period: Duration { secs: 3600, nanos: 0 },
            interest_type: InterestType::Simple,
        },
        term_length: Duration { secs: 86400, nanos: 0 },
    }
}

fn new_ledger() -> Ledger {
    Ledger::new(CollectCoinsContract { chain: Blockchain::Rinkeby, address: vec![0xcc; 20] })
}

fn seed_address(l: &mut Ledger, chain: Blockchain, value: Vec<u8>, owner: &[u8]) -> Vec<u8> {
    let id = ids::address_id(chain, &value);
    l.addresses.push(AddressEntry {
        id: id.clone(),
        address: Address { blockchain: chain, value, owner: owner.to_vec() },
    });
    id
}

#[test]
fn ask_order_requires_known_address_and_owner() {
    let mut l = new_ledger();
    let lender = acct(1);
    let r = l.add_ask_order(lender.clone(), vec![9; 32], test_terms(100), 50, b"g".to_vec(), 10);
    assert_eq!(r, Err(Error::NonExistentAddress));

    let addr = seed_address(&mut l, Blockchain::Rinkeby, vec![0x11; 20], &lender);
    let r = l.add_ask_order(acct(2), addr.clone(), test_terms(100), 50, b"g".to_vec(), 10);
    assert_eq!(r, Err(Error::NotAddressOwner));

    let r = l.add_ask_order(lender.clone(), addr.clone(), test_terms(100), 5, b"g".to_vec(), 10);
    assert_eq!(r, Err(Error::AskOrderExpired));

    let zero_len = LoanTerms { term_length: Duration { secs: 0, nanos: 0 }, ..test_terms(100) };
    let r = l.add_ask_order(lender.clone(), addr.clone(), zero_len, 50, b"g".to_vec(), 10);
    assert_eq!(r, Err(Error::InvalidTermLength));

    let r = l.add_ask_order(lender, addr, test_terms(100), 50, b"g".to_vec(), 10);
    assert_eq!(r, Ok(()));
    assert_eq!(l.ask_orders.len(), 1);
}

#[test]
fn guid_is_single_use_across_order_types() {
    let mut l = new_ledger();
    let lender = acct(1);
    let borrower = acct(2);
    let laddr = seed_address(&mut l, Blockchain::Rinkeby, vec![0x11; 20], &lender);
    let baddr = seed_address(&mut l, Blockchain::Rinkeby, vec![0x22; 20], &borrower);

    let r = l.add_ask_order(lender.clone(), laddr.clone(), test_terms(100), 50, b"g1".to_vec(), 10);
    assert_eq!(r, Ok(()));

    // Same guid in a bid, even at another expiration, is refused.
    let r = l.add_bid_order(borrower.clone(), baddr.clone(), test_terms(100), 60, b"g1".to_vec(), 10);
    assert_eq!(r, Err(Error::GuidAlreadyUsed));

    // Same guid in another ask at another expiration is refused too.
    let r = l.add_ask_order(lender.clone(), laddr.clone(), test_terms(100), 60, b"g1".to_vec(), 10);
    assert_eq!(r, Err(Error::GuidAlreadyUsed));

    // The identical (expiration, guid) pair collides on the id first.
    let r = l.add_ask_order(lender, laddr, test_terms(100), 50, b"g1".to_vec(), 10);
    assert_eq!(r, Err(Error::DuplicateId));
}

#[test]
fn offer_requires_matching_terms() {
    let mut l = new_ledger();
    let lender = acct(1);
    let borrower = acct(2);
    let laddr = seed_address(&mut l, Blockchain::Rinkeby, vec![0x11; 20], &lender);
    let baddr = seed_address(&mut l, Blockchain::Rinkeby, vec![0x22; 20], &borrower);

    assert_eq!(
        l.add_ask_order(lender.clone(), laddr, test_terms(100), 50, b"g1".to_vec(), 10),
        Ok(())
    );
    assert_eq!(
        l.add_bid_order(borrower, baddr, test_terms(101), 50, b"g2".to_vec(), 10),
        Ok(())
    );

    let ask_id = AskOrderId { expiration_block: 50, hash: ids::ask_order_hash(50, &b"g1".to_vec()) };
    let bid_id = BidOrderId { expiration_block: 50, hash: ids::bid_order_hash(50, &b"g2".to_vec()) };
    let r = l.add_offer(lender, ask_id, bid_id, 50, 10);
    assert_eq!(r, Err(Error::AskBidMismatch));
    assert_eq!(l.offers.len(), 0);
}

#[test]
fn offer_rejects_self_dealing_and_wrong_lender() {
    let mut l = new_ledger();
    let lender = acct(1);
    let laddr = seed_address(&mut l, Blockchain::Rinkeby, vec![0x11; 20], &lender);
    let laddr2 = seed_address(&mut l, Blockchain::Rinkeby, vec![0x22; 20], &lender);

    assert_eq!(
        l.add_ask_order(lender.clone(), laddr, test_terms(100), 50, b"g1".to_vec(), 10),
        Ok(())
    );
    assert_eq!(
        l.add_bid_order(lender.clone(), laddr2, test_terms(100), 50, b"g2".to_vec(), 10),
        Ok(())
    );

    let ask_id = AskOrderId { expiration_block: 50, hash: ids::ask_order_hash(50, &b"g1".to_vec()) };
    let bid_id = BidOrderId { expiration_block: 50, hash: ids::bid_order_hash(50, &b"g2".to_vec()) };
    assert_eq!(
        l.add_offer(acct(3), ask_id.clone(), bid_id.clone(), 50, 10),
        Err(Error::NotLender)
    );
    assert_eq!(l.add_offer(lender, ask_id, bid_id, 50, 10), Err(Error::SameOwner));
}

#[test]
fn full_match_scenario_produces_funded_deal() {
    let mut l = new_ledger();
    let lender = acct(1);
    let borrower = acct(2);
    let laddr = seed_address(&mut l, Blockchain::Rinkeby, vec![0x11; 20], &lender);
    let baddr = seed_address(&mut l, Blockchain::Rinkeby, vec![0x22; 20], &borrower);

    assert_eq!(
        l.add_ask_order(lender.clone(), laddr.clone(), test_terms(100), 50, b"g1".to_vec(), 10),
        Ok(())
    );
    assert_eq!(
        l.add_bid_order(borrower.clone(), baddr.clone(), test_terms(100), 50, b"g2".to_vec(), 10),
        Ok(())
    );

    let ask_hash = ids::ask_order_hash(50, &b"g1".to_vec());
    let bid_hash = ids::bid_order_hash(50, &b"g2".to_vec());
    let ask_id = AskOrderId { expiration_block: 50, hash: ask_hash.clone() };
    let bid_id = BidOrderId { expiration_block: 50, hash: bid_hash.clone() };
    assert_eq!(l.add_offer(lender.clone(), ask_id, bid_id, 50, 10), Ok(()));

    let offer_hash = ids::offer_hash(50, 50, &ask_hash, 50, &bid_hash);
    let offer_id = OfferId { expiration_block: 50, hash: offer_hash.clone() };
    assert_eq!(l.add_deal_order(borrower.clone(), offer_id, 50, 10, 1000), Ok(()));

    let deal_hash = ids::deal_order_hash(50, 50, &offer_hash);
    let deal = l
        .deal_orders
        .iter()
        .find(|e| e.expiration_block == 50 && e.hash == deal_hash)
        .expect("deal order present");
    assert_eq!(deal.deal.terms.amount, 100);
    assert!(matches!(deal.deal.state, creditcoin::types::DealState::Open));

    // Commit a verified funding transfer of exactly the agreed amount.
    let authority = acct(9);
    assert_eq!(l.add_authority(authority.clone()), Ok(()));
    let tx_id = vec![0xab; 10];
    let tid = ids::transfer_id(Blockchain::Rinkeby, &tx_id);
    let deal_id = DealOrderId { expiration_block: 50, hash: deal_hash.clone() };
    let transfer = creditcoin::types::Transfer {
        blockchain: Blockchain::Rinkeby,
        kind: creditcoin::types::TransferKind::Ethless(vec![0xcc; 20]),
        from: laddr,
        to: baddr,
        deal_order_id: deal_id.clone(),
        amount: 100,
        tx_id,
        block: 0,
        timestamp: None,
        account_id: lender.clone(),
        is_processed: false,
    };
    assert_eq!(
        l.persist_task_output(
            authority,
            100,
            creditcoin::types::TaskOutput::VerifyTransfer { id: tid.clone(), transfer },
            11,
        ),
        Ok(())
    );

    assert_eq!(l.fund_deal_order(lender.clone(), deal_id.clone(), tid.clone(), 11, 2000), Ok(()));
    assert!(l.events.iter().any(|e| matches!(
        e,
        Event::DealOrderFunded { expiration_block: 50, hash } if *hash == deal_hash
    )));

    // A second funding attempt on the same deal is refused.
    assert_eq!(
        l.fund_deal_order(lender, deal_id, tid, 11, 2000),
        Err(Error::DealOrderAlreadyFunded)
    );
}

#[test]
fn duplicate_offer_and_deal_are_rejected() {
    let mut l = new_ledger();
    let lender = acct(1);
    let borrower = acct(2);
    let laddr = seed_address(&mut l, Blockchain::Rinkeby, vec![0x11; 20], &lender);
    let baddr = seed_address(&mut l, Blockchain::Rinkeby, vec![0x22; 20], &borrower);

    assert_eq!(
        l.add_ask_order(lender.clone(), laddr, test_terms(100), 50, b"g1".to_vec(), 10),
        Ok(())
    );
    assert_eq!(
        l.add_bid_order(borrower.clone(), baddr, test_terms(100), 50, b"g2".to_vec(), 10),
        Ok(())
    );
    let ask_hash = ids::ask_order_hash(50, &b"g1".to_vec());
    let bid_hash = ids::bid_order_hash(50, &b"g2".to_vec());
    let ask_id = AskOrderId { expiration_block: 50, hash: ask_hash.clone() };
    let bid_id = BidOrderId { expiration_block: 50, hash: bid_hash.clone() };
    assert_eq!(l.add_offer(lender.clone(), ask_id.clone(), bid_id.clone(), 50, 10), Ok(()));
    assert_eq!(l.add_offer(lender, ask_id, bid_id, 50, 10), Err(Error::DuplicateOffer));

    let offer_hash = ids::offer_hash(50, 50, &ask_hash, 50, &bid_hash);
    let offer_id = OfferId { expiration_block: 50, hash: offer_hash };
    assert_eq!(l.add_deal_order(borrower.clone(), offer_id.clone(), 50, 10, 1000), Ok(()));
    assert_eq!(
        l.add_deal_order(borrower, offer_id, 50, 10, 1000),
        Err(Error::DuplicateDealOrder)
    );
}

#[test]
fn reaper_purges_expired_entries_but_keeps_funded_deals() {
    let mut l = new_ledger();
    let lender = acct(1);
    let borrower = acct(2);
    let laddr = seed_address(&mut l, Blockchain::Rinkeby, vec![0x11; 20], &lender);
    let baddr = seed_address(&mut l, Blockchain::Rinkeby, vec![0x22; 20], &borrower);

    // Two ask/bid pairs: one expiring at block 50, one at block 60.
    assert_eq!(
        l.add_ask_order(lender.clone(), laddr.clone(), test_terms(100), 50, b"a1".to_vec(), 10),
        Ok(())
    );
    assert_eq!(
        l.add_bid_order(borrower.clone(), baddr.clone(), test_terms(100), 50, b"b1".to_vec(), 10),
        Ok(())
    );
    assert_eq!(
        l.add_ask_order(lender.clone(), laddr.clone(), test_terms(100), 60, b"a2".to_vec(), 10),
        Ok(())
    );
    let ask_hash = ids::ask_order_hash(50, &b"a1".to_vec());
    let bid_hash = ids::bid_order_hash(50, &b"b1".to_vec());
    let ask_id = AskOrderId { expiration_block: 50, hash: ask_hash.clone() };
    let bid_id = BidOrderId { expiration_block: 50, hash: bid_hash.clone() };
    assert_eq!(l.add_offer(lender.clone(), ask_id, bid_id, 50, 10), Ok(()));
    let offer_hash = ids::offer_hash(50, 50, &ask_hash, 50, &bid_hash);
    let offer_id = OfferId { expiration_block: 50, hash: offer_hash.clone() };
    assert_eq!(l.add_deal_order(borrower.clone(), offer_id, 50, 10, 1000), Ok(()));

    // Fund the deal so the reaper must keep it.
    let authority = acct(9);
    assert_eq!(l.add_authority(authority.clone()), Ok(()));
    let deal_hash = ids::deal_order_hash(50, 50, &offer_hash);
    let deal_id = DealOrderId { expiration_block: 50, hash: deal_hash.clone() };
    let tx_id = vec![0xab; 10];
    let tid = ids::transfer_id(Blockchain::Rinkeby, &tx_id);
    let transfer = creditcoin::types::Transfer {
        blockchain: Blockchain::Rinkeby,
        kind: creditcoin::types::TransferKind::Ethless(vec![0xcc; 20]),
        from: laddr.clone(),
        to: baddr.clone(),
        deal_order_id: deal_id.clone(),
        amount: 100,
        tx_id,
        block: 0,
        timestamp: None,
        account_id: lender.clone(),
        is_processed: false,
    };
    assert_eq!(
        l.persist_task_output(
            authority,
            100,
            creditcoin::types::TaskOutput::VerifyTransfer { id: tid.clone(), transfer },
            11,
        ),
        Ok(())
    );
    assert_eq!(l.fund_deal_order(lender.clone(), deal_id.clone(), tid, 11, 2000), Ok(()));

    // A second, unfunded deal also expiring at block 50.
    assert_eq!(
        l.add_bid_order(borrower.clone(), baddr.clone(), test_terms(100), 50, b"b2".to_vec(), 10),
        Ok(())
    );
    let bid2_hash = ids::bid_order_hash(50, &b"b2".to_vec());
    let ask2_id = AskOrderId { expiration_block: 60, hash: ids::ask_order_hash(60, &b"a2".to_vec()) };
    let bid2_id = BidOrderId { expiration_block: 50, hash: bid2_hash.clone() };
    assert_eq!(l.add_offer(lender.clone(), ask2_id, bid2_id, 50, 10), Ok(()));
    let offer2_hash = ids::offer_hash(50, 60, &ids::ask_order_hash(60, &b"a2".to_vec()), 50, &bid2_hash);
    let offer2_id = OfferId { expiration_block: 50, hash: offer2_hash };
    assert_eq!(l.add_deal_order(borrower.clone(), offer2_id, 50, 10, 1000), Ok(()));

    let counts = l.on_initialize(50);
    assert_eq!(counts.ask_orders, 1); // the block-50 ask
    assert_eq!(counts.bid_orders, 2);
    assert_eq!(counts.offers, 2);
    assert_eq!(counts.deal_orders, 1); // the unfunded block-50 deal
    assert_eq!(counts.funded_deals, 1);

    assert!(l.ask_orders.iter().all(|e| e.expiration_block != 50));
    assert!(l.bid_orders.iter().all(|e| e.expiration_block != 50));
    assert!(l.offers.iter().all(|e| e.expiration_block != 50));
    assert_eq!(l.ask_orders.len(), 1);
    assert_eq!(l.deal_orders.len(), 1);
    assert_eq!(l.deal_orders[0].hash, deal_hash);

    // The surviving funded deal is still exemptible.
    assert_eq!(l.exempt(lender, deal_id), Ok(()));
}
