use creditcoin::ids;
use creditcoin::ledger::{AddressEntry, DealEntry, Ledger, TransferEntry};
use creditcoin::types::{
    Address, Blockchain, CollectCoinsContract, DealOrder, DealOrderId, DealState, Duration, Error,
    InterestRate, InterestType, LoanTerms, Transfer, TransferKind,
};

fn acct(n: u8) -> Vec<u8> {
    vec![n; 32]
}

fn test_terms(amount: u128) -> LoanTerms {
    LoanTerms {
        amount,
        interest_rate: InterestRate {
            rate_per_period: 10,
            decimals: 4,
            period: Duration { secs: 3600, nanos: 0 },
            interest_type: InterestType::Compound,
        },
        term_length: Duration { secs: 86400, nanos: 0 },
    }
}

fn new_ledger() -> Ledger {
    Ledger::new(CollectCoinsContract { chain: Blockchain::Ethereum, address: vec![0xcc; 20] })
}

fn seed_address(l: &mut Ledger, value: Vec<u8>, owner: &[u8]) -> Vec<u8> {
    let id = ids::address_id(Blockchain::Ethereum, &value);
    l.addresses.push(AddressEntry {
        id: id.clone(),
        address: Address { blockchain: Blockchain::Ethereum, value, owner: owner.to_vec() },
    });
    id
}

/// Seeds an open deal between `lender` and `borrower`, returning its id.
fn seed_deal(l: &mut Ledger, lender: &[u8], borrower: &[u8], amount: u128) -> DealOrderId {
    let laddr = seed_address(l, vec![0x11; 20], lender);
    let baddr = seed_address(l, vec![0x22; 20], borrower);
    let offer_hash = vec![0x55; 32];
    let deal_hash = ids::deal_order_hash(50, 50, &offer_hash);
    l.deal_orders.push(DealEntry {
        expiration_block: 50,
        hash: deal_hash.clone(),
        deal: DealOrder {
            blockchain: Blockchain::Ethereum,
            offer_id: creditcoin::types::OfferId { expiration_block: 50, hash: offer_hash },
            lender_address_id: laddr,
            borrower_address_id: baddr,
            terms: test_terms(amount),
            expiration_block: 50,
            block: Some(10),
            timestamp: 1000,
            borrower: borrower.to_vec(),
            state: DealState::Open,
        },
    });
    DealOrderId { expiration_block: 50, hash: deal_hash }
}

/// Seeds a verified, unprocessed transfer for `deal_id` and returns its id.
fn seed_transfer(
    l: &mut Ledger,
    deal_id: &DealOrderId,
    registrant: &[u8],
    amount: u128,
    tx_byte: u8,
) -> Vec<u8> {
    let tx_id = vec![tx_byte; 8];
    let tid = ids::transfer_id(Blockchain::Ethereum, &tx_id);
    l.transfers.push(TransferEntry {
        id: tid.clone(),
        transfer: Transfer {
            blockchain: Blockchain::Ethereum,
            kind: TransferKind::Ethless(vec![0xcc; 20]),
            from: vec![0x11; 20],
            to: vec![0x22; 20],
            deal_order_id: deal_id.clone(),
            amount,
            tx_id,
            block: 11,
            timestamp: None,
            account_id: registrant.to_vec(),
            is_processed: false,
        },
    });
    tid
}

#[test]
fn lock_before_funding_fails_and_changes_nothing() {
    let mut l = new_ledger();
    let lender = acct(1);
    let borrower = acct(2);
    let deal_id = seed_deal(&mut l, &lender, &borrower, 100);

    assert_eq!(l.lock_deal_order(borrower, deal_id), Err(Error::DealNotFunded));
    assert!(matches!(l.deal_orders[0].deal.state, DealState::Open));
    assert_eq!(l.events.len(), 0);
}

#[test]
fn close_before_locking_fails() {
    let mut l = new_ledger();
    let lender = acct(1);
    let borrower = acct(2);
    let deal_id = seed_deal(&mut l, &lender, &borrower, 100);
    let tid = seed_transfer(&mut l, &deal_id, &lender, 100, 0xaa);
    assert_eq!(l.fund_deal_order(lender.clone(), deal_id.clone(), tid, 11, 2000), Ok(()));

    let rid = seed_transfer(&mut l, &deal_id, &borrower, 100, 0xbb);
    assert_eq!(
        l.close_deal_order(borrower, deal_id, rid, 12, 3000),
        Err(Error::DealOrderMustBeLocked)
    );
}

#[test]
fn full_lifecycle_open_funded_locked_closed() {
    let mut l = new_ledger();
    let lender = acct(1);
    let borrower = acct(2);
    let deal_id = seed_deal(&mut l, &lender, &borrower, 100);

    let tid = seed_transfer(&mut l, &deal_id, &lender, 100, 0xaa);
    assert_eq!(l.fund_deal_order(lender.clone(), deal_id.clone(), tid.clone(), 11, 2000), Ok(()));
    assert!(matches!(l.deal_orders[0].deal.state, DealState::Funded { .. }));

    // Only the borrower can lock.
    assert_eq!(l.lock_deal_order(lender.clone(), deal_id.clone()), Err(Error::NotBorrower));
    assert_eq!(l.lock_deal_order(borrower.clone(), deal_id.clone()), Ok(()));
    assert!(matches!(l.deal_orders[0].deal.state, DealState::Locked { .. }));
    assert_eq!(
        l.lock_deal_order(borrower.clone(), deal_id.clone()),
        Err(Error::DealOrderAlreadyLocked)
    );

    let rid = seed_transfer(&mut l, &deal_id, &borrower, 60, 0xbb);
    assert_eq!(l.close_deal_order(borrower.clone(), deal_id.clone(), rid, 12, 3000), Ok(()));
    assert!(matches!(l.deal_orders[0].deal.state, DealState::Closed { .. }));

    // A closed deal accepts no further transition.
    let rid2 = seed_transfer(&mut l, &deal_id, &borrower, 40, 0xcd);
    assert_eq!(
        l.close_deal_order(borrower.clone(), deal_id.clone(), rid2, 13, 4000),
        Err(Error::DealOrderAlreadyClosed)
    );
    assert_eq!(l.exempt(lender, deal_id), Err(Error::DealOrderAlreadyClosed));
}

#[test]
fn funding_is_atomic_on_transfer_rejection() {
    let mut l = new_ledger();
    let lender = acct(1);
    let borrower = acct(2);
    let deal_id = seed_deal(&mut l, &lender, &borrower, 100);

    // The claimed transfer carries the wrong amount: the deal stays open
    // and the transfer stays unprocessed.
    let tid = seed_transfer(&mut l, &deal_id, &lender, 99, 0xaa);
    assert_eq!(
        l.fund_deal_order(lender.clone(), deal_id.clone(), tid.clone(), 11, 2000),
        Err(Error::TransferAmountMismatch)
    );
    assert!(matches!(l.deal_orders[0].deal.state, DealState::Open));
    assert!(!l.transfers[0].transfer.is_processed);
    assert_eq!(l.events.len(), 0);

    // So does a transfer registered by someone other than the caller.
    let tid2 = seed_transfer(&mut l, &deal_id, &borrower, 100, 0xbb);
    assert_eq!(
        l.fund_deal_order(lender.clone(), deal_id.clone(), tid2, 11, 2000),
        Err(Error::TransferAccountMismatch)
    );
    assert!(matches!(l.deal_orders[0].deal.state, DealState::Open));

    // An already-processed transfer cannot fund anything.
    let tid3 = seed_transfer(&mut l, &deal_id, &lender, 100, 0xcc);
    l.transfers[2].transfer.is_processed = true;
    assert_eq!(
        l.fund_deal_order(lender, deal_id, tid3, 11, 2000),
        Err(Error::TransferAlreadyProcessed)
    );
}

#[test]
fn funding_requires_monotone_clock_and_unexpired_deal() {
    let mut l = new_ledger();
    let lender = acct(1);
    let borrower = acct(2);
    let deal_id = seed_deal(&mut l, &lender, &borrower, 100);
    let tid = seed_transfer(&mut l, &deal_id, &lender, 100, 0xaa);

    // The deal's timestamp is 1000; an earlier now is malformed.
    assert_eq!(
        l.fund_deal_order(lender.clone(), deal_id.clone(), tid.clone(), 11, 999),
        Err(Error::MalformedDealOrder)
    );
    // The deal expires at block 50.
    assert_eq!(
        l.fund_deal_order(lender, deal_id, tid, 51, 2000),
        Err(Error::DealOrderExpired)
    );
}

#[test]
fn exemption_settles_a_deal_from_any_unsettled_position() {
    let mut l = new_ledger();
    let lender = acct(1);
    let borrower = acct(2);
    let deal_id = seed_deal(&mut l, &lender, &borrower, 100);

    // Only the lender may exempt.
    assert_eq!(l.exempt(borrower, deal_id.clone()), Err(Error::NotLender));

    assert_eq!(l.exempt(lender.clone(), deal_id.clone()), Ok(()));
    match &l.deal_orders[0].deal.state {
        DealState::Exempted { funding_transfer_id, lock, repayment_transfer_id } => {
            assert!(funding_transfer_id.is_none());
            assert!(lock.is_none());
            // The synthetic repayment reference is the transfer id of tx "0".
            let expected = ids::transfer_id(Blockchain::Ethereum, &b"0".to_vec());
            assert_eq!(repayment_transfer_id, &expected);
        },
        other => panic!("expected an exempted deal, found {:?}", other),
    }

    // Exempted deals are terminal.
    assert_eq!(l.exempt(lender.clone(), deal_id.clone()), Err(Error::DealOrderAlreadyClosed));
    let tid = seed_transfer(&mut l, &deal_id, &lender, 100, 0xaa);
    assert_eq!(
        l.fund_deal_order(lender, deal_id, tid, 11, 2000),
        Err(Error::DealOrderAlreadyClosed)
    );
}
