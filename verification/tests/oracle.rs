use creditcoin::ids;
use creditcoin::ledger::{AddressEntry, Ledger, PendingTask};
use creditcoin::types::{
    Address, Blockchain, CollectCoinsContract, CollectedCoinsStruct, DealOrderId, Error, Event,
    TaskId, TaskOutput, Transfer, TransferKind, VerificationFailureCause,
};

fn acct(n: u8) -> Vec<u8> {
    vec![n; 32]
}

fn new_ledger() -> Ledger {
    Ledger::new(CollectCoinsContract { chain: Blockchain::Rinkeby, address: vec![0xcc; 20] })
}

fn hex_bytes(s: &str) -> Vec<u8> {
    let s = s.strip_prefix("0x").unwrap_or(s);
    (0..s.len())
        .step_by(2)
        .map(|i| u8::from_str_radix(&s[i..i + 2], 16).expect("hex digit"))
        .collect()
}

fn dummy_transfer(deal_id: &DealOrderId, registrant: &[u8], tx_id: Vec<u8>) -> Transfer {
    Transfer {
        blockchain: Blockchain::Rinkeby,
        kind: TransferKind::Ethless(vec![0xcc; 20]),
        from: vec![0x11; 20],
        to: vec![0x22; 20],
        deal_order_id: deal_id.clone(),
        amount: 100,
        tx_id,
        block: 0,
        timestamp: None,
        account_id: registrant.to_vec(),
        is_processed: false,
    }
}

fn dummy_deal_id() -> DealOrderId {
    DealOrderId { expiration_block: 50, hash: vec![0x55; 32] }
}

#[test]
fn unverified_transfer_is_removed_after_failing_the_task() {
    let mut l = new_ledger();
    let authority = acct(9);
    assert_eq!(l.add_authority(authority.clone()), Ok(()));

    let tx_id = vec![0xab; 8];
    let id = ids::transfer_id(Blockchain::Rinkeby, &tx_id);
    let deadline = 100;
    l.pending_tasks.push(PendingTask { deadline, task_id: id.clone() });

    assert_eq!(
        l.fail_task(
            authority,
            deadline,
            TaskId::VerifyTransfer { id: id.clone() },
            VerificationFailureCause::TaskFailed,
        ),
        Ok(())
    );
    assert!(!l.is_scheduled(deadline, &id));
    assert!(l.events.iter().any(|e| matches!(
        e,
        Event::TransferFailedVerification { transfer_id, cause: VerificationFailureCause::TaskFailed }
            if *transfer_id == id
    )));
}

#[test]
fn unverified_transfer_is_removed_after_persisting_the_task() {
    let mut l = new_ledger();
    let authority = acct(9);
    assert_eq!(l.add_authority(authority.clone()), Ok(()));

    let tx_id = vec![0xab; 8];
    let id = ids::transfer_id(Blockchain::Rinkeby, &tx_id);
    let deadline = 100;
    l.pending_tasks.push(PendingTask { deadline, task_id: id.clone() });

    let transfer = dummy_transfer(&dummy_deal_id(), &acct(1), tx_id);
    assert_eq!(
        l.persist_task_output(
            authority,
            deadline,
            TaskOutput::VerifyTransfer { id: id.clone(), transfer },
            12,
        ),
        Ok(())
    );
    assert!(!l.is_scheduled(deadline, &id));
    assert_eq!(l.transfers.len(), 1);
    assert_eq!(l.transfers[0].transfer.block, 12);
}

#[test]
fn fail_transfer_should_error_when_not_authorized() {
    let mut l = new_ledger();
    let lender = acct(1);

    let tx = hex_bytes("0xafafaf");
    let transfer_id = ids::transfer_id(Blockchain::Rinkeby, &tx);
    let deadline = 100;

    assert_eq!(
        l.fail_task(
            lender,
            deadline,
            TaskId::VerifyTransfer { id: transfer_id },
            VerificationFailureCause::TaskFailed,
        ),
        Err(Error::InsufficientAuthority)
    );
}

#[test]
fn verify_transfer_should_error_when_signer_not_authorized() {
    let mut l = new_ledger();
    let lender = acct(1);

    let tx_id = vec![0xab; 8];
    let id = ids::transfer_id(Blockchain::Rinkeby, &tx_id);
    let transfer = dummy_transfer(&dummy_deal_id(), &lender, tx_id);
    let deadline = 100;

    assert_eq!(
        l.persist_task_output(
            lender,
            deadline,
            TaskOutput::VerifyTransfer { id, transfer },
            12,
        ),
        Err(Error::InsufficientAuthority)
    );
}

#[test]
fn task_output_commits_at_most_once() {
    let mut l = new_ledger();
    let authority = acct(9);
    assert_eq!(l.add_authority(authority.clone()), Ok(()));

    let tx_id = vec![0xab; 8];
    let id = ids::transfer_id(Blockchain::Rinkeby, &tx_id);
    let deadline = 100;
    l.pending_tasks.push(PendingTask { deadline, task_id: id.clone() });

    let transfer = dummy_transfer(&dummy_deal_id(), &acct(1), tx_id.clone());
    assert_eq!(
        l.persist_task_output(
            authority.clone(),
            deadline,
            TaskOutput::VerifyTransfer { id: id.clone(), transfer },
            12,
        ),
        Ok(())
    );

    // A second success submission for the same id fails ...
    let transfer2 = dummy_transfer(&dummy_deal_id(), &acct(1), tx_id);
    assert_eq!(
        l.persist_task_output(
            authority.clone(),
            deadline,
            TaskOutput::VerifyTransfer { id: id.clone(), transfer: transfer2 },
            13,
        ),
        Err(Error::TransferAlreadyRegistered)
    );
    // ... and so does a failure submission; the task is no longer pending.
    assert_eq!(
        l.fail_task(
            authority,
            deadline,
            TaskId::VerifyTransfer { id: id.clone() },
            VerificationFailureCause::TaskFailed,
        ),
        Err(Error::TransferAlreadyRegistered)
    );
    assert!(!l.is_scheduled(deadline, &id));
}

#[test]
fn request_collect_coins_schedules_once() {
    let mut l = new_ledger();
    let who = acct(3);
    let evm_address = vec![0x44; 20];
    let addr_id = ids::address_id(Blockchain::Rinkeby, &evm_address);
    l.addresses.push(AddressEntry {
        id: addr_id,
        address: Address {
            blockchain: Blockchain::Rinkeby,
            value: evm_address.clone(),
            owner: who.clone(),
        },
    });

    let tx_id = vec![0xee; 8];
    let deadline = 100;
    assert_eq!(
        l.request_collect_coins(who.clone(), evm_address.clone(), tx_id.clone(), deadline),
        Ok(())
    );
    let id = ids::collected_coins_id(&evm_address, &tx_id, Blockchain::Rinkeby, &vec![0xcc; 20]);
    assert!(l.is_scheduled(deadline, &id));

    assert_eq!(
        l.request_collect_coins(who, evm_address, tx_id, deadline),
        Err(Error::CollectCoinsAlreadyRegistered)
    );
}

#[test]
fn request_collect_coins_requires_owned_address() {
    let mut l = new_ledger();
    let evm_address = vec![0x44; 20];
    assert_eq!(
        l.request_collect_coins(acct(3), evm_address.clone(), vec![0xee; 8], 100),
        Err(Error::NonExistentAddress)
    );

    let addr_id = ids::address_id(Blockchain::Rinkeby, &evm_address);
    l.addresses.push(AddressEntry {
        id: addr_id,
        address: Address {
            blockchain: Blockchain::Rinkeby,
            value: evm_address.clone(),
            owner: acct(4),
        },
    });
    assert_eq!(
        l.request_collect_coins(acct(3), evm_address, vec![0xee; 8], 100),
        Err(Error::NotAddressOwner)
    );
}

#[test]
fn persisting_collected_coins_mints_to_the_owner() {
    let mut l = new_ledger();
    let authority = acct(9);
    let owner = acct(3);
    assert_eq!(l.add_authority(authority.clone()), Ok(()));

    let evm_address = vec![0x44; 20];
    let addr_id = ids::address_id(Blockchain::Rinkeby, &evm_address);
    l.addresses.push(AddressEntry {
        id: addr_id.clone(),
        address: Address {
            blockchain: Blockchain::Rinkeby,
            value: evm_address.clone(),
            owner: owner.clone(),
        },
    });

    let tx_id = vec![0xee; 8];
    let id = ids::collected_coins_id(&evm_address, &tx_id, Blockchain::Rinkeby, &vec![0xcc; 20]);
    let coins = CollectedCoinsStruct { to: addr_id.clone(), amount: 4242, tx_id: tx_id.clone() };
    let deadline = 100;
    l.pending_tasks.push(PendingTask { deadline, task_id: id.clone() });

    assert_eq!(l.balance(&owner), 0);
    assert_eq!(
        l.persist_task_output(
            authority.clone(),
            deadline,
            TaskOutput::CollectCoins { id: id.clone(), coins },
            12,
        ),
        Ok(())
    );
    assert_eq!(l.balance(&owner), 4242);
    assert!(!l.is_scheduled(deadline, &id));

    // A second collection of the same claim id is refused.
    let coins2 = CollectedCoinsStruct { to: addr_id, amount: 1, tx_id };
    assert_eq!(
        l.persist_task_output(
            authority,
            deadline,
            TaskOutput::CollectCoins { id, coins: coins2 },
            13,
        ),
        Err(Error::CollectCoinsAlreadyRegistered)
    );
    assert_eq!(l.balance(&owner), 4242);
}

#[test]
fn authority_set_is_managed_explicitly() {
    let mut l = new_ledger();
    let a = acct(9);
    assert_eq!(l.remove_authority(a.clone()), Err(Error::NotAnAuthority));
    assert_eq!(l.add_authority(a.clone()), Ok(()));
    assert!(l.is_authority(&a));
    assert_eq!(l.add_authority(a.clone()), Err(Error::AlreadyAuthority));
    assert_eq!(l.remove_authority(a.clone()), Ok(()));
    assert!(!l.is_authority(&a));
}

#[test]
fn collect_coins_contract_is_replaceable() {
    let mut l = new_ledger();
    l.set_collect_coins_contract(CollectCoinsContract {
        chain: Blockchain::Ethereum,
        address: vec![0xdd; 20],
    });
    assert_eq!(l.collect_coins_contract.chain, Blockchain::Ethereum);
    assert_eq!(l.collect_coins_contract.address, vec![0xdd; 20]);
}
