use creditcoin::verify::{
    check_chain_id, resolve_ethless_check, validate_ethless_transfer,
    CurrencyOrLegacyTransferKind, EvmCurrency, FetchedTransaction, LegacyTransferKind,
};
use creditcoin::types::VerificationFailureCause;
use ethabi::ethereum_types::{H160, U256};
use ethabi::Token;

const SELECTOR: [u8; 4] = [0x9b, 0xd9, 0xbb, 0xc6];

fn from_addr() -> Vec<u8> {
    vec![0x11; 20]
}

fn to_addr() -> Vec<u8> {
    vec![0x22; 20]
}

fn contract_addr() -> Vec<u8> {
    vec![0xcc; 20]
}

fn nonce_bytes() -> Vec<u8> {
    let mut n = vec![0u8; 32];
    n[31] = 0x2a;
    n
}

/// Encodes an ethless `transfer` call input as the contract would see it.
fn ethless_input(from: &[u8], to: &[u8], value: u128, nonce: &[u8]) -> Vec<u8> {
    let tokens = [
        Token::Address(H160::from_slice(from)),
        Token::Address(H160::from_slice(to)),
        Token::Uint(U256::from(value)),
        Token::Uint(U256::from(1u64)),
        Token::Uint(U256::from_big_endian(nonce)),
        Token::Bytes(vec![0xde, 0xad]),
    ];
    let mut input = SELECTOR.to_vec();
    input.extend_from_slice(&ethabi::encode(&tokens));
    input
}

fn good_tx() -> FetchedTransaction {
    FetchedTransaction {
        receipt_success: true,
        block_number: Some(80),
        to: Some(contract_addr()),
        input: ethless_input(&from_addr(), &to_addr(), 100, &nonce_bytes()),
    }
}

#[test]
fn valid_ethless_transfer_passes() {
    let r = validate_ethless_transfer(
        &from_addr(),
        &to_addr(),
        &contract_addr(),
        100,
        &good_tx(),
        100,
        &nonce_bytes(),
    );
    assert_eq!(r, Ok(()));
}

#[test]
fn each_validation_failure_names_its_cause() {
    let from = from_addr();
    let to = to_addr();
    let contract = contract_addr();
    let nonce = nonce_bytes();

    let tx = FetchedTransaction { receipt_success: false, ..good_tx() };
    assert_eq!(
        validate_ethless_transfer(&from, &to, &contract, 100, &tx, 100, &nonce),
        Err(VerificationFailureCause::TaskFailed)
    );

    let tx = FetchedTransaction { block_number: None, ..good_tx() };
    assert_eq!(
        validate_ethless_transfer(&from, &to, &contract, 100, &tx, 100, &nonce),
        Err(VerificationFailureCause::TaskPending)
    );

    let tx = FetchedTransaction { block_number: Some(101), ..good_tx() };
    assert_eq!(
        validate_ethless_transfer(&from, &to, &contract, 100, &tx, 100, &nonce),
        Err(VerificationFailureCause::TaskInFuture)
    );

    // Mined at 95, tip 100: only 5 confirmations.
    let tx = FetchedTransaction { block_number: Some(95), ..good_tx() };
    assert_eq!(
        validate_ethless_transfer(&from, &to, &contract, 100, &tx, 100, &nonce),
        Err(VerificationFailureCause::TaskUnconfirmed)
    );

    let tx = FetchedTransaction { to: None, ..good_tx() };
    assert_eq!(
        validate_ethless_transfer(&from, &to, &contract, 100, &tx, 100, &nonce),
        Err(VerificationFailureCause::MissingReceiver)
    );

    let tx = FetchedTransaction { to: Some(vec![0xdd; 20]), ..good_tx() };
    assert_eq!(
        validate_ethless_transfer(&from, &to, &contract, 100, &tx, 100, &nonce),
        Err(VerificationFailureCause::IncorrectContract)
    );

    let tx = FetchedTransaction { input: vec![1, 2, 3], ..good_tx() };
    assert_eq!(
        validate_ethless_transfer(&from, &to, &contract, 100, &tx, 100, &nonce),
        Err(VerificationFailureCause::AbiMismatch)
    );

    let tx = FetchedTransaction {
        input: ethless_input(&vec![0x33; 20], &to, 100, &nonce),
        ..good_tx()
    };
    assert_eq!(
        validate_ethless_transfer(&from, &to, &contract, 100, &tx, 100, &nonce),
        Err(VerificationFailureCause::IncorrectSender)
    );

    let tx = FetchedTransaction {
        input: ethless_input(&from, &vec![0x33; 20], 100, &nonce),
        ..good_tx()
    };
    assert_eq!(
        validate_ethless_transfer(&from, &to, &contract, 100, &tx, 100, &nonce),
        Err(VerificationFailureCause::IncorrectReceiver)
    );

    // The claim says 100 but the chain carries 99.
    let tx = FetchedTransaction { input: ethless_input(&from, &to, 99, &nonce), ..good_tx() };
    assert_eq!(
        validate_ethless_transfer(&from, &to, &contract, 100, &tx, 100, &nonce),
        Err(VerificationFailureCause::IncorrectAmount)
    );

    let mut other_nonce = nonce.clone();
    other_nonce[31] ^= 1;
    let tx = FetchedTransaction {
        input: ethless_input(&from, &to, 100, &other_nonce),
        ..good_tx()
    };
    assert_eq!(
        validate_ethless_transfer(&from, &to, &contract, 100, &tx, 100, &nonce),
        Err(VerificationFailureCause::IncorrectNonce)
    );
}

#[test]
fn claim_kind_resolution_supports_only_ethless() {
    let r = resolve_ethless_check(CurrencyOrLegacyTransferKind::TransferKind(
        LegacyTransferKind::Ethless(contract_addr()),
    ))
    .expect("ethless is verifiable");
    assert_eq!(r.contract, contract_addr());
    assert_eq!(r.chain_id, None);

    let r = resolve_ethless_check(CurrencyOrLegacyTransferKind::Currency(EvmCurrency {
        contract: contract_addr(),
        chain_id: 5,
    }))
    .expect("currency descriptors are verifiable");
    assert_eq!(r.chain_id, Some(5));

    for kind in [
        LegacyTransferKind::Native,
        LegacyTransferKind::Erc20(contract_addr()),
        LegacyTransferKind::Other(vec![1]),
    ] {
        assert_eq!(
            resolve_ethless_check(CurrencyOrLegacyTransferKind::TransferKind(kind)).unwrap_err(),
            VerificationFailureCause::UnsupportedMethod
        );
    }
}

#[test]
fn chain_id_must_match_when_declared() {
    assert_eq!(check_chain_id(5, 5), Ok(()));
    assert_eq!(check_chain_id(5, 1), Err(VerificationFailureCause::IncorrectChainId));
}
