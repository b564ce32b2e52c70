//! Validation of a claimed ethless transfer against fetched external-chain
//! evidence.
//!
//! Fetching the transaction, its receipt, and the chain tip is I/O and
//! happens outside the ledger; what is decided about the fetched values is
//! decided here, against the fixed ABI signature
//! `transfer(from, to, value, fee, nonce, signature)`.

use vstd::prelude::*;

use ethabi::ParamType;
use ethabi::Token;

use crate::types::VerificationFailureCause;

verus! {

/// How many blocks of depth an external transaction needs before it counts.
pub const ETH_CONFIRMATIONS: u64 = 12;

/// The fields of a decoded ethless `transfer` call that verification
/// reads: sender, receiver, value and nonce (the fee and the detached
/// signature are decoded but not examined).
pub ghost struct EthlessArgsModel {
    pub from: Seq<u8>,
    pub to: Seq<u8>,
    pub value: Seq<u8>,
    pub nonce: Seq<u8>,
}

/// Executable carrier of the decoded fields: two 20-byte addresses and two
/// 32-byte big-endian words.
#[derive(Debug)]
pub struct EthlessArgs {
    pub from: Vec<u8>,
    pub to: Vec<u8>,
    pub value: Vec<u8>,
    pub nonce: Vec<u8>,
}

impl EthlessArgs {
    /// The mathematical view of the decoded fields.
    pub open spec fn m(self) -> EthlessArgsModel {
        EthlessArgsModel { from: self.from@, to: self.to@, value: self.value@, nonce: self.nonce@ }
    }
}

/// What ethabi decodes from the argument bytes of an ethless `transfer`
/// call (the call input after its 4-byte selector), under the parameter
/// list `(address, address, uint256, uint256, uint256, bytes)`.
pub uninterp spec fn ethless_args_of(data: Seq<u8>) -> Option<EthlessArgsModel>;

/// Relies on ethabi::decode with the fixed ethless parameter list; the
/// examined token values are converted one for one (addresses to their 20
/// bytes, words to 32 big-endian bytes).
#[verifier::external_body]
fn decode_ethless_args(data: &Vec<u8>) -> (r: Option<EthlessArgs>)
    ensures
        match r {
            Some(a) => ethless_args_of(data@) == Some(a.m()) && a.from@.len() == 20 && a.to@.len()
                == 20 && a.value@.len() == 32 && a.nonce@.len() == 32,
            None => ethless_args_of(data@) is None,
        },
{
    let w = ParamType::Uint(256);
    let ts = [ParamType::Address, ParamType::Address, w.clone(), w.clone(), w, ParamType::Bytes];
    match ethabi::decode(&ts, data.as_slice()).ok()?.as_slice() {
        [Token::Address(f), Token::Address(t), Token::Uint(v), Token::Uint(_), Token::Uint(n), Token::Bytes(_)] => {
            let (value, nonce) = (<[u8; 32]>::from(*v).to_vec(), <[u8; 32]>::from(*n).to_vec());
            Some(EthlessArgs { from: f.0.to_vec(), to: t.0.to_vec(), value, nonce })
        },
        _ => None,
    }
}

/// The 32-byte big-endian word holding a 128-bit amount.
pub open spec fn u256_be_s(x: u128) -> Seq<u8> {
    seq![
        0u8, 0u8, 0u8, 0u8, 0u8, 0u8, 0u8, 0u8, 0u8, 0u8, 0u8, 0u8, 0u8, 0u8, 0u8, 0u8,
        ((x >> 120) & 0xff) as u8,
        ((x >> 112) & 0xff) as u8,
        ((x >> 104) & 0xff) as u8,
        ((x >> 96) & 0xff) as u8,
        ((x >> 88) & 0xff) as u8,
        ((x >> 80) & 0xff) as u8,
        ((x >> 72) & 0xff) as u8,
        ((x >> 64) & 0xff) as u8,
        ((x >> 56) & 0xff) as u8,
        ((x >> 48) & 0xff) as u8,
        ((x >> 40) & 0xff) as u8,
        ((x >> 32) & 0xff) as u8,
        ((x >> 24) & 0xff) as u8,
        ((x >> 16) & 0xff) as u8,
        ((x >> 8) & 0xff) as u8,
        (x & 0xff) as u8,
    ]
}

/// Builds the 32-byte big-endian word of an amount.
pub fn u256_be(x: u128) -> (r: Vec<u8>)
    ensures
        r@ == u256_be_s(x),
{
    let mut out: Vec<u8> = Vec::new();
    let mut i: usize = 0;
    while i < 16
        invariant
            0 <= i <= 16,
            out@.len() == i,
            forall|j: int| 0 <= j < i ==> out@[j] == 0u8,
        decreases 16 - i,
    {
        out.push(0u8);
        i += 1;
    }
    out.push(((x >> 120) & 0xff) as u8);
    out.push(((x >> 112) & 0xff) as u8);
    out.push(((x >> 104) & 0xff) as u8);
    out.push(((x >> 96) & 0xff) as u8);
    out.push(((x >> 88) & 0xff) as u8);
    out.push(((x >> 80) & 0xff) as u8);
    out.push(((x >> 72) & 0xff) as u8);
    out.push(((x >> 64) & 0xff) as u8);
    out.push(((x >> 56) & 0xff) as u8);
    out.push(((x >> 48) & 0xff) as u8);
    out.push(((x >> 40) & 0xff) as u8);
    out.push(((x >> 32) & 0xff) as u8);
    out.push(((x >> 24) & 0xff) as u8);
    out.push(((x >> 16) & 0xff) as u8);
    out.push(((x >> 8) & 0xff) as u8);
    out.push((x & 0xff) as u8);
    assert(out@ =~= u256_be_s(x));
    out
}

/// The evidence about an external transaction that the off-chain fetcher
/// hands over: its receipt status, where (and whether) it was mined, its
/// recipient, and its raw call input.
#[derive(Debug)]
pub struct FetchedTransaction {
    pub receipt_success: bool,
    pub block_number: Option<u64>,
    pub to: Option<Vec<u8>>,
    pub input: Vec<u8>,
}

/// What validating an ethless transfer claim against fetched evidence
/// yields; checks in this order, first failure wins.
pub open spec fn validate_ethless_outcome(
    from: Seq<u8>,
    to: Seq<u8>,
    contract: Seq<u8>,
    amount: u128,
    tx: FetchedTransaction,
    eth_tip: u64,
    nonce: Seq<u8>,
) -> Result<(), VerificationFailureCause> {
    if !tx.receipt_success {
        Err(VerificationFailureCause::TaskFailed)
    } else {
        match tx.block_number {
            None => Err(VerificationFailureCause::TaskPending),
            Some(mined_at) => {
                if mined_at > eth_tip {
                    Err(VerificationFailureCause::TaskInFuture)
                } else if eth_tip - mined_at < ETH_CONFIRMATIONS {
                    Err(VerificationFailureCause::TaskUnconfirmed)
                } else {
                    match tx.to {
                        None => Err(VerificationFailureCause::MissingReceiver),
                        Some(receiver) => {
                            if receiver@ != contract {
                                Err(VerificationFailureCause::IncorrectContract)
                            } else if tx.input@.len() < 4 {
                                Err(VerificationFailureCause::AbiMismatch)
                            } else {
                                match ethless_args_of(tx.input@.skip(4)) {
                                    None => Err(VerificationFailureCause::AbiMismatch),
                                    Some(args) => {
                                        if args.from != from {
                                            Err(VerificationFailureCause::IncorrectSender)
                                        } else if args.to != to {
                                            Err(VerificationFailureCause::IncorrectReceiver)
                                        } else if args.value != u256_be_s(amount) {
                                            Err(VerificationFailureCause::IncorrectAmount)
                                        } else if args.nonce != nonce {
                                            Err(VerificationFailureCause::IncorrectNonce)
                                        } else {
                                            Ok(())
                                        }
                                    },
                                }
                            }
                        },
                    }
                }
            },
        }
    }
}

/// Validates a claimed ethless transfer against fetched evidence: the
/// receipt must report success, the transaction must be mined at least
/// `ETH_CONFIRMATIONS` blocks below the tip and no deeper than the tip, its
/// recipient must be the expected contract, and its input must decode under
/// the ethless ABI to exactly the claimed sender, receiver, amount and
/// nonce.
pub fn validate_ethless_transfer(
    from: &Vec<u8>,
    to: &Vec<u8>,
    contract: &Vec<u8>,
    amount: u128,
    tx: &FetchedTransaction,
    eth_tip: u64,
    nonce: &Vec<u8>,
) -> (r: Result<(), VerificationFailureCause>)
    ensures
        r == validate_ethless_outcome(from@, to@, contract@, amount, *tx, eth_tip, nonce@),
{
    if !tx.receipt_success {
        return Err(VerificationFailureCause::TaskFailed);
    }
    let mined_at = match tx.block_number {
        None => {
            return Err(VerificationFailureCause::TaskPending);
        },
        Some(b) => b,
    };
    if mined_at > eth_tip {
        return Err(VerificationFailureCause::TaskInFuture);
    }
    if eth_tip - mined_at < ETH_CONFIRMATIONS {
        return Err(VerificationFailureCause::TaskUnconfirmed);
    }
    let receiver = match &tx.to {
        None => {
            return Err(VerificationFailureCause::MissingReceiver);
        },
        Some(t) => t,
    };
    if !crate::util::bytes_eq(receiver, contract) {
        return Err(VerificationFailureCause::IncorrectContract);
    }
    if tx.input.len() < 4 {
        return Err(VerificationFailureCause::AbiMismatch);
    }
    let mut tail: Vec<u8> = Vec::new();
    let n = tx.input.len();
    let mut i: usize = 4;
    while i < n
        invariant
            4 <= i <= n,
            n == tx.input@.len(),
            tail@ == tx.input@.subrange(4, i as int),
        decreases n - i,
    {
        tail.push(tx.input[i]);
        assert(tail@ =~= tx.input@.subrange(4, i + 1));
        i += 1;
    }
    assert(tail@ =~= tx.input@.skip(4));
    let args = match decode_ethless_args(&tail) {
        None => {
            return Err(VerificationFailureCause::AbiMismatch);
        },
        Some(a) => a,
    };
    if !crate::util::bytes_eq(&args.from, from) {
        return Err(VerificationFailureCause::IncorrectSender);
    }
    if !crate::util::bytes_eq(&args.to, to) {
        return Err(VerificationFailureCause::IncorrectReceiver);
    }
    let expected_value = u256_be(amount);
    if !crate::util::bytes_eq(&args.value, &expected_value) {
        return Err(VerificationFailureCause::IncorrectAmount);
    }
    if !crate::util::bytes_eq(&args.nonce, nonce) {
        return Err(VerificationFailureCause::IncorrectNonce);
    }
    Ok(())
}

/// The transfer kinds the legacy claim format can carry.
#[derive(Debug)]
pub enum LegacyTransferKind {
    Native,
    Erc20(Vec<u8>),
    Ethless(Vec<u8>),
    Other(Vec<u8>),
}

/// A currency descriptor for an EVM chain: its ethless contract and the
/// chain id the RPC endpoint must report.
#[derive(Debug)]
pub struct EvmCurrency {
    pub contract: Vec<u8>,
    pub chain_id: u64,
}

/// What a claim asks the oracle to check: either a legacy transfer kind or
/// a currency descriptor.
#[derive(Debug)]
pub enum CurrencyOrLegacyTransferKind {
    TransferKind(LegacyTransferKind),
    Currency(EvmCurrency),
}

/// The parameters of an ethless check once the claim kind is resolved.
#[derive(Debug)]
pub struct EthlessCheck {
    pub contract: Vec<u8>,
    pub chain_id: Option<u64>,
}

/// What resolving a claim kind yields: only ethless transfers can be
/// verified; every other legacy kind is unsupported.
pub open spec fn ethless_check_outcome(kind: CurrencyOrLegacyTransferKind) -> Result<
    (Seq<u8>, Option<u64>),
    VerificationFailureCause,
> {
    match kind {
        CurrencyOrLegacyTransferKind::TransferKind(legacy) => match legacy {
            LegacyTransferKind::Ethless(contract) => Ok((contract@, None)),
            _ => Err(VerificationFailureCause::UnsupportedMethod),
        },
        CurrencyOrLegacyTransferKind::Currency(currency) => Ok(
            (currency.contract@, Some(currency.chain_id)),
        ),
    }
}

/// Resolves what a claim asks to be checked: the contract to hold the
/// transaction against, and the chain id to demand of the RPC endpoint, if
/// the currency declares one.
pub fn resolve_ethless_check(kind: CurrencyOrLegacyTransferKind) -> (r: Result<
    EthlessCheck,
    VerificationFailureCause,
>)
    ensures
        match r {
            Ok(c) => ethless_check_outcome(kind) == Ok::<(Seq<u8>, Option<u64>),
                VerificationFailureCause,
            >((c.contract@, c.chain_id)),
            Err(e) => ethless_check_outcome(kind) == Err::<(Seq<u8>, Option<u64>),
                VerificationFailureCause,
            >(e),
        },
{
    match kind {
        CurrencyOrLegacyTransferKind::TransferKind(legacy) => match legacy {
            LegacyTransferKind::Ethless(contract) => Ok(
                EthlessCheck { contract, chain_id: None },
            ),
            _ => Err(VerificationFailureCause::UnsupportedMethod),
        },
        CurrencyOrLegacyTransferKind::Currency(currency) => Ok(
            EthlessCheck { contract: currency.contract, chain_id: Some(currency.chain_id) },
        ),
    }
}

/// Holds the chain id an RPC endpoint reports against the one the currency
/// declares.
pub fn check_chain_id(expected: u64, reported: u64) -> (r: Result<
    (),
    VerificationFailureCause,
>)
    ensures
        r == if expected == reported {
            Ok::<(), VerificationFailureCause>(())
        } else {
            Err::<(), VerificationFailureCause>(VerificationFailureCause::IncorrectChainId)
        },
{
    if expected == reported {
        Ok(())
    } else {
        Err(VerificationFailureCause::IncorrectChainId)
    }
}

} // verus!
