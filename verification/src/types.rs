//! Data model of the lending ledger.
//!
//! Accounts, external addresses, transaction ids and guids are plain byte
//! vectors; block numbers and timestamps are `u64`; amounts are `u128`.
//! Identifiers of entities bounded by an expiration block carry that block
//! beside the content hash, mirroring the two-level storage keying.

use vstd::prelude::*;

verus! {

/// A local ledger account.
pub type AccountId = Vec<u8>;

/// An account address on an external chain, in that chain's raw byte format.
pub type ExternalAddress = Vec<u8>;

/// A transaction id on an external chain.
pub type ExternalTxId = Vec<u8>;

/// A caller-chosen nonce consumed by ask/bid creation; globally single-use.
pub type Guid = Vec<u8>;

/// The external chains the ledger knows how to address.
#[derive(Clone, Copy, Debug, PartialEq, Eq, Structural)]
pub enum Blockchain {
    Ethereum,
    Rinkeby,
    Luniverse,
    Bitcoin,
}

/// A span of time, seconds plus sub-second nanoseconds.
#[derive(Clone, Copy, Debug, PartialEq, Eq, Structural)]
pub struct Duration {
    pub secs: u64,
    pub nanos: u32,
}

/// How interest accrues over the periods of a loan.
#[derive(Clone, Copy, Debug, PartialEq, Eq, Structural)]
pub enum InterestType {
    Simple,
    Compound,
}

/// An interest rate: `rate_per_period / 10^decimals` per `period`.
#[derive(Clone, Copy, Debug, PartialEq, Eq, Structural)]
pub struct InterestRate {
    pub rate_per_period: u64,
    pub decimals: u64,
    pub period: Duration,
    pub interest_type: InterestType,
}

/// The terms of a loan: principal, interest, and maturity.
#[derive(Clone, Copy, Debug, PartialEq, Eq, Structural)]
pub struct LoanTerms {
    pub amount: u128,
    pub interest_rate: InterestRate,
    pub term_length: Duration,
}

impl Duration {
    /// A zero-length duration is no duration at all.
    pub open spec fn is_zero(self) -> bool {
        self.secs == 0 && self.nanos == 0
    }
}

impl LoanTerms {
    /// Terms are well formed when the loan actually lasts some time.
    pub open spec fn valid(self) -> bool {
        !self.term_length.is_zero()
    }
}

/// Ask terms and bid terms are compatible when they agree on every component:
/// the canonical agreed terms of a matched pair are the common terms.
pub open spec fn terms_match(ask: LoanTerms, bid: LoanTerms) -> bool {
    ask == bid
}

/// Checks `terms_match` executably.
pub fn terms_match_exec(ask: &LoanTerms, bid: &LoanTerms) -> (r: bool)
    ensures
        r == terms_match(*ask, *bid),
{
    *ask == *bid
}

/// The kind of external-chain movement a transfer claims.
#[derive(Clone, Debug, PartialEq, Eq)]
pub enum TransferKind {
    Native,
    Erc20(ExternalAddress),
    Ethless(ExternalAddress),
    Other(Vec<u8>),
}

/// An external address bound to a local owner.
#[derive(Clone, Debug)]
pub struct Address {
    pub blockchain: Blockchain,
    pub value: ExternalAddress,
    pub owner: AccountId,
}

/// Identifier of an ask order: content hash keyed under its expiration block.
#[derive(Clone, Debug, PartialEq, Eq)]
pub struct AskOrderId {
    pub expiration_block: u64,
    pub hash: Vec<u8>,
}

/// Identifier of a bid order.
#[derive(Clone, Debug, PartialEq, Eq)]
pub struct BidOrderId {
    pub expiration_block: u64,
    pub hash: Vec<u8>,
}

/// Identifier of an offer.
#[derive(Clone, Debug, PartialEq, Eq)]
pub struct OfferId {
    pub expiration_block: u64,
    pub hash: Vec<u8>,
}

/// Identifier of a deal order.
#[derive(Clone, Debug, PartialEq, Eq)]
pub struct DealOrderId {
    pub expiration_block: u64,
    pub hash: Vec<u8>,
}

/// A lender's standing offer to issue a loan with certain terms.
#[derive(Debug)]
pub struct AskOrder {
    pub blockchain: Blockchain,
    pub lender_address_id: Vec<u8>,
    pub terms: LoanTerms,
    pub expiration_block: u64,
    pub block: u64,
    pub lender: AccountId,
}

/// A borrower's standing request for a loan with certain terms.
#[derive(Debug)]
pub struct BidOrder {
    pub blockchain: Blockchain,
    pub borrower_address_id: Vec<u8>,
    pub terms: LoanTerms,
    pub expiration_block: u64,
    pub block: u64,
    pub borrower: AccountId,
}

/// A lender's offer to enter a loan with the owner of a matched bid.
#[derive(Debug)]
pub struct Offer {
    pub ask_id: AskOrderId,
    pub bid_id: BidOrderId,
    pub blockchain: Blockchain,
    pub expiration_block: u64,
    pub block: u64,
    pub lender: AccountId,
}

/// The lifecycle position of a deal, with the references each position owns.
///
/// A deal moves along `Open -> Funded -> Locked -> Closed`; `Exempted` is a
/// terminal position reachable from any of the first three when the lender
/// waives repayment.
#[derive(Debug)]
pub enum DealState {
    Open,
    Funded { funding_transfer_id: Vec<u8> },
    Locked { funding_transfer_id: Vec<u8>, lock: AccountId },
    Closed { funding_transfer_id: Vec<u8>, lock: AccountId, repayment_transfer_id: Vec<u8> },
    Exempted {
        funding_transfer_id: Option<Vec<u8>>,
        lock: Option<AccountId>,
        repayment_transfer_id: Vec<u8>,
    },
}

impl DealState {
    /// The funding transfer attached to the deal, if any.
    pub open spec fn funding_of(self) -> Option<Seq<u8>> {
        match self {
            DealState::Open => None,
            DealState::Funded { funding_transfer_id } => Some(funding_transfer_id@),
            DealState::Locked { funding_transfer_id, .. } => Some(funding_transfer_id@),
            DealState::Closed { funding_transfer_id, .. } => Some(funding_transfer_id@),
            DealState::Exempted { funding_transfer_id, .. } => match funding_transfer_id {
                Some(f) => Some(f@),
                None => None,
            },
        }
    }

    /// The account holding the deal's lock, if any.
    pub open spec fn lock_of(self) -> Option<Seq<u8>> {
        match self {
            DealState::Open => None,
            DealState::Funded { .. } => None,
            DealState::Locked { lock, .. } => Some(lock@),
            DealState::Closed { lock, .. } => Some(lock@),
            DealState::Exempted { lock, .. } => match lock {
                Some(a) => Some(a@),
                None => None,
            },
        }
    }

    /// The repayment transfer that closed the deal, if any.
    pub open spec fn repayment_of(self) -> Option<Seq<u8>> {
        match self {
            DealState::Open => None,
            DealState::Funded { .. } => None,
            DealState::Locked { .. } => None,
            DealState::Closed { repayment_transfer_id, .. } => Some(repayment_transfer_id@),
            DealState::Exempted { repayment_transfer_id, .. } => Some(repayment_transfer_id@),
        }
    }

    /// How far along its lifecycle the deal has come; never decreases.
    pub open spec fn rank(self) -> int {
        match self {
            DealState::Open => 0,
            DealState::Funded { .. } => 1,
            DealState::Locked { .. } => 2,
            DealState::Closed { .. } => 3,
            DealState::Exempted { .. } => 3,
        }
    }

    /// A deal is settled once a repayment reference exists; settled deals
    /// accept no further transition.
    pub open spec fn is_settled(self) -> bool {
        self.repayment_of() is Some
    }

    /// Whether a funding transfer is attached.
    pub fn has_funding(&self) -> (r: bool)
        ensures
            r == (self.funding_of() is Some),
    {
        match self {
            DealState::Open => false,
            DealState::Funded { .. } => true,
            DealState::Locked { .. } => true,
            DealState::Closed { .. } => true,
            DealState::Exempted { funding_transfer_id, .. } => funding_transfer_id.is_some(),
        }
    }

    /// Whether the deal is locked.
    pub fn has_lock(&self) -> (r: bool)
        ensures
            r == (self.lock_of() is Some),
    {
        match self {
            DealState::Open => false,
            DealState::Funded { .. } => false,
            DealState::Locked { .. } => true,
            DealState::Closed { .. } => true,
            DealState::Exempted { lock, .. } => lock.is_some(),
        }
    }

    /// Whether the deal is settled (closed or exempted).
    pub fn settled(&self) -> (r: bool)
        ensures
            r == self.is_settled(),
    {
        match self {
            DealState::Open => false,
            DealState::Funded { .. } => false,
            DealState::Locked { .. } => false,
            DealState::Closed { .. } => true,
            DealState::Exempted { .. } => true,
        }
    }

    /// Whether the lender has exempted the deal.
    pub fn exempted(&self) -> (r: bool)
        ensures
            r == ((*self) is Exempted),
    {
        match self {
            DealState::Exempted { .. } => true,
            _ => false,
        }
    }
}

/// A loan agreement created from a matched offer.
#[derive(Debug)]
pub struct DealOrder {
    pub blockchain: Blockchain,
    pub offer_id: OfferId,
    pub lender_address_id: Vec<u8>,
    pub borrower_address_id: Vec<u8>,
    pub terms: LoanTerms,
    pub expiration_block: u64,
    pub block: Option<u64>,
    pub timestamp: u64,
    pub borrower: AccountId,
    pub state: DealState,
}

/// A claimed (and, once verified, recorded) external-chain fund movement.
#[derive(Clone, Debug)]
pub struct Transfer {
    pub blockchain: Blockchain,
    pub kind: TransferKind,
    pub from: Vec<u8>,
    pub to: Vec<u8>,
    pub deal_order_id: DealOrderId,
    pub amount: u128,
    pub tx_id: ExternalTxId,
    pub block: u64,
    pub timestamp: Option<u64>,
    pub account_id: AccountId,
    pub is_processed: bool,
}

/// The standing configuration naming the trusted collection contract.
#[derive(Clone, Debug)]
pub struct CollectCoinsContract {
    pub chain: Blockchain,
    pub address: ExternalAddress,
}

/// A claim that coins were deposited into the collection contract, awaiting
/// oracle confirmation.
#[derive(Debug)]
pub struct UnverifiedCollectedCoins {
    pub to: ExternalAddress,
    pub tx_id: ExternalTxId,
    pub contract_chain: Blockchain,
    pub contract_address: ExternalAddress,
}

/// A confirmed coin collection, minted to the owner of `to`.
#[derive(Clone, Debug)]
pub struct CollectedCoinsStruct {
    pub to: Vec<u8>,
    pub amount: u128,
    pub tx_id: ExternalTxId,
}

/// Why a verification task failed; a closed set, delivered with the failure
/// event rather than as a call error.
#[derive(Clone, Copy, Debug, PartialEq, Eq, Structural)]
pub enum VerificationFailureCause {
    TaskFailed,
    TaskPending,
    TaskInFuture,
    TaskUnconfirmed,
    IncorrectContract,
    MissingReceiver,
    AbiMismatch,
    IncorrectInputLength,
    IncorrectInputType,
    IncorrectSender,
    IncorrectReceiver,
    IncorrectAmount,
    IncorrectNonce,
    IncorrectChainId,
    UnsupportedMethod,
}

/// Everything a ledger call can fail with.
#[derive(Clone, Copy, Debug, PartialEq, Eq, Structural)]
pub enum Error {
    AddressAlreadyRegistered,
    AddressAlreadyRegisteredByCaller,
    NonExistentAddress,
    NonExistentDealOrder,
    NonExistentAskOrder,
    NonExistentBidOrder,
    NonExistentOffer,
    NonExistentTransfer,
    TransferAlreadyRegistered,
    CollectCoinsAlreadyRegistered,
    TransferAccountMismatch,
    TransferDealOrderMismatch,
    TransferAmountMismatch,
    TransferAlreadyProcessed,
    MalformedTransfer,
    UnsupportedTransferKind,
    InsufficientAuthority,
    DuplicateId,
    NotAddressOwner,
    AddressBlockchainMismatch,
    AlreadyAuthority,
    NotAnAuthority,
    DuplicateOffer,
    DealNotFunded,
    DealOrderAlreadyFunded,
    DealOrderAlreadyClosed,
    DealOrderAlreadyLocked,
    DealOrderMustBeLocked,
    DuplicateDealOrder,
    DealOrderExpired,
    AskOrderExpired,
    BidOrderExpired,
    OfferExpired,
    AskBidMismatch,
    SameOwner,
    InvalidSignature,
    NotBorrower,
    MalformedDealOrder,
    NotLender,
    GuidAlreadyUsed,
    InvalidTermLength,
    MalformedExternalAddress,
    AddressFormatNotSupported,
    OwnershipNotSatisfied,
    EthSignExternalAddressGenerationFailed,
    EthSignPublicKeyRecoveryFailed,
    PersonalSignExternalAddressGenerationFailed,
    PersonalSignPublicKeyRecoveryFailed,
    BalanceOverflow,
}

/// A proof that the caller owns an external address, in one of the two
/// signature schemes the registry accepts.
#[derive(Debug)]
pub enum OwnershipProof {
    EthSign(Vec<u8>),
    PersonalSign(Vec<u8>),
}

/// Which blockchains support which transfer kinds: the EVM chains carry
/// native, ERC-20 and ethless movements; Bitcoin only native ones.
pub open spec fn kind_supported(chain: Blockchain, kind: TransferKind) -> bool {
    match chain {
        Blockchain::Ethereum | Blockchain::Rinkeby | Blockchain::Luniverse => !(kind is Other),
        Blockchain::Bitcoin => kind is Native,
    }
}

/// Executable form of `kind_supported`.
pub fn kind_supported_exec(chain: Blockchain, kind: &TransferKind) -> (r: bool)
    ensures
        r == kind_supported(chain, *kind),
{
    match chain {
        Blockchain::Ethereum | Blockchain::Rinkeby | Blockchain::Luniverse => match kind {
            TransferKind::Other(_) => false,
            _ => true,
        },
        Blockchain::Bitcoin => match kind {
            TransferKind::Native => true,
            _ => false,
        },
    }
}

/// A task outcome an authority submits for commitment: the verified entity.
#[derive(Debug)]
pub enum TaskOutput {
    VerifyTransfer { id: Vec<u8>, transfer: Transfer },
    CollectCoins { id: Vec<u8>, coins: CollectedCoinsStruct },
}

/// Which claim a failed verification task was about.
#[derive(Debug)]
pub enum TaskId {
    VerifyTransfer { id: Vec<u8> },
    CollectCoins { id: Vec<u8> },
}

/// One entry of the ledger's append-only event log.
#[derive(Debug, PartialEq, Eq)]
pub enum Event {
    AddressRegistered { address_id: Vec<u8> },
    CollectCoinsRegistered { collected_coins_id: Vec<u8> },
    TransferRegistered { transfer_id: Vec<u8>, amount: u128 },
    TransferVerified { transfer_id: Vec<u8> },
    CollectedCoinsMinted { collected_coins_id: Vec<u8> },
    TransferProcessed { transfer_id: Vec<u8> },
    AskOrderAdded { expiration_block: u64, hash: Vec<u8> },
    BidOrderAdded { expiration_block: u64, hash: Vec<u8> },
    OfferAdded { expiration_block: u64, hash: Vec<u8> },
    DealOrderAdded { expiration_block: u64, hash: Vec<u8> },
    DealOrderFunded { expiration_block: u64, hash: Vec<u8> },
    DealOrderLocked { expiration_block: u64, hash: Vec<u8> },
    DealOrderClosed { expiration_block: u64, hash: Vec<u8> },
    LoanExempted { expiration_block: u64, hash: Vec<u8> },
    TransferFailedVerification { transfer_id: Vec<u8>, cause: VerificationFailureCause },
    CollectCoinsFailedVerification { collected_coins_id: Vec<u8>, cause: VerificationFailureCause },
}

} // verus!
