use creditcoin::ids;
use creditcoin::ledger::Ledger;
use creditcoin::orders::deal_order_message;
use creditcoin::types::{
    Blockchain, CollectCoinsContract, DealState, Duration, Error, InterestRate, InterestType,
    LoanTerms, OwnershipProof,
};
use sp_core::crypto::Pair;

fn new_ledger() -> Ledger {
    Ledger::new(CollectCoinsContract { chain: Blockchain::Rinkeby, address: vec![0xcc; 20] })
}

fn test_terms(amount: u128) -> LoanTerms {
    LoanTerms {
        amount,
        interest_rate: InterestRate {
            rate_per_period: 10,
            decimals: 4,
            period: Duration { secs: 3600, nanos: 0 },
            interest_type: InterestType::Simple,
        },
        term_length: Duration { secs: 86400, nanos: 0 },
    }
}

fn keypair(seed: u8) -> sp_core::ecdsa::Pair {
    sp_core::ecdsa::Pair::from_seed(&[seed; 32])
}

/// The EVM address belonging to a compressed public key.
fn eth_address(pair: &sp_core::ecdsa::Pair) -> Vec<u8> {
    let compressed = pair.public().0;
    let uncompressed =
        secp256k1::PublicKey::from_slice(&compressed).expect("valid key").serialize_uncompressed();
    let digest = sp_crypto_hashing::keccak_256(&uncompressed[1..]);
    digest[12..].to_vec()
}

fn sign_prehashed(pair: &sp_core::ecdsa::Pair, msg: &[u8]) -> Vec<u8> {
    let mut m = [0u8; 32];
    m.copy_from_slice(msg);
    pair.sign_prehashed(&m).0.to_vec()
}

/// The legacy signed message, computed independently of the library.
fn ethsign_message(account: &[u8]) -> Vec<u8> {
    sp_crypto_hashing::blake2_256(&sp_crypto_hashing::sha2_256(account)).to_vec()
}

/// The newer signed message, computed independently of the library.
fn personal_sign_message(account: &[u8]) -> Vec<u8> {
    let mut prefixed = b"\x19Ethereum Signed Message:\n32".to_vec();
    prefixed.extend_from_slice(&sp_crypto_hashing::sha2_256(account));
    sp_crypto_hashing::keccak_256(&prefixed).to_vec()
}

#[test]
fn register_address_accepts_a_valid_ownership_proof() {
    let mut l = new_ledger();
    let who = vec![0x07; 32];
    let pair = keypair(42);
    let address = eth_address(&pair);

    let message = ethsign_message(&who);
    let proof = sign_prehashed(&pair, &message);

    assert_eq!(
        l.register_address(who.clone(), Blockchain::Ethereum, address.clone(), proof.clone()),
        Ok(())
    );
    assert_eq!(l.addresses.len(), 1);
    assert_eq!(l.addresses[0].address.owner, who);
    assert_eq!(l.addresses[0].address.value, address);
    assert_eq!(l.addresses[0].id, ids::address_id(Blockchain::Ethereum, &address));

    // Registering the same pair again names the caller in the error.
    assert_eq!(
        l.register_address(who.clone(), Blockchain::Ethereum, address.clone(), proof.clone()),
        Err(Error::AddressAlreadyRegisteredByCaller)
    );
    // Another caller cannot take the pair over; their proof recovers a key
    // implying a different address.
    let other = vec![0x08; 32];
    let other_proof = sign_prehashed(&keypair(43), &ethsign_message(&other));
    assert_eq!(
        l.register_address(other, Blockchain::Ethereum, address, other_proof),
        Err(Error::OwnershipNotSatisfied)
    );
}

#[test]
fn register_address_rejects_a_mismatched_address() {
    let mut l = new_ledger();
    let who = vec![0x07; 32];
    let pair = keypair(42);
    let mut address = eth_address(&pair);
    address[0] ^= 0xff;

    let proof = sign_prehashed(&pair, &ethsign_message(&who));
    assert_eq!(
        l.register_address(who.clone(), Blockchain::Ethereum, address, proof),
        Err(Error::OwnershipNotSatisfied)
    );
    assert_eq!(l.addresses.len(), 0);

    // A proof that is not even a signature is rejected earlier.
    assert_eq!(
        l.register_address(who.clone(), Blockchain::Ethereum, eth_address(&pair), vec![1, 2, 3]),
        Err(Error::InvalidSignature)
    );
    // Bitcoin addresses cannot be derived from a recovered key.
    let proof = sign_prehashed(&pair, &ethsign_message(&who));
    assert_eq!(
        l.register_address(who, Blockchain::Bitcoin, eth_address(&pair), proof),
        Err(Error::AddressFormatNotSupported)
    );
}

#[test]
fn register_address_v2_accepts_both_proof_schemes() {
    let mut l = new_ledger();
    let who = vec![0x07; 32];
    let pair = keypair(42);
    let address = eth_address(&pair);

    let legacy = sign_prehashed(&pair, &ethsign_message(&who));
    assert_eq!(
        l.register_address_v2(
            who.clone(),
            Blockchain::Ethereum,
            address.clone(),
            OwnershipProof::EthSign(legacy),
        ),
        Ok(())
    );

    let who2 = vec![0x08; 32];
    let pair2 = keypair(43);
    let address2 = eth_address(&pair2);
    let personal = sign_prehashed(&pair2, &personal_sign_message(&who2));
    assert_eq!(
        l.register_address_v2(
            who2,
            Blockchain::Rinkeby,
            address2,
            OwnershipProof::PersonalSign(personal),
        ),
        Ok(())
    );
    assert_eq!(l.addresses.len(), 2);
}

#[test]
fn register_address_v2_distinguishes_scheme_failures() {
    let mut l = new_ledger();
    let who = vec![0x07; 32];
    let pair = keypair(42);
    let address = eth_address(&pair);

    // A signature under the wrong scheme recovers a different key, so the
    // implied address cannot match.
    let wrong_scheme = sign_prehashed(&pair, &ethsign_message(&who));
    assert_eq!(
        l.register_address_v2(
            who.clone(),
            Blockchain::Ethereum,
            address.clone(),
            OwnershipProof::PersonalSign(wrong_scheme),
        ),
        Err(Error::OwnershipNotSatisfied)
    );
    // A malformed signature fails recovery with the scheme's own error.
    assert_eq!(
        l.register_address_v2(
            who.clone(),
            Blockchain::Ethereum,
            address.clone(),
            OwnershipProof::EthSign(vec![0; 3]),
        ),
        Err(Error::EthSignPublicKeyRecoveryFailed)
    );
    assert_eq!(
        l.register_address_v2(
            who,
            Blockchain::Ethereum,
            address,
            OwnershipProof::PersonalSign(vec![0; 3]),
        ),
        Err(Error::PersonalSignPublicKeyRecoveryFailed)
    );
}

#[test]
fn register_deal_order_creates_all_four_entities_atomically() {
    let mut l = new_ledger();
    let lender = vec![0x01; 32];
    let borrower_pair = keypair(43);
    let borrower_key = borrower_pair.public().0.to_vec();
    let borrower_account = sp_crypto_hashing::blake2_256(&borrower_key).to_vec();

    // Both parties register their addresses first.
    let lender_pair = keypair(42);
    let lender_eth = eth_address(&lender_pair);
    let proof = sign_prehashed(&lender_pair, &ethsign_message(&lender));
    assert_eq!(
        l.register_address(lender.clone(), Blockchain::Ethereum, lender_eth.clone(), proof),
        Ok(())
    );
    let borrower_eth = eth_address(&borrower_pair);
    let proof = sign_prehashed(&borrower_pair, &ethsign_message(&borrower_account));
    assert_eq!(
        l.register_address(
            borrower_account.clone(),
            Blockchain::Ethereum,
            borrower_eth.clone(),
            proof,
        ),
        Ok(())
    );
    let lender_address_id = ids::address_id(Blockchain::Ethereum, &lender_eth);
    let borrower_address_id = ids::address_id(Blockchain::Ethereum, &borrower_eth);

    let terms = test_terms(250);
    let ask_guid = b"ask-guid".to_vec();
    let bid_guid = b"bid-guid".to_vec();
    let message = deal_order_message(90, &ask_guid, &bid_guid, &terms);
    let signature = borrower_pair.sign(&message).0.to_vec();

    // A signature over different terms does not authorize this call.
    let bad_message = deal_order_message(91, &ask_guid, &bid_guid, &terms);
    let bad_signature = borrower_pair.sign(&bad_message).0.to_vec();
    assert_eq!(
        l.register_deal_order(
            lender.clone(),
            lender_address_id.clone(),
            borrower_address_id.clone(),
            terms,
            90,
            ask_guid.clone(),
            bid_guid.clone(),
            borrower_key.clone(),
            bad_signature,
            10,
            1000,
        ),
        Err(Error::InvalidSignature)
    );
    assert_eq!(l.ask_orders.len(), 0);
    assert_eq!(l.deal_orders.len(), 0);

    assert_eq!(
        l.register_deal_order(
            lender,
            lender_address_id,
            borrower_address_id,
            terms,
            90,
            ask_guid,
            bid_guid,
            borrower_key,
            signature,
            10,
            1000,
        ),
        Ok(())
    );
    assert_eq!(l.ask_orders.len(), 1);
    assert_eq!(l.bid_orders.len(), 1);
    assert_eq!(l.offers.len(), 1);
    assert_eq!(l.deal_orders.len(), 1);
    assert_eq!(l.deal_orders[0].deal.terms.amount, 250);
    assert_eq!(l.deal_orders[0].deal.borrower, borrower_account);
    assert!(matches!(l.deal_orders[0].deal.state, DealState::Open));
}
