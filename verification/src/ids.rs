//! Content-addressed identifier derivation.
//!
//! `id = blake2(tag ++ canonical_encoding(fields))`: deterministic by
//! construction, and order-sensitive because the encoding is a fixed sequence
//! of length-prefixed fields.  A distinct leading tag per entity kind keeps
//! the encoding domains of different kinds apart.

use vstd::prelude::*;

use crate::encode;
use crate::encode::{enc_bytes_s, enc_u64_s};
use crate::hashing;
use crate::hashing::blake2_of;
use crate::types::Blockchain;

verus! {

pub const TAG_ADDRESS: u8 = 1;

pub const TAG_ASK_ORDER: u8 = 2;

pub const TAG_BID_ORDER: u8 = 3;

pub const TAG_OFFER: u8 = 4;

pub const TAG_DEAL_ORDER: u8 = 5;

pub const TAG_TRANSFER: u8 = 6;

pub const TAG_COLLECTED_COINS: u8 = 7;

/// A one-byte tag for each external chain, used inside canonical encodings.
pub open spec fn chain_tag(c: Blockchain) -> u8 {
    match c {
        Blockchain::Ethereum => 0,
        Blockchain::Rinkeby => 1,
        Blockchain::Luniverse => 2,
        Blockchain::Bitcoin => 3,
    }
}

/// Executable form of `chain_tag`.
pub fn chain_tag_exec(c: Blockchain) -> (r: u8)
    ensures
        r == chain_tag(c),
{
    match c {
        Blockchain::Ethereum => 0,
        Blockchain::Rinkeby => 1,
        Blockchain::Luniverse => 2,
        Blockchain::Bitcoin => 3,
    }
}

/// Canonical encoding whose hash identifies an address: chain and value.
pub open spec fn address_id_enc(chain: Blockchain, value: Seq<u8>) -> Seq<u8> {
    seq![TAG_ADDRESS, chain_tag(chain)] + enc_bytes_s(value)
}

/// The identifier of an address registration.
pub open spec fn address_id_of(chain: Blockchain, value: Seq<u8>) -> Seq<u8> {
    blake2_of(address_id_enc(chain, value))
}

/// Canonical encoding whose hash identifies an ask order: its expiration
/// block and the creator's guid.
pub open spec fn ask_order_enc(expiration_block: u64, guid: Seq<u8>) -> Seq<u8> {
    seq![TAG_ASK_ORDER] + enc_u64_s(expiration_block) + enc_bytes_s(guid)
}

/// The content-hash half of an ask order's identifier.
pub open spec fn ask_order_hash_of(expiration_block: u64, guid: Seq<u8>) -> Seq<u8> {
    blake2_of(ask_order_enc(expiration_block, guid))
}

/// Canonical encoding whose hash identifies a bid order.
pub open spec fn bid_order_enc(expiration_block: u64, guid: Seq<u8>) -> Seq<u8> {
    seq![TAG_BID_ORDER] + enc_u64_s(expiration_block) + enc_bytes_s(guid)
}

/// The content-hash half of a bid order's identifier.
pub open spec fn bid_order_hash_of(expiration_block: u64, guid: Seq<u8>) -> Seq<u8> {
    blake2_of(bid_order_enc(expiration_block, guid))
}

/// Canonical encoding whose hash identifies an offer: its expiration block
/// and the full identifiers (expiration and hash) of the matched ask and bid.
pub open spec fn offer_enc(
    expiration_block: u64,
    ask_exp: u64,
    ask_hash: Seq<u8>,
    bid_exp: u64,
    bid_hash: Seq<u8>,
) -> Seq<u8> {
    seq![TAG_OFFER] + enc_u64_s(expiration_block) + enc_u64_s(ask_exp) + enc_bytes_s(ask_hash)
        + enc_u64_s(bid_exp) + enc_bytes_s(bid_hash)
}

/// The content-hash half of an offer's identifier.
pub open spec fn offer_hash_of(
    expiration_block: u64,
    ask_exp: u64,
    ask_hash: Seq<u8>,
    bid_exp: u64,
    bid_hash: Seq<u8>,
) -> Seq<u8> {
    blake2_of(offer_enc(expiration_block, ask_exp, ask_hash, bid_exp, bid_hash))
}

/// Canonical encoding whose hash identifies a deal order: its expiration
/// block and the full identifier of the offer it consumes.
pub open spec fn deal_order_enc(expiration_block: u64, offer_exp: u64, offer_hash: Seq<u8>) -> Seq<
    u8,
> {
    seq![TAG_DEAL_ORDER] + enc_u64_s(expiration_block) + enc_u64_s(offer_exp) + enc_bytes_s(
        offer_hash,
    )
}

/// The content-hash half of a deal order's identifier.
pub open spec fn deal_order_hash_of(expiration_block: u64, offer_exp: u64, offer_hash: Seq<u8>) -> Seq<
    u8,
> {
    blake2_of(deal_order_enc(expiration_block, offer_exp, offer_hash))
}

/// Canonical encoding whose hash identifies a transfer: the chain and the
/// external transaction id.
pub open spec fn transfer_id_enc(chain: Blockchain, tx_id: Seq<u8>) -> Seq<u8> {
    seq![TAG_TRANSFER, chain_tag(chain)] + enc_bytes_s(tx_id)
}

/// The identifier of a transfer.
pub open spec fn transfer_id_of(chain: Blockchain, tx_id: Seq<u8>) -> Seq<u8> {
    blake2_of(transfer_id_enc(chain, tx_id))
}

/// Canonical encoding whose hash identifies a coin-collection claim: the
/// receiving external address, the transaction, and the contract watched.
pub open spec fn collected_coins_enc(
    to: Seq<u8>,
    tx_id: Seq<u8>,
    contract_chain: Blockchain,
    contract_address: Seq<u8>,
) -> Seq<u8> {
    seq![TAG_COLLECTED_COINS, chain_tag(contract_chain)] + enc_bytes_s(to) + enc_bytes_s(tx_id)
        + enc_bytes_s(contract_address)
}

/// The identifier of a coin-collection claim.
pub open spec fn collected_coins_id_of(
    to: Seq<u8>,
    tx_id: Seq<u8>,
    contract_chain: Blockchain,
    contract_address: Seq<u8>,
) -> Seq<u8> {
    blake2_of(collected_coins_enc(to, tx_id, contract_chain, contract_address))
}

/// Derives an address identifier.
pub fn address_id(chain: Blockchain, value: &Vec<u8>) -> (r: Vec<u8>)
    ensures
        r@ == address_id_of(chain, value@),
        r@.len() == 32,
{
    let mut buf: Vec<u8> = Vec::new();
    buf.push(TAG_ADDRESS);
    buf.push(chain_tag_exec(chain));
    encode::enc_bytes(value, &mut buf);
    proof {
        assert(buf@ =~= address_id_enc(chain, value@));
    }
    hashing::blake2_256(&buf)
}

/// Derives the content hash of an ask order id.
pub fn ask_order_hash(expiration_block: u64, guid: &Vec<u8>) -> (r: Vec<u8>)
    ensures
        r@ == ask_order_hash_of(expiration_block, guid@),
        r@.len() == 32,
{
    let mut buf: Vec<u8> = Vec::new();
    buf.push(TAG_ASK_ORDER);
    encode::enc_u64(expiration_block, &mut buf);
    encode::enc_bytes(guid, &mut buf);
    proof {
        assert(buf@ =~= ask_order_enc(expiration_block, guid@));
    }
    hashing::blake2_256(&buf)
}

/// Derives the content hash of a bid order id.
pub fn bid_order_hash(expiration_block: u64, guid: &Vec<u8>) -> (r: Vec<u8>)
    ensures
        r@ == bid_order_hash_of(expiration_block, guid@),
        r@.len() == 32,
{
    let mut buf: Vec<u8> = Vec::new();
    buf.push(TAG_BID_ORDER);
    encode::enc_u64(expiration_block, &mut buf);
    encode::enc_bytes(guid, &mut buf);
    proof {
        assert(buf@ =~= bid_order_enc(expiration_block, guid@));
    }
    hashing::blake2_256(&buf)
}

/// Derives the content hash of an offer id.
pub fn offer_hash(
    expiration_block: u64,
    ask_exp: u64,
    ask_hash: &Vec<u8>,
    bid_exp: u64,
    bid_hash: &Vec<u8>,
) -> (r: Vec<u8>)
    ensures
        r@ == offer_hash_of(expiration_block, ask_exp, ask_hash@, bid_exp, bid_hash@),
        r@.len() == 32,
{
    let mut buf: Vec<u8> = Vec::new();
    buf.push(TAG_OFFER);
    encode::enc_u64(expiration_block, &mut buf);
    encode::enc_u64(ask_exp, &mut buf);
    encode::enc_bytes(ask_hash, &mut buf);
    encode::enc_u64(bid_exp, &mut buf);
    encode::enc_bytes(bid_hash, &mut buf);
    proof {
        assert(buf@ =~= offer_enc(expiration_block, ask_exp, ask_hash@, bid_exp, bid_hash@));
    }
    hashing::blake2_256(&buf)
}

/// Derives the content hash of a deal order id.
pub fn deal_order_hash(expiration_block: u64, offer_exp: u64, offer_hash: &Vec<u8>) -> (r: Vec<
    u8,
>)
    ensures
        r@ == deal_order_hash_of(expiration_block, offer_exp, offer_hash@),
        r@.len() == 32,
{
    let mut buf: Vec<u8> = Vec::new();
    buf.push(TAG_DEAL_ORDER);
    encode::enc_u64(expiration_block, &mut buf);
    encode::enc_u64(offer_exp, &mut buf);
    encode::enc_bytes(offer_hash, &mut buf);
    proof {
        assert(buf@ =~= deal_order_enc(expiration_block, offer_exp, offer_hash@));
    }
    hashing::blake2_256(&buf)
}

/// Derives a transfer identifier.
pub fn transfer_id(chain: Blockchain, tx_id: &Vec<u8>) -> (r: Vec<u8>)
    ensures
        r@ == transfer_id_of(chain, tx_id@),
        r@.len() == 32,
{
    let mut buf: Vec<u8> = Vec::new();
    buf.push(TAG_TRANSFER);
    buf.push(chain_tag_exec(chain));
    encode::enc_bytes(tx_id, &mut buf);
    proof {
        assert(buf@ =~= transfer_id_enc(chain, tx_id@));
    }
    hashing::blake2_256(&buf)
}

/// Derives a coin-collection claim identifier.
pub fn collected_coins_id(
    to: &Vec<u8>,
    tx_id: &Vec<u8>,
    contract_chain: Blockchain,
    contract_address: &Vec<u8>,
) -> (r: Vec<u8>)
    ensures
        r@ == collected_coins_id_of(to@, tx_id@, contract_chain, contract_address@),
        r@.len() == 32,
{
    let mut buf: Vec<u8> = Vec::new();
    buf.push(TAG_COLLECTED_COINS);
    buf.push(chain_tag_exec(contract_chain));
    encode::enc_bytes(to, &mut buf);
    encode::enc_bytes(tx_id, &mut buf);
    encode::enc_bytes(contract_address, &mut buf);
    proof {
        assert(buf@ =~= collected_coins_enc(to@, tx_id@, contract_chain, contract_address@));
    }
    hashing::blake2_256(&buf)
}

/// Two ask orders encode to the same bytes only if they agree on expiration
/// block and guid: an id collision between distinct ask orders would require
/// a hash collision, never an encoding collision.
pub proof fn lemma_ask_order_enc_injective(e1: u64, g1: Seq<u8>, e2: u64, g2: Seq<u8>)
    requires
        g1.len() <= u64::MAX,
        g2.len() <= u64::MAX,
        ask_order_enc(e1, g1) == ask_order_enc(e2, g2),
    ensures
        e1 == e2,
        g1 == g2,
{
    let s1 = ask_order_enc(e1, g1);
    let s2 = ask_order_enc(e2, g2);
    let t1 = enc_u64_s(e1) + (enc_bytes_s(g1) + Seq::<u8>::empty());
    let t2 = enc_u64_s(e2) + (enc_bytes_s(g2) + Seq::<u8>::empty());
    assert(t1 =~= s1.drop_first());
    assert(t2 =~= s2.drop_first());
    encode::lemma_enc_u64_prefix_free(
        e1,
        enc_bytes_s(g1) + Seq::<u8>::empty(),
        e2,
        enc_bytes_s(g2) + Seq::<u8>::empty(),
    );
    encode::lemma_enc_bytes_prefix_free(g1, Seq::<u8>::empty(), g2, Seq::<u8>::empty());
}

/// The encoding identifying an offer is likewise injective in all five of
/// its fields.
pub proof fn lemma_offer_enc_injective(
    e1: u64,
    ae1: u64,
    a1: Seq<u8>,
    be1: u64,
    b1: Seq<u8>,
    e2: u64,
    ae2: u64,
    a2: Seq<u8>,
    be2: u64,
    b2: Seq<u8>,
)
    requires
        a1.len() <= u64::MAX,
        a2.len() <= u64::MAX,
        b1.len() <= u64::MAX,
        b2.len() <= u64::MAX,
        offer_enc(e1, ae1, a1, be1, b1) == offer_enc(e2, ae2, a2, be2, b2),
    ensures
        e1 == e2,
        ae1 == ae2,
        a1 == a2,
        be1 == be2,
        b1 == b2,
{
    let s1 = offer_enc(e1, ae1, a1, be1, b1);
    let s2 = offer_enc(e2, ae2, a2, be2, b2);
    let t1 = enc_u64_s(e1) + (enc_u64_s(ae1) + (enc_bytes_s(a1) + (enc_u64_s(be1) + enc_bytes_s(
        b1,
    ))));
    let t2 = enc_u64_s(e2) + (enc_u64_s(ae2) + (enc_bytes_s(a2) + (enc_u64_s(be2) + enc_bytes_s(
        b2,
    ))));
    assert(t1 =~= s1.drop_first());
    assert(t2 =~= s2.drop_first());
    encode::lemma_enc_u64_prefix_free(
        e1,
        enc_u64_s(ae1) + (enc_bytes_s(a1) + (enc_u64_s(be1) + enc_bytes_s(b1))),
        e2,
        enc_u64_s(ae2) + (enc_bytes_s(a2) + (enc_u64_s(be2) + enc_bytes_s(b2))),
    );
    encode::lemma_enc_u64_prefix_free(
        ae1,
        enc_bytes_s(a1) + (enc_u64_s(be1) + enc_bytes_s(b1)),
        ae2,
        enc_bytes_s(a2) + (enc_u64_s(be2) + enc_bytes_s(b2)),
    );
    encode::lemma_enc_bytes_prefix_free(
        a1,
        enc_u64_s(be1) + enc_bytes_s(b1),
        a2,
        enc_u64_s(be2) + enc_bytes_s(b2),
    );
    encode::lemma_enc_u64_prefix_free(be1, enc_bytes_s(b1), be2, enc_bytes_s(b2));
    assert(enc_bytes_s(b1) + Seq::<u8>::empty() =~= enc_bytes_s(b1));
    assert(enc_bytes_s(b2) + Seq::<u8>::empty() =~= enc_bytes_s(b2));
    encode::lemma_enc_bytes_prefix_free(b1, Seq::<u8>::empty(), b2, Seq::<u8>::empty());
}

} // verus!
