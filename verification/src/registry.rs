//! The address registry: binding an external-chain address to a local
//! account, gated by a cryptographic proof of ownership.
//!
//! Two proof schemes are accepted and kept distinct for compatibility with
//! already-issued signatures: the legacy scheme signs the double digest
//! `blake2(sha2(account))`, the newer one signs the keccak digest of the
//! sha2 account digest under an Ethereum signed-message prefix.

use vstd::prelude::*;

use crate::crypto;
use crate::hashing;
use crate::ids;
use crate::ledger::{find_entry, find_index, lemma_find_push, AddressEntry, Ledger};
use crate::types::{
    AccountId, Address, Blockchain, Error, Event, ExternalAddress, OwnershipProof,
};
use crate::util;

verus! {

/// The message signed under the legacy scheme: `blake2(sha2(account))`.
pub open spec fn ethsign_message_of(account: Seq<u8>) -> Seq<u8> {
    hashing::blake2_of(hashing::sha2_of(account))
}

/// The prefix of an Ethereum signed message over a 32-byte payload.
pub open spec fn personal_prefix() -> Seq<u8> {
    seq![
        0x19u8, 0x45u8, 0x74u8, 0x68u8, 0x65u8, 0x72u8, 0x65u8, 0x75u8, 0x6du8, 0x20u8, 0x53u8,
        0x69u8, 0x67u8, 0x6eu8, 0x65u8, 0x64u8, 0x20u8, 0x4du8, 0x65u8, 0x73u8, 0x73u8, 0x61u8,
        0x67u8, 0x65u8, 0x3au8, 0x0au8, 0x33u8, 0x32u8,
    ]
}

/// The message signed under the newer scheme: the keccak digest of the
/// prefixed sha2 account digest.
pub open spec fn personal_sign_message_of(account: Seq<u8>) -> Seq<u8> {
    hashing::keccak_of(personal_prefix() + hashing::sha2_of(account))
}

/// The external address implied by a recovered public key on an EVM-style
/// chain: the last 20 bytes of the keccak digest of the decompressed key.
pub open spec fn eth_address_of(key: Seq<u8>) -> Option<Seq<u8>> {
    match crypto::decompressed_key_of(key) {
        Some(u) => Some(hashing::keccak_of(u).subrange(12, 32)),
        None => None,
    }
}

/// The external address implied by a recovered public key, per chain
/// format; Bitcoin addresses cannot be derived this way.
pub open spec fn external_address_of(chain: Blockchain, key: Seq<u8>) -> Option<Seq<u8>> {
    match chain {
        Blockchain::Bitcoin => None,
        _ => eth_address_of(key),
    }
}

/// Whether an external address is plausible for its chain: EVM addresses
/// are exactly 20 bytes; Bitcoin addresses between 1 and 64.
pub open spec fn address_well_formed(chain: Blockchain, value: Seq<u8>) -> bool {
    match chain {
        Blockchain::Bitcoin => 1 <= value.len() <= 64,
        _ => value.len() == 20,
    }
}

/// Executable form of `address_well_formed`.
pub fn address_is_well_formed(chain: Blockchain, value: &ExternalAddress) -> (r: bool)
    ensures
        r == address_well_formed(chain, value@),
{
    match chain {
        Blockchain::Bitcoin => 1 <= value.len() && value.len() <= 64,
        _ => value.len() == 20,
    }
}

/// Builds the legacy signed message for an account.
pub fn ethsign_message(account: &AccountId) -> (r: Vec<u8>)
    ensures
        r@ == ethsign_message_of(account@),
        r@.len() == 32,
{
    let inner = hashing::sha2_256(account);
    hashing::blake2_256(&inner)
}

/// Builds the newer signed message for an account.
pub fn personal_sign_message(account: &AccountId) -> (r: Vec<u8>)
    ensures
        r@ == personal_sign_message_of(account@),
        r@.len() == 32,
{
    let inner = hashing::sha2_256(account);
    let mut buf: Vec<u8> = Vec::new();
    buf.push(0x19u8);
    buf.push(0x45u8);
    buf.push(0x74u8);
    buf.push(0x68u8);
    buf.push(0x65u8);
    buf.push(0x72u8);
    buf.push(0x65u8);
    buf.push(0x75u8);
    buf.push(0x6du8);
    buf.push(0x20u8);
    buf.push(0x53u8);
    buf.push(0x69u8);
    buf.push(0x67u8);
    buf.push(0x6eu8);
    buf.push(0x65u8);
    buf.push(0x64u8);
    buf.push(0x20u8);
    buf.push(0x4du8);
    buf.push(0x65u8);
    buf.push(0x73u8);
    buf.push(0x73u8);
    buf.push(0x61u8);
    buf.push(0x67u8);
    buf.push(0x65u8);
    buf.push(0x3au8);
    buf.push(0x0au8);
    buf.push(0x33u8);
    buf.push(0x32u8);
    assert(buf@ =~= personal_prefix());
    let n = inner.len();
    let mut i: usize = 0;
    while i < n
        invariant
            n == inner@.len(),
            0 <= i <= n,
            buf@ == personal_prefix() + inner@.subrange(0, i as int),
        decreases n - i,
    {
        buf.push(inner[i]);
        assert(buf@ =~= personal_prefix() + inner@.subrange(0, i + 1));
        i += 1;
    }
    assert(buf@ =~= personal_prefix() + inner@);
    hashing::keccak_256(&buf)
}

/// Derives the external address implied by a recovered compressed public
/// key for the given chain's address format.
pub fn generate_external_address(chain: Blockchain, key: &Vec<u8>) -> (r: Option<Vec<u8>>)
    requires
        key@.len() == 33,
    ensures
        match r {
            Some(a) => external_address_of(chain, key@) == Some(a@),
            None => external_address_of(chain, key@) is None,
        },
{
    match chain {
        Blockchain::Bitcoin => None,
        _ => {
            match crypto::secp256k1_decompress(key) {
                Some(uncompressed) => {
                    let digest = hashing::keccak_256(&uncompressed);
                    let mut out: Vec<u8> = Vec::new();
                    let mut i: usize = 12;
                    while i < 32
                        invariant
                            digest@.len() == 32,
                            12 <= i <= 32,
                            out@ == digest@.subrange(12, i as int),
                        decreases 32 - i,
                    {
                        out.push(digest[i]);
                        assert(out@ =~= digest@.subrange(12, i + 1));
                        i += 1;
                    }
                    Some(out)
                },
                None => None,
            }
        },
    }
}

/// What the shared tail of both registration calls returns once an implied
/// address has been derived from the ownership proof.
pub open spec fn register_checked_outcome(
    l: Ledger,
    who: Seq<u8>,
    chain: Blockchain,
    addr: Seq<u8>,
    derived: Seq<u8>,
) -> Result<(), Error> {
    if derived != addr {
        Err(Error::OwnershipNotSatisfied)
    } else {
        match find_entry(l.addresses@, 0, ids::address_id_of(chain, addr)) {
            Some(e) => {
                if e.address.owner@ == who {
                    Err(Error::AddressAlreadyRegisteredByCaller)
                } else {
                    Err(Error::AddressAlreadyRegistered)
                }
            },
            None => {
                if !address_well_formed(chain, addr) {
                    Err(Error::MalformedExternalAddress)
                } else {
                    Ok(())
                }
            },
        }
    }
}

/// What `register_address` returns, as a function of the pre-state.
pub open spec fn register_address_outcome(
    l: Ledger,
    who: Seq<u8>,
    chain: Blockchain,
    addr: Seq<u8>,
    ownership_proof: Seq<u8>,
) -> Result<(), Error> {
    if ownership_proof.len() != 65 {
        Err(Error::InvalidSignature)
    } else {
        match crypto::recovered_key_of(ownership_proof, ethsign_message_of(who)) {
            None => Err(Error::InvalidSignature),
            Some(key) => {
                match external_address_of(chain, key) {
                    None => Err(Error::AddressFormatNotSupported),
                    Some(derived) => register_checked_outcome(l, who, chain, addr, derived),
                }
            },
        }
    }
}

/// What `register_address_v2` returns, as a function of the pre-state.
pub open spec fn register_address_v2_outcome(
    l: Ledger,
    who: Seq<u8>,
    chain: Blockchain,
    addr: Seq<u8>,
    ownership_proof: OwnershipProof,
) -> Result<(), Error> {
    match ownership_proof {
        OwnershipProof::EthSign(sig) => {
            if sig@.len() != 65 {
                Err(Error::EthSignPublicKeyRecoveryFailed)
            } else {
                match crypto::recovered_key_of(sig@, ethsign_message_of(who)) {
                    None => Err(Error::EthSignPublicKeyRecoveryFailed),
                    Some(key) => {
                        match external_address_of(chain, key) {
                            None => Err(Error::EthSignExternalAddressGenerationFailed),
                            Some(derived) => register_checked_outcome(
                                l,
                                who,
                                chain,
                                addr,
                                derived,
                            ),
                        }
                    },
                }
            }
        },
        OwnershipProof::PersonalSign(sig) => {
            if sig@.len() != 65 {
                Err(Error::PersonalSignPublicKeyRecoveryFailed)
            } else {
                match crypto::recovered_key_of(sig@, personal_sign_message_of(who)) {
                    None => Err(Error::PersonalSignPublicKeyRecoveryFailed),
                    Some(key) => {
                        match external_address_of(chain, key) {
                            None => Err(Error::PersonalSignExternalAddressGenerationFailed),
                            Some(derived) => register_checked_outcome(
                                l,
                                who,
                                chain,
                                addr,
                                derived,
                            ),
                        }
                    },
                }
            }
        },
    }
}

impl Ledger {
    /// Shared tail of both registration calls: checks the derived address
    /// against the submitted one and the registry, then binds the address.
    fn register_checked(
        &mut self,
        who: AccountId,
        blockchain: Blockchain,
        address: ExternalAddress,
        derived: Vec<u8>,
    ) -> (r: Result<(), Error>)
        ensures
            r == register_checked_outcome(*old(self), who@, blockchain, address@, derived@),
            r is Err ==> *final(self) == *old(self),
            r is Ok ==> {
                let s = final(self).addresses@;
                let e = s.last();
                &&& s == old(self).addresses@.push(e)
                &&& e.id@ == ids::address_id_of(blockchain, address@)
                &&& e.address.blockchain == blockchain
                &&& e.address.value@ == address@
                &&& e.address.owner@ == who@
                &&& find_entry(s, 0, e.id@) == Some(e)
            },
            r is Ok ==> {
                let ev = final(self).events@;
                &&& ev == old(self).events@.push(ev.last())
                &&& (ev.last() matches Event::AddressRegistered { address_id: x } && x@
                    == ids::address_id_of(blockchain, address@))
            },
            final(self).ask_orders == old(self).ask_orders,
            final(self).bid_orders == old(self).bid_orders,
            final(self).offers == old(self).offers,
            final(self).deal_orders == old(self).deal_orders,
            final(self).transfers == old(self).transfers,
            final(self).collected_coins == old(self).collected_coins,
            final(self).used_guids == old(self).used_guids,
            final(self).authorities == old(self).authorities,
            final(self).pending_tasks == old(self).pending_tasks,
            final(self).collect_coins_contract == old(self).collect_coins_contract,
            final(self).balances == old(self).balances,
    {
        if !util::bytes_eq(&derived, &address) {
            return Err(Error::OwnershipNotSatisfied);
        }
        let id = ids::address_id(blockchain, &address);
        match find_index(&self.addresses, 0, &id) {
            Some(i) => {
                if util::bytes_eq(&self.addresses[i].address.owner, &who) {
                    Err(Error::AddressAlreadyRegisteredByCaller)
                } else {
                    Err(Error::AddressAlreadyRegistered)
                }
            },
            None => {
                if !address_is_well_formed(blockchain, &address) {
                    return Err(Error::MalformedExternalAddress);
                }
                let entry = AddressEntry {
                    id: util::copy_bytes(&id),
                    address: Address { blockchain, value: address, owner: who },
                };
                proof {
                    lemma_find_push(self.addresses@, entry, 0, entry.id@);
                }
                self.addresses.push(entry);
                self.events.push(Event::AddressRegistered { address_id: id });
                Ok(())
            },
        }
    }

    /// Binds an external address to the caller under the legacy ownership
    /// proof: an ECDSA signature over `blake2(sha2(account))` whose
    /// recovered key must imply the submitted address.
    pub fn register_address(
        &mut self,
        who: AccountId,
        blockchain: Blockchain,
        address: ExternalAddress,
        ownership_proof: Vec<u8>,
    ) -> (r: Result<(), Error>)
        ensures
            r == register_address_outcome(
                *old(self),
                who@,
                blockchain,
                address@,
                ownership_proof@,
            ),
            r is Err ==> *final(self) == *old(self),
            r is Ok ==> {
                let s = final(self).addresses@;
                let e = s.last();
                &&& s == old(self).addresses@.push(e)
                &&& e.id@ == ids::address_id_of(blockchain, address@)
                &&& e.address.blockchain == blockchain
                &&& e.address.value@ == address@
                &&& e.address.owner@ == who@
                &&& find_entry(s, 0, e.id@) == Some(e)
            },
            r is Ok ==> {
                let ev = final(self).events@;
                &&& ev == old(self).events@.push(ev.last())
                &&& (ev.last() matches Event::AddressRegistered { address_id: x } && x@
                    == ids::address_id_of(blockchain, address@))
            },
            final(self).ask_orders == old(self).ask_orders,
            final(self).bid_orders == old(self).bid_orders,
            final(self).offers == old(self).offers,
            final(self).deal_orders == old(self).deal_orders,
            final(self).transfers == old(self).transfers,
            final(self).collected_coins == old(self).collected_coins,
            final(self).used_guids == old(self).used_guids,
            final(self).authorities == old(self).authorities,
            final(self).pending_tasks == old(self).pending_tasks,
            final(self).collect_coins_contract == old(self).collect_coins_contract,
            final(self).balances == old(self).balances,
    {
        if ownership_proof.len() != 65 {
            return Err(Error::InvalidSignature);
        }
        let message = ethsign_message(&who);
        let key = match crypto::ecdsa_recover_compressed(&ownership_proof, &message) {
            Some(k) => k,
            None => {
                return Err(Error::InvalidSignature);
            },
        };
        let derived = match generate_external_address(blockchain, &key) {
            Some(a) => a,
            None => {
                return Err(Error::AddressFormatNotSupported);
            },
        };
        self.register_checked(who, blockchain, address, derived)
    }

    /// Binds an external address to the caller under either ownership-proof
    /// scheme, with scheme-specific recovery and derivation errors.
    pub fn register_address_v2(
        &mut self,
        who: AccountId,
        blockchain: Blockchain,
        address: ExternalAddress,
        ownership_proof: OwnershipProof,
    ) -> (r: Result<(), Error>)
        ensures
            r == register_address_v2_outcome(
                *old(self),
                who@,
                blockchain,
                address@,
                ownership_proof,
            ),
            r is Err ==> *final(self) == *old(self),
            r is Ok ==> {
                let s = final(self).addresses@;
                let e = s.last();
                &&& s == old(self).addresses@.push(e)
                &&& e.id@ == ids::address_id_of(blockchain, address@)
                &&& e.address.blockchain == blockchain
                &&& e.address.value@ == address@
                &&& e.address.owner@ == who@
                &&& find_entry(s, 0, e.id@) == Some(e)
            },
            r is Ok ==> {
                let ev = final(self).events@;
                &&& ev == old(self).events@.push(ev.last())
                &&& (ev.last() matches Event::AddressRegistered { address_id: x } && x@
                    == ids::address_id_of(blockchain, address@))
            },
            final(self).ask_orders == old(self).ask_orders,
            final(self).bid_orders == old(self).bid_orders,
            final(self).offers == old(self).offers,
            final(self).deal_orders == old(self).deal_orders,
            final(self).transfers == old(self).transfers,
            final(self).collected_coins == old(self).collected_coins,
            final(self).used_guids == old(self).used_guids,
            final(self).authorities == old(self).authorities,
            final(self).pending_tasks == old(self).pending_tasks,
            final(self).collect_coins_contract == old(self).collect_coins_contract,
            final(self).balances == old(self).balances,
    {
        match ownership_proof {
            OwnershipProof::EthSign(sig) => {
                if sig.len() != 65 {
                    return Err(Error::EthSignPublicKeyRecoveryFailed);
                }
                let message = ethsign_message(&who);
                let key = match crypto::ecdsa_recover_compressed(&sig, &message) {
                    Some(k) => k,
                    None => {
                        return Err(Error::EthSignPublicKeyRecoveryFailed);
                    },
                };
                let derived = match generate_external_address(blockchain, &key) {
                    Some(a) => a,
                    None => {
                        return Err(Error::EthSignExternalAddressGenerationFailed);
                    },
                };
                self.register_checked(who, blockchain, address, derived)
            },
            OwnershipProof::PersonalSign(sig) => {
                if sig.len() != 65 {
                    return Err(Error::PersonalSignPublicKeyRecoveryFailed);
                }
                let message = personal_sign_message(&who);
                let key = match crypto::ecdsa_recover_compressed(&sig, &message) {
                    Some(k) => k,
                    None => {
                        return Err(Error::PersonalSignPublicKeyRecoveryFailed);
                    },
                };
                let derived = match generate_external_address(blockchain, &key) {
                    Some(a) => a,
                    None => {
                        return Err(Error::PersonalSignExternalAddressGenerationFailed);
                    },
                };
                self.register_checked(who, blockchain, address, derived)
            },
        }
    }
}

} // verus!
