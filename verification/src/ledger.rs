//! The ledger state: one append-mostly store per entity kind, an event log,
//! and the oracle's authority set and pending-task index.
//!
//! Entities bounded by an expiration block are keyed by `(expiration_block,
//! content_hash)`; unbounded entities by content hash alone (their
//! expiration component is fixed to zero).  Lookups are first-match scans,
//! specified by the recursive `find_entry`; inserts are guarded by a
//! non-existence check, so a key is never stored twice.

use vstd::prelude::*;

use crate::types::{
    AccountId, Address, AskOrder, BidOrder, CollectCoinsContract, CollectedCoinsStruct, DealOrder,
    Event, Guid, Offer, Transfer,
};

verus! {

/// An entry addressable by `(expiration_block, content_hash)`.
pub trait Keyed: Sized {
    /// The expiration-block half of the key; zero for unbounded entities.
    spec fn kexp(&self) -> u64;

    /// The content-hash half of the key.
    spec fn khash(&self) -> Seq<u8>;

    /// Executable test of the key.
    fn matches_key(&self, exp: u64, h: &Vec<u8>) -> (r: bool)
        ensures
            r == (self.kexp() == exp && self.khash() == h@),
    ;

    /// Executable test of the expiration half alone.
    fn has_exp(&self, exp: u64) -> (r: bool)
        ensures
            r == (self.kexp() == exp),
    ;
}

/// The first entry of `s` keyed `(exp, h)`, if any.
pub open spec fn find_entry<T: Keyed>(s: Seq<T>, exp: u64, h: Seq<u8>) -> Option<T>
    decreases s.len(),
{
    if s.len() == 0 {
        None
    } else if s[0].kexp() == exp && s[0].khash() == h {
        Some(s[0])
    } else {
        find_entry(s.drop_first(), exp, h)
    }
}

/// Appending an entry leaves every present key bound as before and binds the
/// new entry's key if it was absent.
pub proof fn lemma_find_push<T: Keyed>(s: Seq<T>, e: T, exp: u64, h: Seq<u8>)
    ensures
        find_entry(s.push(e), exp, h) == if find_entry(s, exp, h) is Some {
            find_entry(s, exp, h)
        } else if e.kexp() == exp && e.khash() == h {
            Some(e)
        } else {
            None::<T>
        },
    decreases s.len(),
{
    if s.len() == 0 {
        assert(s.push(e).drop_first() =~= s);
    } else {
        assert(s.push(e).drop_first() =~= s.drop_first().push(e));
        lemma_find_push(s.drop_first(), e, exp, h);
    }
}

/// Replacing the first entry of a key with another entry of the same key
/// rebinds that key to the replacement.
pub proof fn lemma_find_update_same<T: Keyed>(s: Seq<T>, k: int, e: T)
    requires
        0 <= k < s.len(),
        s[k].kexp() == e.kexp(),
        s[k].khash() == e.khash(),
        forall|j: int|
            0 <= j < k ==> !(#[trigger] s[j].kexp() == e.kexp() && s[j].khash() == e.khash()),
    ensures
        find_entry(s.update(k, e), e.kexp(), e.khash()) == Some(e),
    decreases s.len(),
{
    if k == 0 {
        assert(s.update(k, e)[0] == e);
    } else {
        assert(s.update(k, e).drop_first() =~= s.drop_first().update(k - 1, e));
        assert(forall|j: int|
            0 <= j < k - 1 ==> !(#[trigger] s.drop_first()[j].kexp() == e.kexp()
                && s.drop_first()[j].khash() == e.khash()));
        lemma_find_update_same(s.drop_first(), k - 1, e);
    }
}

/// Replacing an entry with another entry of the same key leaves every other
/// key bound as before.
pub proof fn lemma_find_update_diff<T: Keyed>(s: Seq<T>, k: int, e: T, exp: u64, h: Seq<u8>)
    requires
        0 <= k < s.len(),
        s[k].kexp() == e.kexp(),
        s[k].khash() == e.khash(),
        !(e.kexp() == exp && e.khash() == h),
    ensures
        find_entry(s.update(k, e), exp, h) == find_entry(s, exp, h),
    decreases s.len(),
{
    if k == 0 {
        assert(s.update(k, e).drop_first() =~= s.drop_first());
    } else {
        assert(s.update(k, e)[0] == s[0]);
        assert(s.update(k, e).drop_first() =~= s.drop_first().update(k - 1, e));
        lemma_find_update_diff(s.drop_first(), k - 1, e, exp, h);
    }
}

/// A sequence with no entry of a key finds nothing under that key.
pub proof fn lemma_find_none<T: Keyed>(s: Seq<T>, exp: u64, h: Seq<u8>)
    requires
        forall|j: int| #![trigger s[j]] 0 <= j < s.len() ==> !(s[j].kexp() == exp && s[j].khash()
            == h),
    ensures
        find_entry(s, exp, h) is None,
    decreases s.len(),
{
    if s.len() > 0 {
        assert(forall|j: int|
            #![trigger s.drop_first()[j]]
            0 <= j < s.drop_first().len() ==> s.drop_first()[j] == s[j + 1]);
        lemma_find_none(s.drop_first(), exp, h);
    }
}

/// A found entry is an entry of the sequence, under the key it was sought
/// by.
pub proof fn lemma_find_member<T: Keyed>(s: Seq<T>, exp: u64, h: Seq<u8>)
    ensures
        match find_entry(s, exp, h) {
            Some(e) => (exists|j: int| 0 <= j < s.len() && s[j] == e) && e.kexp() == exp
                && e.khash() == h,
            None => true,
        },
    decreases s.len(),
{
    if s.len() == 0 {
    } else if s[0].kexp() == exp && s[0].khash() == h {
        assert(s[0] == find_entry(s, exp, h).unwrap());
    } else {
        lemma_find_member(s.drop_first(), exp, h);
        if find_entry(s, exp, h) is Some {
            let e = find_entry(s, exp, h).unwrap();
            let j = choose|j: int| 0 <= j < s.drop_first().len() && s.drop_first()[j] == e;
            assert(s[j + 1] == e);
        }
    }
}

/// `s` with every entry keyed `(exp, h)` removed, in order.
pub open spec fn drop_key<T: Keyed>(s: Seq<T>, exp: u64, h: Seq<u8>) -> Seq<T>
    decreases s.len(),
{
    if s.len() == 0 {
        Seq::empty()
    } else if s[0].kexp() == exp && s[0].khash() == h {
        drop_key(s.drop_first(), exp, h)
    } else {
        seq![s[0]] + drop_key(s.drop_first(), exp, h)
    }
}

/// Removing one key unbinds it and leaves every other key bound as before.
pub proof fn lemma_drop_key_find<T: Keyed>(s: Seq<T>, exp: u64, h: Seq<u8>, exp2: u64, h2: Seq<u8>)
    ensures
        find_entry(drop_key(s, exp, h), exp2, h2) == if exp2 == exp && h2 == h {
            None::<T>
        } else {
            find_entry(s, exp2, h2)
        },
    decreases s.len(),
{
    if s.len() == 0 {
    } else if s[0].kexp() == exp && s[0].khash() == h {
        lemma_drop_key_find(s.drop_first(), exp, h, exp2, h2);
    } else {
        let rest = drop_key(s.drop_first(), exp, h);
        let whole = seq![s[0]] + rest;
        assert(whole[0] == s[0]);
        assert(whole.drop_first() =~= rest);
        lemma_drop_key_find(s.drop_first(), exp, h, exp2, h2);
    }
}

/// `s` with every entry whose expiration half equals `exp` removed, in order.
pub open spec fn drop_exp<T: Keyed>(s: Seq<T>, exp: u64) -> Seq<T>
    decreases s.len(),
{
    if s.len() == 0 {
        Seq::empty()
    } else if s[0].kexp() == exp {
        drop_exp(s.drop_first(), exp)
    } else {
        seq![s[0]] + drop_exp(s.drop_first(), exp)
    }
}

/// Purging an expiration block unbinds exactly the keys under it.
pub proof fn lemma_drop_exp_find<T: Keyed>(s: Seq<T>, exp: u64, exp2: u64, h2: Seq<u8>)
    ensures
        find_entry(drop_exp(s, exp), exp2, h2) == if exp2 == exp {
            None::<T>
        } else {
            find_entry(s, exp2, h2)
        },
    decreases s.len(),
{
    if s.len() == 0 {
    } else if s[0].kexp() == exp {
        lemma_drop_exp_find(s.drop_first(), exp, exp2, h2);
    } else {
        let rest = drop_exp(s.drop_first(), exp);
        let whole = seq![s[0]] + rest;
        assert(whole[0] == s[0]);
        assert(whole.drop_first() =~= rest);
        lemma_drop_exp_find(s.drop_first(), exp, exp2, h2);
    }
}

/// No entry of the purged expiration block survives `drop_exp`.
pub proof fn lemma_drop_exp_members<T: Keyed>(s: Seq<T>, exp: u64)
    ensures
        forall|j: int|
            #![trigger drop_exp(s, exp)[j]]
            0 <= j < drop_exp(s, exp).len() ==> drop_exp(s, exp)[j].kexp() != exp,
    decreases s.len(),
{
    if s.len() == 0 {
    } else {
        lemma_drop_exp_members(s.drop_first(), exp);
        let rest = drop_exp(s.drop_first(), exp);
        assert forall|j: int| 0 <= j < drop_exp(s, exp).len() implies #[trigger] drop_exp(
            s,
            exp,
        )[j].kexp() != exp by {
            if s[0].kexp() == exp {
                assert(drop_exp(s, exp) == rest);
                assert(rest[j].kexp() != exp);
            } else {
                assert(drop_exp(s, exp) == seq![s[0]] + rest);
                if j == 0 {
                    assert(drop_exp(s, exp)[0] == s[0]);
                } else {
                    assert(drop_exp(s, exp)[j] == rest[j - 1]);
                    assert(rest[j - 1].kexp() != exp);
                }
            }
        }
    }
}

/// Removes every entry keyed `(exp, h)` from `v`, keeping order.
pub fn retain_drop_key<T: Keyed>(v: &mut Vec<T>, exp: u64, h: &Vec<u8>)
    ensures
        final(v)@ == drop_key(old(v)@, exp, h@),
{
    let mut kept: Vec<T> = Vec::new();
    let ghost orig = v@;
    assert(kept@ + drop_key(v@, exp, h@) =~= drop_key(orig, exp, h@));
    while v.len() > 0
        invariant
            kept@ + drop_key(v@, exp, h@) == drop_key(orig, exp, h@),
        decreases v@.len(),
    {
        let ghost pre = v@;
        let e = v.remove(0);
        proof {
            assert(pre[0] == e);
            assert(v@ =~= pre.drop_first());
        }
        if !e.matches_key(exp, h) {
            proof {
                assert(drop_key(pre, exp, h@) == seq![e] + drop_key(pre.drop_first(), exp, h@));
                assert((kept@ + seq![e]) + drop_key(pre.drop_first(), exp, h@) =~= kept@ + (
                seq![e] + drop_key(pre.drop_first(), exp, h@)));
                assert(kept@.push(e) =~= kept@ + seq![e]);
            }
            kept.push(e);
        }
    }
    proof {
        assert(drop_key(v@, exp, h@) =~= Seq::<T>::empty());
        assert(kept@ + drop_key(v@, exp, h@) =~= kept@);
    }
    *v = kept;
}

/// Removes every entry of expiration block `exp` from `v`, keeping order.
pub fn retain_drop_exp<T: Keyed>(v: &mut Vec<T>, exp: u64) -> (removed: usize)
    ensures
        final(v)@ == drop_exp(old(v)@, exp),
        removed == old(v)@.len() - final(v)@.len(),
{
    let mut kept: Vec<T> = Vec::new();
    let ghost orig = v@;
    let total = v.len();
    assert(kept@ + drop_exp(v@, exp) =~= drop_exp(orig, exp));
    while v.len() > 0
        invariant
            kept@ + drop_exp(v@, exp) == drop_exp(orig, exp),
            kept@.len() + v@.len() <= orig.len(),
            total == orig.len(),
        decreases v@.len(),
    {
        let ghost pre = v@;
        let e = v.remove(0);
        proof {
            assert(pre[0] == e);
            assert(v@ =~= pre.drop_first());
        }
        if !e.has_exp(exp) {
            proof {
                assert(drop_exp(pre, exp) == seq![e] + drop_exp(pre.drop_first(), exp));
                assert((kept@ + seq![e]) + drop_exp(pre.drop_first(), exp) =~= kept@ + (seq![e]
                    + drop_exp(pre.drop_first(), exp)));
                assert(kept@.push(e) =~= kept@ + seq![e]);
            }
            kept.push(e);
        }
    }
    proof {
        assert(drop_exp(v@, exp) =~= Seq::<T>::empty());
        assert(kept@ + drop_exp(v@, exp) =~= kept@);
    }
    let removed = total - kept.len();
    *v = kept;
    removed
}

/// Finds the index of the first entry keyed `(exp, h)`.
pub fn find_index<T: Keyed>(s: &Vec<T>, exp: u64, h: &Vec<u8>) -> (r: Option<usize>)
    ensures
        match r {
            Some(i) => i < s@.len() && s@[i as int].kexp() == exp && s@[i as int].khash() == h@
                && find_entry(s@, exp, h@) == Some(s@[i as int]) && (forall|j: int|
                #![trigger s@[j]]
                0 <= j < i ==> !(s@[j].kexp() == exp && s@[j].khash() == h@)),
            None => find_entry(s@, exp, h@) is None,
        },
{
    let n = s.len();
    let mut i: usize = 0;
    assert(s@.skip(0) =~= s@);
    while i < n
        invariant
            n == s@.len(),
            0 <= i <= n,
            find_entry(s@, exp, h@) == find_entry(s@.skip(i as int), exp, h@),
            forall|j: int| #![trigger s@[j]] 0 <= j < i ==> !(s@[j].kexp() == exp && s@[j].khash()
                == h@),
        decreases n - i,
    {
        if s[i].matches_key(exp, h) {
            assert(s@.skip(i as int)[0] == s@[i as int]);
            return Some(i);
        }
        assert(s@.skip(i as int).drop_first() =~= s@.skip(i + 1));
        i += 1;
    }
    assert(s@.skip(n as int) =~= Seq::<T>::empty());
    None
}

/// An address registration, keyed by content hash.
#[derive(Debug)]
pub struct AddressEntry {
    pub id: Vec<u8>,
    pub address: Address,
}

/// An ask order under its `(expiration_block, hash)` key.
#[derive(Debug)]
pub struct AskEntry {
    pub expiration_block: u64,
    pub hash: Vec<u8>,
    pub order: AskOrder,
}

/// A bid order under its `(expiration_block, hash)` key.
#[derive(Debug)]
pub struct BidEntry {
    pub expiration_block: u64,
    pub hash: Vec<u8>,
    pub order: BidOrder,
}

/// An offer under its `(expiration_block, hash)` key.
#[derive(Debug)]
pub struct OfferEntry {
    pub expiration_block: u64,
    pub hash: Vec<u8>,
    pub offer: Offer,
}

/// A deal order under its `(expiration_block, hash)` key.
#[derive(Debug)]
pub struct DealEntry {
    pub expiration_block: u64,
    pub hash: Vec<u8>,
    pub deal: DealOrder,
}

/// A transfer record, keyed by content hash.
#[derive(Debug)]
pub struct TransferEntry {
    pub id: Vec<u8>,
    pub transfer: Transfer,
}

/// A confirmed coin collection, keyed by content hash.
#[derive(Debug)]
pub struct CollectedCoinsEntry {
    pub id: Vec<u8>,
    pub coins: CollectedCoinsStruct,
}

/// A native balance.
#[derive(Debug)]
pub struct BalanceEntry {
    pub account: AccountId,
    pub amount: u128,
}

/// A verification task pending with the scheduler, indexed by its deadline.
#[derive(Debug)]
pub struct PendingTask {
    pub deadline: u64,
    pub task_id: Vec<u8>,
}

impl Keyed for AddressEntry {
    open spec fn kexp(&self) -> u64 {
        0
    }

    open spec fn khash(&self) -> Seq<u8> {
        self.id@
    }

    fn matches_key(&self, exp: u64, h: &Vec<u8>) -> (r: bool) {
        exp == 0 && crate::util::bytes_eq(&self.id, h)
    }

    fn has_exp(&self, exp: u64) -> (r: bool) {
        exp == 0
    }
}

impl Keyed for AskEntry {
    open spec fn kexp(&self) -> u64 {
        self.expiration_block
    }

    open spec fn khash(&self) -> Seq<u8> {
        self.hash@
    }

    fn matches_key(&self, exp: u64, h: &Vec<u8>) -> (r: bool) {
        self.expiration_block == exp && crate::util::bytes_eq(&self.hash, h)
    }

    fn has_exp(&self, exp: u64) -> (r: bool) {
        self.expiration_block == exp
    }
}

impl Keyed for BidEntry {
    open spec fn kexp(&self) -> u64 {
        self.expiration_block
    }

    open spec fn khash(&self) -> Seq<u8> {
        self.hash@
    }

    fn matches_key(&self, exp: u64, h: &Vec<u8>) -> (r: bool) {
        self.expiration_block == exp && crate::util::bytes_eq(&self.hash, h)
    }

    fn has_exp(&self, exp: u64) -> (r: bool) {
        self.expiration_block == exp
    }
}

impl Keyed for OfferEntry {
    open spec fn kexp(&self) -> u64 {
        self.expiration_block
    }

    open spec fn khash(&self) -> Seq<u8> {
        self.hash@
    }

    fn matches_key(&self, exp: u64, h: &Vec<u8>) -> (r: bool) {
        self.expiration_block == exp && crate::util::bytes_eq(&self.hash, h)
    }

    fn has_exp(&self, exp: u64) -> (r: bool) {
        self.expiration_block == exp
    }
}

impl Keyed for DealEntry {
    open spec fn kexp(&self) -> u64 {
        self.expiration_block
    }

    open spec fn khash(&self) -> Seq<u8> {
        self.hash@
    }

    fn matches_key(&self, exp: u64, h: &Vec<u8>) -> (r: bool) {
        self.expiration_block == exp && crate::util::bytes_eq(&self.hash, h)
    }

    fn has_exp(&self, exp: u64) -> (r: bool) {
        self.expiration_block == exp
    }
}

impl Keyed for TransferEntry {
    open spec fn kexp(&self) -> u64 {
        0
    }

    open spec fn khash(&self) -> Seq<u8> {
        self.id@
    }

    fn matches_key(&self, exp: u64, h: &Vec<u8>) -> (r: bool) {
        exp == 0 && crate::util::bytes_eq(&self.id, h)
    }

    fn has_exp(&self, exp: u64) -> (r: bool) {
        exp == 0
    }
}

impl Keyed for CollectedCoinsEntry {
    open spec fn kexp(&self) -> u64 {
        0
    }

    open spec fn khash(&self) -> Seq<u8> {
        self.id@
    }

    fn matches_key(&self, exp: u64, h: &Vec<u8>) -> (r: bool) {
        exp == 0 && crate::util::bytes_eq(&self.id, h)
    }

    fn has_exp(&self, exp: u64) -> (r: bool) {
        exp == 0
    }
}

impl Keyed for BalanceEntry {
    open spec fn kexp(&self) -> u64 {
        0
    }

    open spec fn khash(&self) -> Seq<u8> {
        self.account@
    }

    fn matches_key(&self, exp: u64, h: &Vec<u8>) -> (r: bool) {
        exp == 0 && crate::util::bytes_eq(&self.account, h)
    }

    fn has_exp(&self, exp: u64) -> (r: bool) {
        exp == 0
    }
}

impl Keyed for PendingTask {
    open spec fn kexp(&self) -> u64 {
        self.deadline
    }

    open spec fn khash(&self) -> Seq<u8> {
        self.task_id@
    }

    fn matches_key(&self, exp: u64, h: &Vec<u8>) -> (r: bool) {
        self.deadline == exp && crate::util::bytes_eq(&self.task_id, h)
    }

    fn has_exp(&self, exp: u64) -> (r: bool) {
        self.deadline == exp
    }
}

/// A consumed guid; guids are never released.
#[derive(Debug)]
pub struct UsedGuid {
    pub guid: Guid,
}

impl Keyed for UsedGuid {
    open spec fn kexp(&self) -> u64 {
        0
    }

    open spec fn khash(&self) -> Seq<u8> {
        self.guid@
    }

    fn matches_key(&self, exp: u64, h: &Vec<u8>) -> (r: bool) {
        exp == 0 && crate::util::bytes_eq(&self.guid, h)
    }

    fn has_exp(&self, exp: u64) -> (r: bool) {
        exp == 0
    }
}

/// An account allowed to commit oracle task outcomes.
#[derive(Debug)]
pub struct Authority {
    pub account: AccountId,
}

impl Keyed for Authority {
    open spec fn kexp(&self) -> u64 {
        0
    }

    open spec fn khash(&self) -> Seq<u8> {
        self.account@
    }

    fn matches_key(&self, exp: u64, h: &Vec<u8>) -> (r: bool) {
        exp == 0 && crate::util::bytes_eq(&self.account, h)
    }

    fn has_exp(&self, exp: u64) -> (r: bool) {
        exp == 0
    }
}

/// The whole persistent state of the lending ledger.
#[derive(Debug)]
pub struct Ledger {
    pub addresses: Vec<AddressEntry>,
    pub ask_orders: Vec<AskEntry>,
    pub bid_orders: Vec<BidEntry>,
    pub offers: Vec<OfferEntry>,
    pub deal_orders: Vec<DealEntry>,
    pub transfers: Vec<TransferEntry>,
    pub collected_coins: Vec<CollectedCoinsEntry>,
    pub used_guids: Vec<UsedGuid>,
    pub authorities: Vec<Authority>,
    pub pending_tasks: Vec<PendingTask>,
    pub collect_coins_contract: CollectCoinsContract,
    pub balances: Vec<BalanceEntry>,
    pub events: Vec<Event>,
}

impl Ledger {
    /// A fresh ledger: empty but for the configured collection contract.
    pub fn new(collect_coins_contract: CollectCoinsContract) -> (r: Ledger)
        ensures
            r.addresses@ =~= Seq::<AddressEntry>::empty(),
            r.ask_orders@ =~= Seq::<AskEntry>::empty(),
            r.bid_orders@ =~= Seq::<BidEntry>::empty(),
            r.offers@ =~= Seq::<OfferEntry>::empty(),
            r.deal_orders@ =~= Seq::<DealEntry>::empty(),
            r.transfers@ =~= Seq::<TransferEntry>::empty(),
            r.collected_coins@ =~= Seq::<CollectedCoinsEntry>::empty(),
            r.used_guids@ =~= Seq::<UsedGuid>::empty(),
            r.authorities@ =~= Seq::<Authority>::empty(),
            r.pending_tasks@ =~= Seq::<PendingTask>::empty(),
            r.balances@ =~= Seq::<BalanceEntry>::empty(),
            r.events@ =~= Seq::<Event>::empty(),
            r.collect_coins_contract == collect_coins_contract,
    {
        Ledger {
            addresses: Vec::new(),
            ask_orders: Vec::new(),
            bid_orders: Vec::new(),
            offers: Vec::new(),
            deal_orders: Vec::new(),
            transfers: Vec::new(),
            collected_coins: Vec::new(),
            used_guids: Vec::new(),
            authorities: Vec::new(),
            pending_tasks: Vec::new(),
            collect_coins_contract,
            balances: Vec::new(),
            events: Vec::new(),
        }
    }

    /// Whether `account` may commit oracle task outcomes.
    pub open spec fn is_authority_s(self, account: Seq<u8>) -> bool {
        find_entry(self.authorities@, 0, account) is Some
    }

    /// Executable form of `is_authority_s`.
    pub fn is_authority(&self, account: &AccountId) -> (r: bool)
        ensures
            r == self.is_authority_s(account@),
    {
        find_index(&self.authorities, 0, account).is_some()
    }

    /// Whether a verification task is pending under `deadline`.
    pub open spec fn is_scheduled_s(self, deadline: u64, task_id: Seq<u8>) -> bool {
        find_entry(self.pending_tasks@, deadline, task_id) is Some
    }

    /// Executable form of `is_scheduled_s`.
    pub fn is_scheduled(&self, deadline: u64, task_id: &Vec<u8>) -> (r: bool)
        ensures
            r == self.is_scheduled_s(deadline, task_id@),
    {
        find_index(&self.pending_tasks, deadline, task_id).is_some()
    }

    /// Whether `guid` has ever been consumed.
    pub open spec fn guid_used_s(self, guid: Seq<u8>) -> bool {
        find_entry(self.used_guids@, 0, guid) is Some
    }

    /// Executable form of `guid_used_s`.
    pub fn guid_used(&self, guid: &Guid) -> (r: bool)
        ensures
            r == self.guid_used_s(guid@),
    {
        find_index(&self.used_guids, 0, guid).is_some()
    }

    /// The native balance of `account` (zero when unknown).
    pub open spec fn balance_s(self, account: Seq<u8>) -> u128 {
        match find_entry(self.balances@, 0, account) {
            Some(e) => e.amount,
            None => 0,
        }
    }

    /// Executable form of `balance_s`.
    pub fn balance(&self, account: &AccountId) -> (r: u128)
        ensures
            r == self.balance_s(account@),
    {
        match find_index(&self.balances, 0, account) {
            Some(i) => self.balances[i].amount,
            None => 0,
        }
    }
}

} // verus!
