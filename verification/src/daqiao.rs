//! The bridge: external chains are registered against tokens of the ledger;
//! a transaction pledged on an external chain mints the pledged amount to a
//! receiver, and the receiver can later withdraw the pledge, which burns the
//! amount again.
//!
//! As in [`crate::tokens`], each call is specified by a transition function
//! over the abstract state [`DaqiaoState`] that returns the new state and the
//! call's result; writes made before a failing step are kept.
use std::collections::BTreeMap;
use vstd::prelude::*;

use crate::bytes::{bytes_eq, copy_bytes};
use crate::system::{ensure_signed, spec_ensure_signed, AccountId, DispatchError, Origin};
use crate::tokens;
use crate::tokens::{balance, spec_burn, spec_mint, TokenBalance, TokenId, TokensState};

verus! {

broadcast use {vstd::std_specs::btree::group_btree_axioms, vstd::laws_cmp::group_laws_cmp};

/// The record kept for a pledged external transaction.
#[derive(Debug, Default, PartialEq, Eq)]
pub struct PledgeInfo<U, V> {
    /// The external chain the pledge was made on.
    pub chain_id: u32,
    /// The transaction id on the external chain.
    pub ext_txid: Vec<u8>,
    /// The account that received the minted amount.
    pub account_id: U,
    /// The amount pledged and not yet withdrawn.
    pub pledge_amount: V,
    /// Whether the pledge can still be withdrawn.
    pub can_withdraw: bool,
    /// Withdraw history.
    pub withdraw_history: Vec<Vec<u8>>,
    /// The external address given by the last withdraw.
    pub withdraw_address: Vec<u8>,
}

/// The abstract value of [`PledgeInfo`].
pub struct PledgeRecord<U, V> {
    pub chain_id: u32,
    pub ext_txid: Seq<u8>,
    pub account_id: U,
    pub pledge_amount: V,
    pub can_withdraw: bool,
    pub withdraw_history: Seq<Seq<u8>>,
    pub withdraw_address: Seq<u8>,
}

impl<U: Copy, V: Copy> View for PledgeInfo<U, V> {
    type V = PledgeRecord<U, V>;

    open spec fn view(&self) -> PledgeRecord<U, V> {
        PledgeRecord {
            chain_id: self.chain_id,
            ext_txid: self.ext_txid@,
            account_id: self.account_id,
            pledge_amount: self.pledge_amount,
            can_withdraw: self.can_withdraw,
            withdraw_history: self.withdraw_history@.map_values(|h: Vec<u8>| h@),
            withdraw_address: self.withdraw_address@,
        }
    }
}

/// The pledge record type of the bridge.
pub type Pledge = PledgeInfo<AccountId, TokenBalance>;

/// The abstract value of [`Pledge`].
pub type PledgeView = PledgeRecord<AccountId, TokenBalance>;

/// Events deposited by the bridge.
#[derive(Debug, PartialEq, Eq)]
pub enum Event {
    /// `Pledged(chain_id, ext_txid, receiver, amount)`.
    Pledged(u32, Vec<u8>, AccountId, TokenBalance),
    /// `Withdrawn(chain_id, ext_txid, account, amount, ext_address)`.
    Withdrawn(u32, Vec<u8>, AccountId, TokenBalance, Vec<u8>),
    /// `DummyCalled(x)`.
    DummyCalled(u32),
}

/// The abstract value of [`Event`].
pub enum EventView {
    Pledged(u32, Seq<u8>, AccountId, TokenBalance),
    Withdrawn(u32, Seq<u8>, AccountId, TokenBalance, Seq<u8>),
    DummyCalled(u32),
}

impl View for Event {
    type V = EventView;

    open spec fn view(&self) -> EventView {
        match self {
            Event::Pledged(c, t, a, v) => EventView::Pledged(*c, t@, *a, *v),
            Event::Withdrawn(c, t, a, v, x) => EventView::Withdrawn(*c, t@, *a, *v, x@),
            Event::DummyCalled(x) => EventView::DummyCalled(*x),
        }
    }
}

/// The abstract state of the bridge.
pub struct DaqiaoState {
    /// The token ledger that the bridge mints into and burns from.
    pub tokens: TokensState,
    /// The value last stored by `dummy`.
    pub dummy_value: u32,
    /// The token registered for each external chain.
    pub chain_token: Map<u32, TokenId>,
    /// The pledge record of each pledged external transaction.
    pub pledge_records: Map<Seq<u8>, PledgeView>,
    /// The events deposited so far, oldest first.
    pub events: Seq<EventView>,
}

/// The bridge.
pub struct Module {
    tokens: tokens::Module,
    dummy_value: u32,
    chain_token: BTreeMap<u32, TokenId>,
    pledge_records: PledgeBook,
    events: Vec<Event>,
}

/// The pledge records, at most one per external transaction id.
struct PledgeBook {
    records: Vec<Pledge>,
}

/// No two records of `v` have the same external transaction id.
pub open spec fn unique_txids(v: Seq<Pledge>) -> bool {
    forall|i: int, j: int|
        0 <= i < v.len() && 0 <= j < v.len() && i != j ==> v[i].ext_txid@ != v[j].ext_txid@
}

/// Whether some record of `v` has the transaction id `k`.
pub open spec fn has_txid(v: Seq<Pledge>, k: Seq<u8>) -> bool {
    exists|i: int| 0 <= i < v.len() && v[i].ext_txid@ == k
}

/// The records of `v`, by transaction id.
pub open spec fn records_map(v: Seq<Pledge>) -> Map<Seq<u8>, PledgeView> {
    Map::new(
        |k: Seq<u8>| has_txid(v, k),
        |k: Seq<u8>| v[choose|i: int| 0 <= i < v.len() && v[i].ext_txid@ == k]@,
    )
}

proof fn lemma_records_map_at(v: Seq<Pledge>, i: int)
    requires
        unique_txids(v),
        0 <= i < v.len(),
    ensures
        records_map(v).contains_key(v[i].ext_txid@),
        records_map(v)[v[i].ext_txid@] == v[i]@,
{
    let k = v[i].ext_txid@;
    assert(has_txid(v, k));
    let j = choose|j: int| 0 <= j < v.len() && v[j].ext_txid@ == k;
    assert(j == i);
}

proof fn lemma_records_map_update(v: Seq<Pledge>, i: int, x: Pledge)
    requires
        unique_txids(v),
        0 <= i < v.len(),
        x.ext_txid@ == v[i].ext_txid@,
    ensures
        unique_txids(v.update(i, x)),
        records_map(v.update(i, x)) == records_map(v).insert(x.ext_txid@, x@),
{
    let w = v.update(i, x);
    assert(unique_txids(w));
    assert forall|k: Seq<u8>| has_txid(w, k) <==> has_txid(v, k) by {
        if has_txid(w, k) {
            let j = choose|j: int| 0 <= j < w.len() && w[j].ext_txid@ == k;
            assert(v[j].ext_txid@ == k);
        }
        if has_txid(v, k) {
            let j = choose|j: int| 0 <= j < v.len() && v[j].ext_txid@ == k;
            assert(w[j].ext_txid@ == k);
        }
    }
    assert forall|k: Seq<u8>| #[trigger] records_map(w).contains_key(k) implies records_map(w)[k]
        == records_map(v).insert(x.ext_txid@, x@)[k] by {
        let j = choose|j: int| 0 <= j < w.len() && w[j].ext_txid@ == k;
        lemma_records_map_at(w, j);
        if j != i {
            lemma_records_map_at(v, j);
        }
    }
    assert(records_map(w) =~= records_map(v).insert(x.ext_txid@, x@));
}

proof fn lemma_records_map_push(v: Seq<Pledge>, x: Pledge)
    requires
        unique_txids(v),
        !has_txid(v, x.ext_txid@),
    ensures
        unique_txids(v.push(x)),
        records_map(v.push(x)) == records_map(v).insert(x.ext_txid@, x@),
{
    let w = v.push(x);
    assert(unique_txids(w));
    assert forall|k: Seq<u8>| has_txid(w, k) <==> (has_txid(v, k) || k == x.ext_txid@) by {
        if has_txid(w, k) {
            let j = choose|j: int| 0 <= j < w.len() && w[j].ext_txid@ == k;
            if j < v.len() {
                assert(v[j].ext_txid@ == k);
            }
        }
        if has_txid(v, k) {
            let j = choose|j: int| 0 <= j < v.len() && v[j].ext_txid@ == k;
            assert(w[j].ext_txid@ == k);
        }
        if k == x.ext_txid@ {
            assert(w[v.len() as int].ext_txid@ == k);
        }
    }
    assert forall|k: Seq<u8>| #[trigger] records_map(w).contains_key(k) implies records_map(w)[k]
        == records_map(v).insert(x.ext_txid@, x@)[k] by {
        let j = choose|j: int| 0 <= j < w.len() && w[j].ext_txid@ == k;
        lemma_records_map_at(w, j);
        if j < v.len() {
            lemma_records_map_at(v, j);
        }
    }
    assert(records_map(w) =~= records_map(v).insert(x.ext_txid@, x@));
}

impl PledgeBook {
    #[verifier::type_invariant]
    spec fn well_formed(self) -> bool {
        unique_txids(self.records@)
    }

    spec fn view_map(self) -> Map<Seq<u8>, PledgeView> {
        records_map(self.records@)
    }

    fn new() -> (b: PledgeBook)
        ensures
            b.records@ == Seq::<Pledge>::empty(),
    {
        PledgeBook { records: Vec::new() }
    }

    fn find(&self, ext_txid: &Vec<u8>) -> (r: Option<usize>)
        ensures
            (match r {
                Some(i) => i < self.records@.len() && self.records@[i as int].ext_txid@ == ext_txid@,
                None => !has_txid(self.records@, ext_txid@),
            }),
    {
        let mut i: usize = 0;
        while i < self.records.len()
            invariant
                i <= self.records@.len(),
                forall|j: int| 0 <= j < i ==> self.records@[j].ext_txid@ != ext_txid@,
            decreases self.records.len() - i,
        {
            if bytes_eq(&self.records[i].ext_txid, ext_txid) {
                return Some(i);
            }
            i = i + 1;
        }
        None
    }

    fn push(&mut self, x: Pledge)
        requires
            !has_txid(old(self).records@, x.ext_txid@),
        ensures
            final(self).view_map() == old(self).view_map().insert(x.ext_txid@, x@),
    {
        proof {
            use_type_invariant(&*self);
            lemma_records_map_push(self.records@, x);
        }
        let mut v: Vec<Pledge> = Vec::new();
        std::mem::swap(&mut v, &mut self.records);
        v.push(x);
        self.records = v;
    }

    fn set(&mut self, i: usize, x: Pledge)
        requires
            i < old(self).records@.len(),
            x.ext_txid@ == old(self).records@[i as int].ext_txid@,
        ensures
            final(self).view_map() == old(self).view_map().insert(x.ext_txid@, x@),
    {
        proof {
            use_type_invariant(&*self);
            lemma_records_map_update(self.records@, i as int, x);
        }
        let mut v: Vec<Pledge> = Vec::new();
        std::mem::swap(&mut v, &mut self.records);
        v.set(i, x);
        self.records = v;
    }
}

impl View for Module {
    type V = DaqiaoState;

    closed spec fn view(&self) -> DaqiaoState {
        DaqiaoState {
            tokens: self.tokens@,
            dummy_value: self.dummy_value,
            chain_token: self.chain_token@,
            pledge_records: self.pledge_records.view_map(),
            events: self.events@.map_values(|e: Event| e@),
        }
    }
}

/// The state of a fresh bridge over a fresh ledger.
pub open spec fn genesis() -> DaqiaoState {
    DaqiaoState {
        tokens: tokens::genesis(),
        dummy_value: 0,
        chain_token: Map::empty(),
        pledge_records: Map::empty(),
        events: Seq::empty(),
    }
}

/// `register`: a signed origin links the external chain `chain_id` to the
/// token `token_id`; a chain can be registered once.
pub open spec fn spec_register(s: DaqiaoState, origin: Origin, chain_id: u32, token_id: TokenId) -> (
    DaqiaoState,
    Result<(), DispatchError>,
) {
    match spec_ensure_signed(origin) {
        Err(e) => (s, Err(e)),
        Ok(_) => if s.chain_token.contains_key(chain_id) {
            (s, Err(DispatchError::ChainIdExists))
        } else {
            (DaqiaoState { chain_token: s.chain_token.insert(chain_id, token_id), ..s }, Ok(()))
        },
    }
}

/// The record that a pledge creates.
pub open spec fn new_pledge(
    chain_id: u32,
    ext_txid: Seq<u8>,
    receiver: AccountId,
    amount: TokenBalance,
) -> PledgeView {
    PledgeRecord {
        chain_id,
        ext_txid,
        account_id: receiver,
        pledge_amount: amount,
        can_withdraw: true,
        withdraw_history: Seq::empty(),
        withdraw_address: Seq::empty(),
    }
}

/// The record read for a transaction that has none.
pub open spec fn default_pledge() -> PledgeView {
    PledgeRecord {
        chain_id: 0,
        ext_txid: Seq::empty(),
        account_id: 0,
        pledge_amount: 0,
        can_withdraw: false,
        withdraw_history: Seq::empty(),
        withdraw_address: Seq::empty(),
    }
}

/// `pledge`: for a registered chain and a transaction not pledged before,
/// mints `amount` of the chain's token to `receiver`, then records the
/// pledge. Where the mint fails its writes stay and nothing is recorded.
pub open spec fn spec_pledge(
    s: DaqiaoState,
    origin: Origin,
    chain_id: u32,
    ext_txid: Seq<u8>,
    amount: TokenBalance,
    receiver: AccountId,
) -> (DaqiaoState, Result<(), DispatchError>) {
    match spec_ensure_signed(origin) {
        Err(e) => (s, Err(e)),
        Ok(_) => if !s.chain_token.contains_key(chain_id) {
            (s, Err(DispatchError::ChainIdNotExists))
        } else if s.pledge_records.contains_key(ext_txid) {
            (s, Err(DispatchError::ExtTxidAlreadyPledged))
        } else {
            let (t1, r) = spec_mint(s.tokens, s.chain_token[chain_id], receiver, amount);
            match r {
                Err(e) => (DaqiaoState { tokens: t1, ..s }, Err(e)),
                Ok(_) => (
                    DaqiaoState {
                        tokens: t1,
                        pledge_records: s.pledge_records.insert(
                            ext_txid,
                            new_pledge(chain_id, ext_txid, receiver, amount),
                        ),
                        events: s.events.push(
                            EventView::Pledged(chain_id, ext_txid, receiver, amount),
                        ),
                        ..s
                    },
                    Ok(()),
                ),
            }
        },
    }
}

/// The record that a withdraw leaves behind.
pub open spec fn withdrawn_pledge(pi: PledgeView, ext_address: Seq<u8>) -> PledgeView {
    PledgeRecord { withdraw_address: ext_address, can_withdraw: false, pledge_amount: 0, ..pi }
}

/// `withdraw`: the receiver of a pledge that can still be withdrawn, and who
/// holds at least the pledged amount of the token registered for `chain_id`,
/// marks the pledge as withdrawn to `ext_address` and burns the amount.
/// Where the burn fails, the record's update and the burn's writes stay.
pub open spec fn spec_withdraw(
    s: DaqiaoState,
    origin: Origin,
    chain_id: u32,
    ext_txid: Seq<u8>,
    ext_address: Seq<u8>,
) -> (DaqiaoState, Result<(), DispatchError>) {
    match spec_ensure_signed(origin) {
        Err(e) => (s, Err(e)),
        Ok(sender) => if !s.pledge_records.contains_key(ext_txid) {
            (s, Err(DispatchError::PledgeRecordNotExist))
        } else if !s.chain_token.contains_key(chain_id) {
            (s, Err(DispatchError::ChainIdNotExists))
        } else {
            let token_id = s.chain_token[chain_id];
            let pi = s.pledge_records[ext_txid];
            let amount = pi.pledge_amount;
            if balance(s.tokens, token_id, sender) < amount {
                (s, Err(DispatchError::InsufficientBalanceForWithdraw))
            } else if !(pi.can_withdraw && pi.account_id == sender) {
                (s, Err(DispatchError::WithdrawFailed))
            } else {
                let records = s.pledge_records.insert(ext_txid, withdrawn_pledge(pi, ext_address));
                let (t1, r) = spec_burn(s.tokens, token_id, sender, amount);
                match r {
                    Err(e) => (DaqiaoState { tokens: t1, pledge_records: records, ..s }, Err(e)),
                    Ok(_) => (
                        DaqiaoState {
                            tokens: t1,
                            pledge_records: records,
                            events: s.events.push(
                                EventView::Withdrawn(chain_id, ext_txid, sender, amount, ext_address),
                            ),
                            ..s
                        },
                        Ok(()),
                    ),
                }
            }
        },
    }
}

/// `dummy`: stores `x + chain_id` and deposits `DummyCalled(x)`, whatever
/// the origin.
pub open spec fn spec_dummy(s: DaqiaoState, x: u32, chain_id: u32) -> DaqiaoState {
    DaqiaoState {
        dummy_value: (x + chain_id) as u32,
        events: s.events.push(EventView::DummyCalled(x)),
        ..s
    }
}

fn copy_history(h: &Vec<Vec<u8>>) -> (r: Vec<Vec<u8>>)
    ensures
        r@.map_values(|v: Vec<u8>| v@) == h@.map_values(|v: Vec<u8>| v@),
{
    let mut r: Vec<Vec<u8>> = Vec::new();
    let mut i: usize = 0;
    while i < h.len()
        invariant
            i <= h.len(),
            r@.len() == i,
            forall|j: int| 0 <= j < i ==> #[trigger] r@[j]@ == h@[j]@,
        decreases h.len() - i,
    {
        r.push(copy_bytes(&h[i]));
        i = i + 1;
    }
    assert(r@.map_values(|v: Vec<u8>| v@) =~= h@.map_values(|v: Vec<u8>| v@));
    r
}

fn copy_pledge(p: &Pledge) -> (r: Pledge)
    ensures
        r@ == p@,
{
    PledgeInfo {
        chain_id: p.chain_id,
        ext_txid: copy_bytes(&p.ext_txid),
        account_id: p.account_id,
        pledge_amount: p.pledge_amount,
        can_withdraw: p.can_withdraw,
        withdraw_history: copy_history(&p.withdraw_history),
        withdraw_address: copy_bytes(&p.withdraw_address),
    }
}

impl Module {
    /// A bridge with no registered chain and no pledge, over a fresh ledger.
    pub fn new() -> (m: Module)
        ensures
            m@ == genesis(),
    {
        let m = Module {
            tokens: tokens::Module::new(),
            dummy_value: 0,
            chain_token: BTreeMap::new(),
            pledge_records: PledgeBook::new(),
            events: Vec::new(),
        };
        assert(m.pledge_records.view_map() =~= Map::empty());
        assert(m.events@.map_values(|e: Event| e@) =~= Seq::empty());
        m
    }

    /// The token ledger.
    pub fn tokens(&self) -> (r: &tokens::Module)
        ensures
            r@ == self@.tokens,
    {
        &self.tokens
    }

    /// The token ledger, for calls into it.
    pub fn tokens_mut(&mut self) -> (r: &mut tokens::Module)
        ensures
            r@ == old(self)@.tokens,
            final(self)@ == (DaqiaoState { tokens: final(r)@, ..old(self)@ }),
    {
        &mut self.tokens
    }

    /// The value last stored by `dummy`.
    pub fn dummy_value(&self) -> (r: u32)
        ensures
            r == self@.dummy_value,
    {
        self.dummy_value
    }

    /// The token registered for `chain_id`, if any.
    pub fn chain_token(&self, chain_id: u32) -> (r: Option<TokenId>)
        ensures
            r == (if self@.chain_token.contains_key(chain_id) {
                Some(self@.chain_token[chain_id])
            } else {
                None
            }),
    {
        match self.chain_token.get(&chain_id) {
            Some(t) => Some(*t),
            None => None,
        }
    }

    /// The events deposited so far, oldest first.
    pub fn events(&self) -> (r: &Vec<Event>)
        ensures
            r@.map_values(|e: Event| e@) == self@.events,
    {
        &self.events
    }

    /// Whether `ext_txid` has a pledge record.
    pub fn pledge_record_exists(&self, ext_txid: &Vec<u8>) -> (r: bool)
        ensures
            r == self@.pledge_records.contains_key(ext_txid@),
    {
        match self.pledge_records.find(ext_txid) {
            Some(i) => {
                proof {
                    use_type_invariant(&self.pledge_records);
                    lemma_records_map_at(self.pledge_records.records@, i as int);
                }
                true
            },
            None => false,
        }
    }

    /// The pledge record of `ext_txid`, or the default record where there
    /// is none.
    pub fn pledge_records(&self, ext_txid: &Vec<u8>) -> (r: Pledge)
        ensures
            self@.pledge_records.contains_key(ext_txid@) ==> r@ == self@.pledge_records[ext_txid@],
            !self@.pledge_records.contains_key(ext_txid@) ==> r@ == default_pledge(),
    {
        proof {
            use_type_invariant(&self.pledge_records);
        }
        match self.pledge_records.find(ext_txid) {
            Some(i) => {
                proof {
                    lemma_records_map_at(self.pledge_records.records@, i as int);
                }
                copy_pledge(&self.pledge_records.records[i])
            },
            None => {
                let r = PledgeInfo {
                    chain_id: 0,
                    ext_txid: Vec::new(),
                    account_id: 0,
                    pledge_amount: 0,
                    can_withdraw: false,
                    withdraw_history: Vec::new(),
                    withdraw_address: Vec::new(),
                };
                assert(r.withdraw_history@.map_values(|h: Vec<u8>| h@) =~= Seq::empty());
                r
            },
        }
    }

    /// Links the external chain `chain_id` to the token `token_id`.
    pub fn register(&mut self, origin: Origin, chain_id: u32, token_id: TokenId) -> (r: Result<
        (),
        DispatchError,
    >)
        ensures
            (final(self)@, r) == spec_register(old(self)@, origin, chain_id, token_id),
    {
        self._register(origin, chain_id, token_id)
    }

    /// Records the pledge of `ext_txid` on chain `chain_id` and mints
    /// `amount` to `reciever`.
    pub fn pledge(
        &mut self,
        origin: Origin,
        chain_id: u32,
        ext_txid: Vec<u8>,
        amount: TokenBalance,
        reciever: AccountId,
    ) -> (r: Result<(), DispatchError>)
        ensures
            (final(self)@, r) == spec_pledge(old(self)@, origin, chain_id, ext_txid@, amount, reciever),
    {
        self._pledge(origin, chain_id, ext_txid, amount, reciever)
    }

    /// Withdraws the pledge of `ext_txid` to the external address
    /// `ext_address`, burning the pledged amount.
    pub fn withdraw(&mut self, origin: Origin, chain_id: u32, ext_txid: Vec<u8>, ext_address: Vec<u8>) -> (r:
        Result<(), DispatchError>)
        ensures
            (final(self)@, r) == spec_withdraw(old(self)@, origin, chain_id, ext_txid@, ext_address@),
    {
        self._withdraw(origin, chain_id, ext_txid, ext_address)
    }

    /// Stores `x + chain_id` and deposits `DummyCalled(x)`.
    pub fn dummy(&mut self, origin: Origin, x: u32, chain_id: u32) -> (r: Result<(), DispatchError>)
        requires
            x + chain_id <= u32::MAX,
        ensures
            final(self)@ == spec_dummy(old(self)@, x, chain_id),
            final(self)@.dummy_value as int == x as int + chain_id as int,
            r is Ok,
    {
        self.dummy_value = x + chain_id;
        self.events.push(Event::DummyCalled(x));
        proof {
            assert(self@.events =~= spec_dummy(old(self)@, x, chain_id).events);
        }
        Ok(())
    }

    fn _register(&mut self, origin: Origin, chain_id: u32, token_id: TokenId) -> (r: Result<
        (),
        DispatchError,
    >)
        ensures
            (final(self)@, r) == spec_register(old(self)@, origin, chain_id, token_id),
    {
        match ensure_signed(origin) {
            Ok(_) => {},
            Err(e) => return Err(e),
        }
        if self.chain_token.contains_key(&chain_id) {
            return Err(DispatchError::ChainIdExists);
        }
        self.chain_token.insert(chain_id, token_id);
        Ok(())
    }

    fn _pledge(
        &mut self,
        origin: Origin,
        chain_id: u32,
        ext_txid: Vec<u8>,
        amount: TokenBalance,
        reciever: AccountId,
    ) -> (r: Result<(), DispatchError>)
        ensures
            (final(self)@, r) == spec_pledge(old(self)@, origin, chain_id, ext_txid@, amount, reciever),
    {
        proof {
            use_type_invariant(&self.pledge_records);
        }
        match ensure_signed(origin) {
            Ok(_) => {},
            Err(e) => return Err(e),
        }
        let token_id = match self.chain_token(chain_id) {
            Some(t) => t,
            None => return Err(DispatchError::ChainIdNotExists),
        };
        if self.pledge_record_exists(&ext_txid) {
            return Err(DispatchError::ExtTxidAlreadyPledged);
        }
        let pi = PledgeInfo {
            chain_id,
            ext_txid: copy_bytes(&ext_txid),
            account_id: reciever,
            pledge_amount: amount,
            can_withdraw: true,
            withdraw_history: Vec::new(),
            withdraw_address: Vec::new(),
        };
        proof {
            assert(pi.withdraw_history@.map_values(|h: Vec<u8>| h@) =~= Seq::empty());
        }
        match self.tokens.mint(token_id, reciever, amount) {
            Ok(_) => {},
            Err(e) => return Err(e),
        }
        self.pledge_records.push(pi);
        self.events.push(Event::Pledged(chain_id, ext_txid, reciever, amount));
        proof {
            let post = spec_pledge(old(self)@, origin, chain_id, ext_txid@, amount, reciever).0;
            assert(self@.events =~= post.events);
        }
        Ok(())
    }

    fn _withdraw(&mut self, origin: Origin, chain_id: u32, ext_txid: Vec<u8>, ext_address: Vec<u8>) -> (r:
        Result<(), DispatchError>)
        ensures
            (final(self)@, r) == spec_withdraw(old(self)@, origin, chain_id, ext_txid@, ext_address@),
    {
        proof {
            use_type_invariant(&self.pledge_records);
        }
        let sender = match ensure_signed(origin) {
            Ok(s) => s,
            Err(e) => return Err(e),
        };
        let idx = match self.pledge_records.find(&ext_txid) {
            Some(i) => i,
            None => return Err(DispatchError::PledgeRecordNotExist),
        };
        proof {
            lemma_records_map_at(self.pledge_records.records@, idx as int);
        }
        let token_id = match self.chain_token(chain_id) {
            Some(t) => t,
            None => return Err(DispatchError::ChainIdNotExists),
        };
        let mut pi = copy_pledge(&self.pledge_records.records[idx]);
        let amount = pi.pledge_amount;
        pi.withdraw_address = copy_bytes(&ext_address);
        let balance = self.tokens.balance_of((token_id, sender));
        match balance.checked_sub(amount) {
            Some(_) => {},
            None => return Err(DispatchError::InsufficientBalanceForWithdraw),
        }
        if !(pi.can_withdraw && pi.account_id == sender) {
            return Err(DispatchError::WithdrawFailed);
        }
        pi.can_withdraw = false;
        pi.pledge_amount = 0;
        self.pledge_records.set(idx, pi);
        match self.tokens.burn(token_id, sender, amount) {
            Ok(_) => {},
            Err(e) => return Err(e),
        }
        self.events.push(Event::Withdrawn(chain_id, ext_txid, sender, amount, ext_address));
        proof {
            let post = spec_withdraw(old(self)@, origin, chain_id, ext_txid@, ext_address@).0;
            assert(self@.events =~= post.events);
        }
        Ok(())
    }
}

} // verus!
