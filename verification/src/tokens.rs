//! The token ledger: ERC20-style tokens that can be created, transferred,
//! minted and burned.
//!
//! Storage is held in ordered maps; the abstract state is [`TokensState`].
//! Every call is specified by a transition function over that state that
//! returns the new state together with the call's result. Calls are not
//! transactional: a call that fails after it has written storage keeps those
//! writes (see [`spec_mint`] and [`spec_burn`]).
use std::collections::BTreeMap;
use vstd::prelude::*;

use crate::bytes::copy_bytes;
use crate::system::{ensure_signed, spec_ensure_signed, AccountId, DispatchError, Origin};

verus! {

broadcast use {vstd::std_specs::btree::group_btree_axioms, vstd::laws_cmp::group_laws_cmp};

/// Identifier of a token.
pub type TokenId = u64;

/// Amounts of a token.
pub type TokenBalance = u128;

/// The details kept for a token.
#[derive(Debug, Default, PartialEq, Eq)]
pub struct Erc20MintableBurnable<T> {
    pub name: Vec<u8>,
    pub desc: Vec<u8>,
    pub total_supply: T,
}

/// The abstract value of [`Erc20MintableBurnable`].
pub struct TokenDetails<T> {
    pub name: Seq<u8>,
    pub desc: Seq<u8>,
    pub total_supply: T,
}

impl<T: Copy> View for Erc20MintableBurnable<T> {
    type V = TokenDetails<T>;

    open spec fn view(&self) -> TokenDetails<T> {
        TokenDetails { name: self.name@, desc: self.desc@, total_supply: self.total_supply }
    }
}

/// Events deposited by the ledger.
#[derive(Clone, Copy, Debug, PartialEq, Eq, Structural)]
pub enum Event {
    /// `Transfer(token, from, to, value)`.
    Transfer(TokenId, AccountId, AccountId, TokenBalance),
}

/// The abstract state of the ledger.
pub struct TokensState {
    /// The id that the next created token gets.
    pub next_token_id: TokenId,
    /// The details of each token that has an entry.
    pub token_table: Map<TokenId, TokenDetails<TokenBalance>>,
    /// The balance entries, by token and account.
    pub balances: Map<(TokenId, AccountId), TokenBalance>,
    /// The events deposited so far, oldest first.
    pub events: Seq<Event>,
}

/// The ledger.
pub struct Module {
    next_token_id: TokenId,
    token_table: BTreeMap<TokenId, Erc20MintableBurnable<TokenBalance>>,
    balances: BTreeMap<(TokenId, AccountId), TokenBalance>,
    events: Vec<Event>,
}

impl View for Module {
    type V = TokensState;

    closed spec fn view(&self) -> TokensState {
        TokensState {
            next_token_id: self.next_token_id,
            token_table: self.token_table@.map_values(
                |t: Erc20MintableBurnable<TokenBalance>| t@,
            ),
            balances: self.balances@,
            events: self.events@,
        }
    }
}

/// The state of a fresh ledger: no token, no balance, next id 0.
pub open spec fn genesis() -> TokensState {
    TokensState {
        next_token_id: 0,
        token_table: Map::empty(),
        balances: Map::empty(),
        events: Seq::empty(),
    }
}

/// The balance of `who` in `token`; 0 where there is no entry.
pub open spec fn balance(s: TokensState, token: TokenId, who: AccountId) -> TokenBalance {
    if s.balances.contains_key((token, who)) {
        s.balances[(token, who)]
    } else {
        0
    }
}

/// The details of `token`; empty name and description and no supply where
/// there is no entry.
pub open spec fn details(s: TokensState, token: TokenId) -> TokenDetails<TokenBalance> {
    if s.token_table.contains_key(token) {
        s.token_table[token]
    } else {
        TokenDetails { name: Seq::empty(), desc: Seq::empty(), total_supply: 0 }
    }
}

/// The total supply of `token`; 0 where it has no entry.
pub open spec fn total_supply(s: TokensState, token: TokenId) -> TokenBalance {
    details(s, token).total_supply
}

/// `init`: a signed origin creates a token with the next id and receives
/// the whole supply.
pub open spec fn spec_init(
    s: TokensState,
    origin: Origin,
    name: Seq<u8>,
    desc: Seq<u8>,
    supply: TokenBalance,
) -> (TokensState, Result<(), DispatchError>) {
    match spec_ensure_signed(origin) {
        Err(e) => (s, Err(e)),
        Ok(sender) => if name.len() > 64 {
            (s, Err(DispatchError::TokenNameTooLong))
        } else if desc.len() > 32 {
            (s, Err(DispatchError::TokenDescTooLong))
        } else if s.next_token_id == u64::MAX {
            (s, Err(DispatchError::TokenIdOverflow))
        } else {
            let id = s.next_token_id;
            (
                TokensState {
                    next_token_id: (id + 1) as TokenId,
                    token_table: s.token_table.insert(
                        id,
                        TokenDetails { name, desc, total_supply: supply },
                    ),
                    balances: s.balances.insert((id, sender), supply),
                    events: s.events,
                },
                Ok(()),
            )
        },
    }
}

/// Moves `value` of `token` from `from` to `to`. The sender needs a balance
/// entry that covers the value. A transfer to oneself changes no balance; a
/// transfer to another account debits the sender and credits the receiver,
/// and is refused where the receiver's balance would overflow. A successful
/// transfer deposits its `Transfer` event.
pub open spec fn spec_transfer(
    s: TokensState,
    token: TokenId,
    from: AccountId,
    to: AccountId,
    value: TokenBalance,
) -> (TokensState, Result<(), DispatchError>) {
    if !s.balances.contains_key((token, from)) {
        (s, Err(DispatchError::AccountDoesNotOwnToken))
    } else if s.balances[(token, from)] < value {
        (s, Err(DispatchError::NotEnoughBalance))
    } else if from == to {
        (
            TokensState { events: s.events.push(Event::Transfer(token, from, to, value)), ..s },
            Ok(()),
        )
    } else if balance(s, token, to) + value > u128::MAX {
        (s, Err(DispatchError::BalanceOverflow))
    } else {
        (
            TokensState {
                balances: s.balances.insert(
                    (token, from),
                    (s.balances[(token, from)] - value) as TokenBalance,
                ).insert((token, to), (balance(s, token, to) + value) as TokenBalance),
                events: s.events.push(Event::Transfer(token, from, to, value)),
                ..s
            },
            Ok(()),
        )
    }
}

/// `transfer`: `spec_transfer` from the account that signed `origin`.
pub open spec fn spec_transfer_signed(
    s: TokensState,
    origin: Origin,
    token: TokenId,
    to: AccountId,
    value: TokenBalance,
) -> (TokensState, Result<(), DispatchError>) {
    match spec_ensure_signed(origin) {
        Err(e) => (s, Err(e)),
        Ok(sender) => spec_transfer(s, token, sender, to, value),
    }
}

/// Adds `value` to the balance of `owner`.
pub open spec fn spec_add_token_to_owner(
    s: TokensState,
    token: TokenId,
    owner: AccountId,
    value: TokenBalance,
) -> (TokensState, Result<(), DispatchError>) {
    if balance(s, token, owner) + value > u128::MAX {
        (s, Err(DispatchError::BalanceOverflow))
    } else {
        (
            TokensState {
                balances: s.balances.insert(
                    (token, owner),
                    (balance(s, token, owner) + value) as TokenBalance,
                ),
                ..s
            },
            Ok(()),
        )
    }
}

/// Subtracts `value` from the balance of `owner`.
pub open spec fn spec_sub_token_from_owner(
    s: TokensState,
    token: TokenId,
    owner: AccountId,
    value: TokenBalance,
) -> (TokensState, Result<(), DispatchError>) {
    if balance(s, token, owner) < value {
        (s, Err(DispatchError::BalanceOverflow))
    } else {
        (
            TokensState {
                balances: s.balances.insert(
                    (token, owner),
                    (balance(s, token, owner) - value) as TokenBalance,
                ),
                ..s
            },
            Ok(()),
        )
    }
}

/// Adds `value` to the total supply of `token`.
pub open spec fn spec_add_token_to_total_supply(
    s: TokensState,
    token: TokenId,
    value: TokenBalance,
) -> (TokensState, Result<(), DispatchError>) {
    let d = details(s, token);
    if d.total_supply + value > u128::MAX {
        (s, Err(DispatchError::TotalSupplyOverflow))
    } else {
        (
            TokensState {
                token_table: s.token_table.insert(
                    token,
                    TokenDetails {
                        name: d.name,
                        desc: d.desc,
                        total_supply: (d.total_supply + value) as TokenBalance,
                    },
                ),
                ..s
            },
            Ok(()),
        )
    }
}

/// Subtracts `value` from the total supply of `token`.
pub open spec fn spec_sub_token_from_total_supply(
    s: TokensState,
    token: TokenId,
    value: TokenBalance,
) -> (TokensState, Result<(), DispatchError>) {
    let d = details(s, token);
    if d.total_supply < value {
        (s, Err(DispatchError::TotalSupplyOverflow))
    } else {
        (
            TokensState {
                token_table: s.token_table.insert(
                    token,
                    TokenDetails {
                        name: d.name,
                        desc: d.desc,
                        total_supply: (d.total_supply - value) as TokenBalance,
                    },
                ),
                ..s
            },
            Ok(()),
        )
    }
}

/// `mint`: adds `value` to the balance of `owner`, then to the total
/// supply. Where the second step fails, the first step's write stays.
pub open spec fn spec_mint(
    s: TokensState,
    token: TokenId,
    owner: AccountId,
    value: TokenBalance,
) -> (TokensState, Result<(), DispatchError>) {
    let (s1, r1) = spec_add_token_to_owner(s, token, owner, value);
    match r1 {
        Err(e) => (s1, Err(e)),
        Ok(_) => spec_add_token_to_total_supply(s1, token, value),
    }
}

/// `burn`: subtracts `value` from the balance of `owner`, then from the
/// total supply. Where the second step fails, the first step's write stays.
pub open spec fn spec_burn(
    s: TokensState,
    token: TokenId,
    owner: AccountId,
    value: TokenBalance,
) -> (TokensState, Result<(), DispatchError>) {
    let (s1, r1) = spec_sub_token_from_owner(s, token, owner, value);
    match r1 {
        Err(e) => (s1, Err(e)),
        Ok(_) => spec_sub_token_from_total_supply(s1, token, value),
    }
}

impl Module {
    /// A ledger with no token: the first token gets id 0.
    pub fn new() -> (m: Module)
        ensures
            m@ == genesis(),
    {
        let m = Module {
            next_token_id: 0,
            token_table: BTreeMap::new(),
            balances: BTreeMap::new(),
            events: Vec::new(),
        };
        assert(m@.token_table =~= Map::empty());
        m
    }

    /// A ledger with no token whose next created token gets the id `next`,
    /// as genesis storage can set it.
    pub fn from_next_token_id(next: TokenId) -> (m: Module)
        ensures
            m@ == (TokensState { next_token_id: next, ..genesis() }),
    {
        let m = Module {
            next_token_id: next,
            token_table: BTreeMap::new(),
            balances: BTreeMap::new(),
            events: Vec::new(),
        };
        assert(m@.token_table =~= Map::empty());
        m
    }

    /// The ledger holds finitely many balance entries.
    pub proof fn lemma_balances_finite(&self)
        ensures
            self@.balances.dom().finite(),
    {
    }

    /// The id that the next created token gets.
    pub fn token_id(&self) -> (r: TokenId)
        ensures
            r == self@.next_token_id,
    {
        self.next_token_id
    }

    /// The balance of `key.1` in token `key.0`; 0 where there is no entry.
    pub fn balance_of(&self, key: (TokenId, AccountId)) -> (r: TokenBalance)
        ensures
            r == balance(self@, key.0, key.1),
    {
        match self.balances.get(&key) {
            Some(b) => *b,
            None => 0,
        }
    }

    /// Whether `key.1` has a balance entry in token `key.0`.
    pub fn balance_exists(&self, key: (TokenId, AccountId)) -> (r: bool)
        ensures
            r == self@.balances.contains_key(key),
    {
        self.balances.contains_key(&key)
    }

    /// The details of `token`; empty name and description and no supply
    /// where it has no entry.
    pub fn token_details(&self, token: TokenId) -> (r: Erc20MintableBurnable<TokenBalance>)
        ensures
            r@ == details(self@, token),
    {
        match self.token_table.get(&token) {
            Some(d) => Erc20MintableBurnable {
                name: copy_bytes(&d.name),
                desc: copy_bytes(&d.desc),
                total_supply: d.total_supply,
            },
            None => Erc20MintableBurnable {
                name: Vec::new(),
                desc: Vec::new(),
                total_supply: 0,
            },
        }
    }

    /// The events deposited so far, oldest first.
    pub fn events(&self) -> (r: &Vec<Event>)
        ensures
            r@ == self@.events,
    {
        &self.events
    }

    /// Creates a token named `name` with description `desc` and supply
    /// `total_supply`, all of it held by the signer of `origin`.
    pub fn init(&mut self, origin: Origin, name: Vec<u8>, desc: Vec<u8>, total_supply: TokenBalance) -> (r:
        Result<(), DispatchError>)
        ensures
            (final(self)@, r) == spec_init(old(self)@, origin, name@, desc@, total_supply),
    {
        let sender = match ensure_signed(origin) {
            Ok(s) => s,
            Err(e) => return Err(e),
        };
        if name.len() > 64 {
            return Err(DispatchError::TokenNameTooLong);
        }
        if desc.len() > 32 {
            return Err(DispatchError::TokenDescTooLong);
        }
        let token_id = self.next_token_id;
        let next_token_id = match token_id.checked_add(1) {
            Some(n) => n,
            None => return Err(DispatchError::TokenIdOverflow),
        };
        self.next_token_id = next_token_id;
        let ghost (name_v, desc_v) = (name@, desc@);
        let token = Erc20MintableBurnable { name, desc, total_supply };
        self.token_table.insert(token_id, token);
        self.balances.insert((token_id, sender), total_supply);
        proof {
            let post = spec_init(old(self)@, origin, name_v, desc_v, total_supply).0;
            assert(self@.token_table =~= post.token_table);
        }
        Ok(())
    }

    /// Moves `value` of `token_id` from the signer of `origin` to `to`.
    pub fn transfer(&mut self, origin: Origin, token_id: TokenId, to: AccountId, value: TokenBalance) -> (r:
        Result<(), DispatchError>)
        ensures
            (final(self)@, r) == spec_transfer_signed(old(self)@, origin, token_id, to, value),
    {
        let sender = match ensure_signed(origin) {
            Ok(s) => s,
            Err(e) => return Err(e),
        };
        self._transfer(token_id, sender, to, value)
    }

    /// Adds `value` of `token_id` to `owner` and to the total supply.
    pub fn mint(&mut self, token_id: TokenId, owner: AccountId, value: TokenBalance) -> (r: Result<
        (),
        DispatchError,
    >)
        ensures
            (final(self)@, r) == spec_mint(old(self)@, token_id, owner, value),
    {
        self._mint(token_id, owner, value)
    }

    /// Takes `value` of `token_id` from `owner` and from the total supply.
    pub fn burn(&mut self, token_id: TokenId, owner: AccountId, value: TokenBalance) -> (r: Result<
        (),
        DispatchError,
    >)
        ensures
            (final(self)@, r) == spec_burn(old(self)@, token_id, owner, value),
    {
        self._burn(token_id, owner, value)
    }

    fn _transfer(&mut self, token_id: TokenId, from: AccountId, to: AccountId, value: TokenBalance) -> (r:
        Result<(), DispatchError>)
        ensures
            (final(self)@, r) == spec_transfer(old(self)@, token_id, from, to, value),
    {
        if !self.balances.contains_key(&(token_id, from)) {
            return Err(DispatchError::AccountDoesNotOwnToken);
        }
        let sender_balance = self.balance_of((token_id, from));
        if !(sender_balance >= value) {
            return Err(DispatchError::NotEnoughBalance);
        }
        if from == to {
            self.events.push(Event::Transfer(token_id, from, to, value));
            return Ok(());
        }
        let updated_from_balance = match sender_balance.checked_sub(value) {
            Some(b) => b,
            None => return Err(DispatchError::BalanceOverflow),
        };
        let receiver_balance = self.balance_of((token_id, to));
        let updated_to_balance = match receiver_balance.checked_add(value) {
            Some(b) => b,
            None => return Err(DispatchError::BalanceOverflow),
        };
        self.balances.insert((token_id, from), updated_from_balance);
        self.balances.insert((token_id, to), updated_to_balance);
        self.events.push(Event::Transfer(token_id, from, to, value));
        Ok(())
    }

    fn _add_token_to_owner(&mut self, token_id: TokenId, owner: AccountId, value: TokenBalance) -> (r:
        Result<(), DispatchError>)
        ensures
            (final(self)@, r) == spec_add_token_to_owner(old(self)@, token_id, owner, value),
    {
        let owner_balance = self.balance_of((token_id, owner));
        let updated_balance = match owner_balance.checked_add(value) {
            Some(b) => b,
            None => return Err(DispatchError::BalanceOverflow),
        };
        self.balances.insert((token_id, owner), updated_balance);
        Ok(())
    }

    fn _sub_token_from_owner(&mut self, token_id: TokenId, owner: AccountId, value: TokenBalance) -> (r:
        Result<(), DispatchError>)
        ensures
            (final(self)@, r) == spec_sub_token_from_owner(old(self)@, token_id, owner, value),
    {
        let owner_balance = self.balance_of((token_id, owner));
        let updated_balance = match owner_balance.checked_sub(value) {
            Some(b) => b,
            None => return Err(DispatchError::BalanceOverflow),
        };
        self.balances.insert((token_id, owner), updated_balance);
        Ok(())
    }

    fn _add_token_to_total_supply(&mut self, token_id: TokenId, value: TokenBalance) -> (r: Result<
        (),
        DispatchError,
    >)
        ensures
            (final(self)@, r) == spec_add_token_to_total_supply(old(self)@, token_id, value),
    {
        let token = self.token_details(token_id);
        let updated_total_supply = match token.total_supply.checked_add(value) {
            Some(t) => t,
            None => return Err(DispatchError::TotalSupplyOverflow),
        };
        let updated_token = Erc20MintableBurnable {
            name: token.name,
            desc: token.desc,
            total_supply: updated_total_supply,
        };
        self.token_table.insert(token_id, updated_token);
        proof {
            let post = spec_add_token_to_total_supply(old(self)@, token_id, value).0;
            assert(self@.token_table =~= post.token_table);
        }
        Ok(())
    }

    fn _sub_token_from_total_supply(&mut self, token_id: TokenId, value: TokenBalance) -> (r: Result<
        (),
        DispatchError,
    >)
        ensures
            (final(self)@, r) == spec_sub_token_from_total_supply(old(self)@, token_id, value),
    {
        let token = self.token_details(token_id);
        let updated_total_supply = match token.total_supply.checked_sub(value) {
            Some(t) => t,
            None => return Err(DispatchError::TotalSupplyOverflow),
        };
        let updated_token = Erc20MintableBurnable {
            name: token.name,
            desc: token.desc,
            total_supply: updated_total_supply,
        };
        self.token_table.insert(token_id, updated_token);
        proof {
            let post = spec_sub_token_from_total_supply(old(self)@, token_id, value).0;
            assert(self@.token_table =~= post.token_table);
        }
        Ok(())
    }

    fn _mint(&mut self, token_id: TokenId, owner: AccountId, value: TokenBalance) -> (r: Result<
        (),
        DispatchError,
    >)
        ensures
            (final(self)@, r) == spec_mint(old(self)@, token_id, owner, value),
    {
        match self._add_token_to_owner(token_id, owner, value) {
            Ok(_) => {},
            Err(e) => return Err(e),
        }
        self._add_token_to_total_supply(token_id, value)
    }

    fn _burn(&mut self, token_id: TokenId, owner: AccountId, value: TokenBalance) -> (r: Result<
        (),
        DispatchError,
    >)
        ensures
            (final(self)@, r) == spec_burn(old(self)@, token_id, owner, value),
    {
        match self._sub_token_from_owner(token_id, owner, value) {
            Ok(_) => {},
            Err(e) => return Err(e),
        }
        self._sub_token_from_total_supply(token_id, value)
    }
}

} // verus!
