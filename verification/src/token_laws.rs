//! Properties of the token ledger's transitions that span calls or hold of
//! every state.
use vstd::prelude::*;

use crate::system::{AccountId, DispatchError, Origin};
use crate::tokens::{
    balance, details, genesis, spec_burn, spec_init, spec_mint, spec_transfer, spec_transfer_signed,
    total_supply, Event, TokenBalance, TokenId, TokensState,
};

verus! {

/// The balance that the entry `k` of `m` contributes to `token`'s holdings.
pub open spec fn contribution(
    m: Map<(TokenId, AccountId), TokenBalance>,
    k: (TokenId, AccountId),
    token: TokenId,
) -> int {
    if m.contains_key(k) && k.0 == token {
        m[k] as int
    } else {
        0
    }
}

/// The holdings of `token`: the sum of all its balances in `m`.
pub open spec fn holdings(m: Map<(TokenId, AccountId), TokenBalance>, token: TokenId) -> int
    decreases m.dom().len(),
{
    if m.dom().finite() && m.dom().len() > 0 {
        let k = m.dom().choose();
        contribution(m, k, token) + holdings(m.remove(k), token)
    } else {
        0
    }
}

/// Whether the holdings of `token` equal its total supply.
pub open spec fn supply_matches(s: TokensState, token: TokenId) -> bool {
    holdings(s.balances, token) == total_supply(s, token) as int
}

/// Holdings can be split at any entry.
pub proof fn lemma_holdings_remove(
    m: Map<(TokenId, AccountId), TokenBalance>,
    k: (TokenId, AccountId),
    token: TokenId,
)
    requires
        m.dom().finite(),
        m.contains_key(k),
    ensures
        holdings(m, token) == contribution(m, k, token) + holdings(m.remove(k), token),
    decreases m.dom().len(),
{
    let c = m.dom().choose();
    assert(m.dom().contains(c));
    if c != k {
        let mc = m.remove(c);
        let mk = m.remove(k);
        lemma_holdings_remove(mc, k, token);
        lemma_holdings_remove(mk, c, token);
        assert(mc.remove(k) =~= mk.remove(c));
        assert(contribution(mc, k, token) == contribution(m, k, token));
        assert(contribution(mk, c, token) == contribution(m, c, token));
    }
}

/// Writing `v` at `k` changes `token`'s holdings by the difference between
/// the new and the old entry.
pub proof fn lemma_holdings_insert(
    m: Map<(TokenId, AccountId), TokenBalance>,
    k: (TokenId, AccountId),
    v: TokenBalance,
    token: TokenId,
)
    requires
        m.dom().finite(),
    ensures
        holdings(m.insert(k, v), token) == holdings(m, token) - contribution(m, k, token)
            + contribution(m.insert(k, v), k, token),
{
    let mi = m.insert(k, v);
    lemma_holdings_remove(mi, k, token);
    if m.contains_key(k) {
        lemma_holdings_remove(m, k, token);
        assert(mi.remove(k) =~= m.remove(k));
    } else {
        assert(mi.remove(k) =~= m);
    }
}

/// A fresh ledger has no holdings and no supply: every token's holdings
/// match its supply.
pub proof fn lemma_genesis_supply_matches(token: TokenId)
    ensures
        supply_matches(genesis(), token),
        genesis().balances.dom().finite(),
{
    assert(genesis().balances.dom() =~= Set::empty());
}

/// Creating a token hands out the next id: afterwards the id counter has
/// moved on by one, the creator holds the whole supply and the token's
/// total supply is that supply. No other balance changes.
pub proof fn lemma_init_creates_token(
    s: TokensState,
    creator: AccountId,
    name: Seq<u8>,
    desc: Seq<u8>,
    supply: TokenBalance,
)
    requires
        spec_init(s, Origin::Signed(creator), name, desc, supply).1 is Ok,
    ensures
        ({
            let s1 = spec_init(s, Origin::Signed(creator), name, desc, supply).0;
            &&& s1.next_token_id == s.next_token_id + 1
            &&& balance(s1, s.next_token_id, creator) == supply
            &&& total_supply(s1, s.next_token_id) == supply
            &&& details(s1, s.next_token_id).name == name
            &&& details(s1, s.next_token_id).desc == desc
            &&& forall|t: TokenId, a: AccountId|
                (t, a) != (s.next_token_id, creator) ==> balance(s1, t, a) == balance(s, t, a)
        }),
{
}

/// A token creation that is refused changes nothing.
pub proof fn lemma_refused_init_changes_nothing(
    s: TokensState,
    origin: Origin,
    name: Seq<u8>,
    desc: Seq<u8>,
    supply: TokenBalance,
)
    requires
        spec_init(s, origin, name, desc, supply).1 is Err,
    ensures
        spec_init(s, origin, name, desc, supply).0 == s,
{
}

/// A transfer to another account moves exactly `value` from the sender to
/// the receiver; a transfer to oneself changes no balance. Either way every
/// other balance, every total supply and every token's holdings (the sum of
/// its balances) stay as they were.
pub proof fn lemma_transfer_conserves_balance(
    s: TokensState,
    token: TokenId,
    from: AccountId,
    to: AccountId,
    value: TokenBalance,
)
    requires
        s.balances.dom().finite(),
        spec_transfer(s, token, from, to, value).1 is Ok,
    ensures
        ({
            let s1 = spec_transfer(s, token, from, to, value).0;
            &&& from != to ==> balance(s1, token, from) == balance(s, token, from) - value
            &&& from != to ==> balance(s1, token, to) == balance(s, token, to) + value
            &&& from == to ==> s1.balances == s.balances
            &&& balance(s1, token, from) + balance(s1, token, to) == balance(s, token, from)
                + balance(s, token, to)
            &&& forall|t: TokenId, a: AccountId|
                (t, a) != (token, from) && (t, a) != (token, to) ==> balance(s1, t, a) == balance(
                    s,
                    t,
                    a,
                )
            &&& forall|t: TokenId| total_supply(s1, t) == total_supply(s, t)
            &&& forall|t: TokenId| #[trigger] holdings(s1.balances, t) == holdings(s.balances, t)
        }),
{
    let s1 = spec_transfer(s, token, from, to, value).0;
    if from != to {
        let m = s.balances;
        let m1 = m.insert((token, from), (m[(token, from)] - value) as TokenBalance);
        assert forall|t: TokenId| #[trigger] holdings(s1.balances, t) == holdings(s.balances, t) by {
            lemma_holdings_insert(m, (token, from), (m[(token, from)] - value) as TokenBalance, t);
            lemma_holdings_insert(m1, (token, to), (balance(s, token, to) + value) as TokenBalance, t);
        }
    }
}

/// A refused transfer changes nothing: every check comes before the first
/// write.
pub proof fn lemma_refused_transfer_changes_nothing(
    s: TokensState,
    origin: Origin,
    token: TokenId,
    to: AccountId,
    value: TokenBalance,
)
    requires
        spec_transfer_signed(s, origin, token, to, value).1 is Err,
    ensures
        spec_transfer_signed(s, origin, token, to, value).0 == s,
{
}

/// A transfer succeeds exactly when the origin is signed, the sender has a
/// balance entry that covers the value, and, for a transfer to another
/// account, the receiver's balance does not overflow.
pub proof fn lemma_transfer_succeeds_iff(
    s: TokensState,
    sender: AccountId,
    token: TokenId,
    to: AccountId,
    value: TokenBalance,
)
    ensures
        spec_transfer_signed(s, Origin::Signed(sender), token, to, value).1 is Ok <==> {
            &&& s.balances.contains_key((token, sender))
            &&& value <= balance(s, token, sender)
            &&& (sender == to || balance(s, token, to) + value <= u128::MAX)
        },
{
}

/// The ledger's events are its successful transfers: a transfer deposits
/// its `Transfer` event exactly when it succeeds, and mint and burn deposit
/// none.
pub proof fn lemma_events_record_transfers(
    s: TokensState,
    token: TokenId,
    from: AccountId,
    to: AccountId,
    value: TokenBalance,
)
    ensures
        spec_transfer(s, token, from, to, value).1 is Ok ==> spec_transfer(
            s,
            token,
            from,
            to,
            value,
        ).0.events == s.events.push(Event::Transfer(token, from, to, value)),
        spec_transfer(s, token, from, to, value).1 is Err ==> spec_transfer(
            s,
            token,
            from,
            to,
            value,
        ).0.events == s.events,
        spec_mint(s, token, to, value).0.events == s.events,
        spec_burn(s, token, to, value).0.events == s.events,
{
}

/// A successful mint adds `value` to the owner's balance and to the
/// token's total supply, and changes no other balance or supply.
pub proof fn lemma_mint_credits(
    s: TokensState,
    token: TokenId,
    owner: AccountId,
    value: TokenBalance,
)
    requires
        spec_mint(s, token, owner, value).1 is Ok,
    ensures
        ({
            let s1 = spec_mint(s, token, owner, value).0;
            &&& balance(s1, token, owner) == balance(s, token, owner) + value
            &&& total_supply(s1, token) == total_supply(s, token) + value
            &&& forall|t: TokenId, a: AccountId|
                (t, a) != (token, owner) ==> balance(s1, t, a) == balance(s, t, a)
            &&& forall|t: TokenId| t != token ==> total_supply(s1, t) == total_supply(s, t)
        }),
{
}

/// A successful burn takes `value` from the owner's balance and from the
/// token's total supply, and changes no other balance or supply.
pub proof fn lemma_burn_debits(
    s: TokensState,
    token: TokenId,
    owner: AccountId,
    value: TokenBalance,
)
    requires
        spec_burn(s, token, owner, value).1 is Ok,
    ensures
        ({
            let s1 = spec_burn(s, token, owner, value).0;
            &&& balance(s1, token, owner) == balance(s, token, owner) - value
            &&& total_supply(s1, token) == total_supply(s, token) - value
            &&& forall|t: TokenId, a: AccountId|
                (t, a) != (token, owner) ==> balance(s1, t, a) == balance(s, t, a)
            &&& forall|t: TokenId| t != token ==> total_supply(s1, t) == total_supply(s, t)
        }),
{
}

/// Burning more than the owner holds is refused with the balance error and
/// changes nothing.
pub proof fn lemma_burn_beyond_balance_refused(
    s: TokensState,
    token: TokenId,
    owner: AccountId,
    value: TokenBalance,
)
    requires
        balance(s, token, owner) < value,
    ensures
        spec_burn(s, token, owner, value) == (s, Err::<(), DispatchError>(
            DispatchError::BalanceOverflow,
        )),
{
}

/// A mint that fails on the total supply keeps the credit to the owner:
/// the owner's balance has grown by `value` and nothing else has changed.
pub proof fn lemma_mint_failing_on_supply_keeps_credit(
    s: TokensState,
    token: TokenId,
    owner: AccountId,
    value: TokenBalance,
)
    requires
        balance(s, token, owner) + value <= u128::MAX,
        total_supply(s, token) + value > u128::MAX,
    ensures
        ({
            let (s1, r) = spec_mint(s, token, owner, value);
            &&& r == Err::<(), DispatchError>(DispatchError::TotalSupplyOverflow)
            &&& balance(s1, token, owner) == balance(s, token, owner) + value
            &&& s1.token_table == s.token_table
            &&& s1.events == s.events
            &&& s1.next_token_id == s.next_token_id
        }),
{
}

/// Minting and then burning the same amount for the same owner succeeds
/// and gives back the balances and total supplies of the start.
pub proof fn lemma_mint_then_burn_restores(
    s: TokensState,
    token: TokenId,
    owner: AccountId,
    value: TokenBalance,
)
    requires
        spec_mint(s, token, owner, value).1 is Ok,
    ensures
        ({
            let s1 = spec_mint(s, token, owner, value).0;
            let (s2, r) = spec_burn(s1, token, owner, value);
            &&& r is Ok
            &&& forall|t: TokenId, a: AccountId| balance(s2, t, a) == balance(s, t, a)
            &&& forall|t: TokenId| total_supply(s2, t) == total_supply(s, t)
            &&& forall|t: TokenId| details(s2, t) == details(s, t)
            &&& s2.next_token_id == s.next_token_id
            &&& s2.events == s.events
        }),
{
}

/// Every transition keeps the balance map finite.
pub proof fn lemma_transitions_keep_finite(
    s: TokensState,
    origin: Origin,
    name: Seq<u8>,
    desc: Seq<u8>,
    token: TokenId,
    who: AccountId,
    to: AccountId,
    value: TokenBalance,
)
    requires
        s.balances.dom().finite(),
    ensures
        spec_init(s, origin, name, desc, value).0.balances.dom().finite(),
        spec_transfer_signed(s, origin, token, to, value).0.balances.dom().finite(),
        spec_mint(s, token, who, value).0.balances.dom().finite(),
        spec_burn(s, token, who, value).0.balances.dom().finite(),
{
}

/// Supply conservation of mint: a successful mint raises the token's
/// holdings and its supply by the same amount, so a token whose holdings
/// matched its supply still does, and every other token's holdings are
/// unchanged.
pub proof fn lemma_mint_keeps_supply_matching(
    s: TokensState,
    token: TokenId,
    owner: AccountId,
    value: TokenBalance,
)
    requires
        s.balances.dom().finite(),
        spec_mint(s, token, owner, value).1 is Ok,
    ensures
        ({
            let s1 = spec_mint(s, token, owner, value).0;
            &&& holdings(s1.balances, token) == holdings(s.balances, token) + value
            &&& forall|t: TokenId| t != token ==> #[trigger] holdings(s1.balances, t) == holdings(s.balances, t)
            &&& forall|t: TokenId| supply_matches(s, t) ==> #[trigger] supply_matches(s1, t)
        }),
{
    let s1 = spec_mint(s, token, owner, value).0;
    let k = (token, owner);
    assert forall|t: TokenId| #[trigger] holdings(s1.balances, t) == holdings(s.balances, t) + (if t == token { value as int } else { 0 }) by {
        lemma_holdings_insert(s.balances, k, (balance(s, token, owner) + value) as TokenBalance, t);
    }
}

/// Supply conservation of burn: a successful burn lowers the token's
/// holdings and its supply by the same amount, so a token whose holdings
/// matched its supply still does, and every other token's holdings are
/// unchanged.
pub proof fn lemma_burn_keeps_supply_matching(
    s: TokensState,
    token: TokenId,
    owner: AccountId,
    value: TokenBalance,
)
    requires
        s.balances.dom().finite(),
        spec_burn(s, token, owner, value).1 is Ok,
    ensures
        ({
            let s1 = spec_burn(s, token, owner, value).0;
            &&& holdings(s1.balances, token) == holdings(s.balances, token) - value
            &&& forall|t: TokenId| t != token ==> #[trigger] holdings(s1.balances, t) == holdings(s.balances, t)
            &&& forall|t: TokenId| supply_matches(s, t) ==> #[trigger] supply_matches(s1, t)
        }),
{
    let s1 = spec_burn(s, token, owner, value).0;
    let k = (token, owner);
    assert forall|t: TokenId| #[trigger] holdings(s1.balances, t) == holdings(s.balances, t) - (if t == token { value as int } else { 0 }) by {
        lemma_holdings_insert(s.balances, k, (balance(s, token, owner) - value) as TokenBalance, t);
    }
}

/// Supply conservation of transfer: a transfer, successful or refused,
/// leaves every token's holdings and supply as they were, so holdings that
/// matched the supply still do.
pub proof fn lemma_transfer_keeps_supply_matching(
    s: TokensState,
    origin: Origin,
    token: TokenId,
    to: AccountId,
    value: TokenBalance,
)
    requires
        s.balances.dom().finite(),
    ensures
        ({
            let s1 = spec_transfer_signed(s, origin, token, to, value).0;
            &&& forall|t: TokenId| #[trigger] holdings(s1.balances, t) == holdings(s.balances, t)
            &&& forall|t: TokenId| supply_matches(s, t) ==> #[trigger] supply_matches(s1, t)
        }),
{
    if let Origin::Signed(from) = origin {
        if spec_transfer(s, token, from, to, value).1 is Ok {
            lemma_transfer_conserves_balance(s, token, from, to, value);
        }
    }
}

/// Supply conservation of token creation: creating a token leaves every
/// other token's holdings and supply as they were, and the new token's
/// holdings match its supply when nobody held it before.
pub proof fn lemma_init_keeps_supply_matching(
    s: TokensState,
    creator: AccountId,
    name: Seq<u8>,
    desc: Seq<u8>,
    supply: TokenBalance,
)
    requires
        s.balances.dom().finite(),
        spec_init(s, Origin::Signed(creator), name, desc, supply).1 is Ok,
    ensures
        ({
            let s1 = spec_init(s, Origin::Signed(creator), name, desc, supply).0;
            let id = s.next_token_id;
            &&& forall|t: TokenId| t != id ==> #[trigger] holdings(s1.balances, t) == holdings(s.balances, t)
            &&& forall|t: TokenId| t != id && supply_matches(s, t) ==> #[trigger] supply_matches(s1, t)
            &&& holdings(s.balances, id) == 0 ==> supply_matches(s1, id)
        }),
{
    let s1 = spec_init(s, Origin::Signed(creator), name, desc, supply).0;
    let id = s.next_token_id;
    assert forall|t: TokenId| #[trigger] holdings(s1.balances, t) == holdings(s.balances, t) - contribution(s.balances, (id, creator), t) + (if t == id { supply as int } else { 0 }) by {
        lemma_holdings_insert(s.balances, (id, creator), supply, t);
    }
    if holdings(s.balances, id) == 0 && s.balances.contains_key((id, creator)) {
        lemma_holdings_remove(s.balances, (id, creator), id);
        lemma_holdings_nonnegative(s.balances.remove((id, creator)), id);
    }
}

/// Holdings are never negative.
pub proof fn lemma_holdings_nonnegative(m: Map<(TokenId, AccountId), TokenBalance>, token: TokenId)
    ensures
        holdings(m, token) >= 0,
    decreases m.dom().len(),
{
    if m.dom().finite() && m.dom().len() > 0 {
        let k = m.dom().choose();
        lemma_holdings_nonnegative(m.remove(k), token);
    }
}

/// When creating a token succeeds: exactly for a signed origin, a name of
/// at most 64 bytes and a description of at most 32 bytes, whatever else
/// they hold, while token ids remain. Each refusal names its reason: an
/// unsigned origin, then a name longer than 64 bytes, then a description
/// longer than 32 bytes, then the exhausted ids.
pub proof fn lemma_init_outcome(
    s: TokensState,
    origin: Origin,
    name: Seq<u8>,
    desc: Seq<u8>,
    supply: TokenBalance,
)
    ensures
        spec_init(s, origin, name, desc, supply).1 is Ok <==> (origin is Signed && name.len() <= 64
            && desc.len() <= 32 && s.next_token_id < u64::MAX),
        !(origin is Signed) ==> spec_init(s, origin, name, desc, supply).1 == Err::<(), DispatchError>(
            DispatchError::BadOrigin,
        ),
        origin is Signed && name.len() > 64 ==> spec_init(s, origin, name, desc, supply).1 == Err::<
            (),
            DispatchError,
        >(DispatchError::TokenNameTooLong),
        origin is Signed && name.len() <= 64 && desc.len() > 32 ==> spec_init(
            s,
            origin,
            name,
            desc,
            supply,
        ).1 == Err::<(), DispatchError>(DispatchError::TokenDescTooLong),
        origin is Signed && name.len() <= 64 && desc.len() <= 32 && s.next_token_id == u64::MAX
            ==> spec_init(s, origin, name, desc, supply).1 == Err::<(), DispatchError>(
            DispatchError::TokenIdOverflow,
        ),
{
}

/// Each refusal of a transfer names its reason: an unsigned origin, then a
/// sender without a balance entry, then a value above the sender's balance,
/// then (between two accounts) a receiver balance that would overflow.
pub proof fn lemma_transfer_refusals(
    s: TokensState,
    origin: Origin,
    token: TokenId,
    to: AccountId,
    value: TokenBalance,
)
    ensures
        !(origin is Signed) ==> spec_transfer_signed(s, origin, token, to, value).1 == Err::<
            (),
            DispatchError,
        >(DispatchError::BadOrigin),
        origin matches Origin::Signed(from) ==> {
            &&& !s.balances.contains_key((token, from)) ==> spec_transfer_signed(
                s,
                origin,
                token,
                to,
                value,
            ).1 == Err::<(), DispatchError>(DispatchError::AccountDoesNotOwnToken)
            &&& s.balances.contains_key((token, from)) && value > balance(s, token, from)
                ==> spec_transfer_signed(s, origin, token, to, value).1 == Err::<(), DispatchError>(
                DispatchError::NotEnoughBalance,
            )
            &&& s.balances.contains_key((token, from)) && value <= balance(s, token, from) && from
                != to && balance(s, token, to) + value > u128::MAX ==> spec_transfer_signed(
                s,
                origin,
                token,
                to,
                value,
            ).1 == Err::<(), DispatchError>(DispatchError::BalanceOverflow)
        },
{
}

/// When a mint succeeds: exactly when neither the owner's balance nor the
/// token's total supply would exceed the balance type's range.
pub proof fn lemma_mint_succeeds_iff(
    s: TokensState,
    token: TokenId,
    owner: AccountId,
    value: TokenBalance,
)
    ensures
        spec_mint(s, token, owner, value).1 is Ok <==> (balance(s, token, owner) + value <= u128::MAX
            && total_supply(s, token) + value <= u128::MAX),
        balance(s, token, owner) + value > u128::MAX ==> spec_mint(s, token, owner, value) == (
            s,
            Err::<(), DispatchError>(DispatchError::BalanceOverflow),
        ),
{
}

/// When a burn succeeds: exactly when the value is at most the owner's
/// balance and at most the token's total supply.
pub proof fn lemma_burn_succeeds_iff(
    s: TokensState,
    token: TokenId,
    owner: AccountId,
    value: TokenBalance,
)
    ensures
        spec_burn(s, token, owner, value).1 is Ok <==> (value <= balance(s, token, owner) && value
            <= total_supply(s, token)),
        value <= balance(s, token, owner) && value > total_supply(s, token) ==> spec_burn(
            s,
            token,
            owner,
            value,
        ).1 == Err::<(), DispatchError>(DispatchError::TotalSupplyOverflow),
{
}

} // verus!
