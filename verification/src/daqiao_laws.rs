//! Properties of the bridge's transitions that span calls or hold of every
//! state.
use vstd::prelude::*;

use crate::daqiao::{
    new_pledge, spec_dummy, spec_pledge, spec_register, spec_withdraw, withdrawn_pledge,
    DaqiaoState, EventView,
};
use crate::system::{AccountId, DispatchError, Origin};
use crate::token_laws::{
    lemma_burn_keeps_supply_matching, lemma_mint_keeps_supply_matching, supply_matches,
};
use crate::tokens::{
    balance, spec_burn, spec_init, spec_mint, spec_transfer_signed, total_supply, TokenBalance,
    TokenId,
};

verus! {

/// A chain is registered at most once: registering succeeds exactly for a
/// signed origin and an unregistered chain, and once a chain is registered
/// every further registration of it is refused and changes nothing.
pub proof fn lemma_register_once(
    s: DaqiaoState,
    who: AccountId,
    chain_id: u32,
    token_id: TokenId,
    other: AccountId,
    other_token: TokenId,
)
    ensures
        spec_register(s, Origin::Signed(who), chain_id, token_id).1 is Ok <==> !s.chain_token.contains_key(
            chain_id,
        ),
        spec_register(s, Origin::Signed(who), chain_id, token_id).1 is Ok ==> {
            let s1 = spec_register(s, Origin::Signed(who), chain_id, token_id).0;
            &&& s1.chain_token[chain_id] == token_id
            &&& spec_register(s1, Origin::Signed(other), chain_id, other_token) == (s1, Err::<
                (),
                DispatchError,
            >(DispatchError::ChainIdExists))
        },
{
}

/// A successful pledge mints the amount to the receiver in the token of the
/// chain and records the pledge as withdrawable by the receiver.
pub proof fn lemma_pledge_mints(
    s: DaqiaoState,
    origin: Origin,
    chain_id: u32,
    ext_txid: Seq<u8>,
    amount: TokenBalance,
    receiver: AccountId,
)
    requires
        spec_pledge(s, origin, chain_id, ext_txid, amount, receiver).1 is Ok,
    ensures
        ({
            let s1 = spec_pledge(s, origin, chain_id, ext_txid, amount, receiver).0;
            let token = s.chain_token[chain_id];
            &&& s.chain_token.contains_key(chain_id)
            &&& !s.pledge_records.contains_key(ext_txid)
            &&& balance(s1.tokens, token, receiver) == balance(s.tokens, token, receiver) + amount
            &&& total_supply(s1.tokens, token) == total_supply(s.tokens, token) + amount
            &&& s1.pledge_records[ext_txid] == new_pledge(chain_id, ext_txid, receiver, amount)
            &&& s1.pledge_records[ext_txid].chain_id == chain_id
            &&& s1.pledge_records[ext_txid].ext_txid == ext_txid
            &&& s1.pledge_records[ext_txid].account_id == receiver
            &&& s1.pledge_records[ext_txid].pledge_amount == amount
            &&& s1.pledge_records[ext_txid].can_withdraw
            &&& s1.pledge_records[ext_txid].withdraw_history.len() == 0
            &&& s1.pledge_records[ext_txid].withdraw_address.len() == 0
            &&& s1.pledge_records.dom() == s.pledge_records.dom().insert(ext_txid)
            &&& forall|k: Seq<u8>|
                k != ext_txid && s.pledge_records.contains_key(k) ==> #[trigger] s1.pledge_records[k]
                    == s.pledge_records[k]
            &&& forall|t: TokenId, a: AccountId|
                (t, a) != (token, receiver) ==> balance(s1.tokens, t, a) == balance(s.tokens, t, a)
            &&& s1.chain_token == s.chain_token
            &&& s1.dummy_value == s.dummy_value
            &&& s1.events == s.events.push(EventView::Pledged(chain_id, ext_txid, receiver, amount))
        }),
{
}

/// An external transaction is pledged at most once: after it has been
/// pledged, pledging it again is refused and changes nothing.
pub proof fn lemma_pledge_once(
    s: DaqiaoState,
    origin: Origin,
    chain_id: u32,
    ext_txid: Seq<u8>,
    amount: TokenBalance,
    receiver: AccountId,
    who: AccountId,
    chain2: u32,
    amount2: TokenBalance,
    receiver2: AccountId,
)
    requires
        spec_pledge(s, origin, chain_id, ext_txid, amount, receiver).1 is Ok,
        spec_pledge(s, origin, chain_id, ext_txid, amount, receiver).0.chain_token.contains_key(
            chain2,
        ),
    ensures
        ({
            let s1 = spec_pledge(s, origin, chain_id, ext_txid, amount, receiver).0;
            spec_pledge(s1, Origin::Signed(who), chain2, ext_txid, amount2, receiver2) == (s1, Err::<
                (),
                DispatchError,
            >(DispatchError::ExtTxidAlreadyPledged))
        }),
{
}

/// A refused pledge changes nothing, unless it was refused by the mint;
/// then only the mint's own writes stay and no pledge is recorded.
pub proof fn lemma_refused_pledge(
    s: DaqiaoState,
    origin: Origin,
    chain_id: u32,
    ext_txid: Seq<u8>,
    amount: TokenBalance,
    receiver: AccountId,
)
    requires
        spec_pledge(s, origin, chain_id, ext_txid, amount, receiver).1 is Err,
    ensures
        ({
            let (s1, r) = spec_pledge(s, origin, chain_id, ext_txid, amount, receiver);
            &&& s1.pledge_records == s.pledge_records
            &&& s1.chain_token == s.chain_token
            &&& s1.events == s.events
            &&& r != Err::<(), DispatchError>(DispatchError::BalanceOverflow) && r != Err::<
                (),
                DispatchError,
            >(DispatchError::TotalSupplyOverflow) ==> s1 == s
        }),
{
}

/// Only the receiver of a pledge can withdraw it, and only while it is
/// withdrawable; a successful withdraw burns the pledged amount from the
/// receiver and leaves the record withdrawn to the given address.
pub proof fn lemma_withdraw_by_receiver(
    s: DaqiaoState,
    who: AccountId,
    chain_id: u32,
    ext_txid: Seq<u8>,
    ext_address: Seq<u8>,
)
    requires
        spec_withdraw(s, Origin::Signed(who), chain_id, ext_txid, ext_address).1 is Ok,
    ensures
        ({
            let s1 = spec_withdraw(s, Origin::Signed(who), chain_id, ext_txid, ext_address).0;
            let pi = s.pledge_records[ext_txid];
            let token = s.chain_token[chain_id];
            &&& s.pledge_records.contains_key(ext_txid)
            &&& pi.account_id == who
            &&& pi.can_withdraw
            &&& balance(s1.tokens, token, who) == balance(s.tokens, token, who) - pi.pledge_amount
            &&& total_supply(s1.tokens, token) == total_supply(s.tokens, token) - pi.pledge_amount
            &&& s1.pledge_records[ext_txid] == withdrawn_pledge(pi, ext_address)
            &&& !s1.pledge_records[ext_txid].can_withdraw
            &&& s1.pledge_records[ext_txid].pledge_amount == 0
            &&& s1.pledge_records[ext_txid].withdraw_address == ext_address
            &&& s1.pledge_records[ext_txid].chain_id == pi.chain_id
            &&& s1.pledge_records[ext_txid].ext_txid == pi.ext_txid
            &&& s1.pledge_records[ext_txid].account_id == who
            &&& s1.pledge_records[ext_txid].withdraw_history == pi.withdraw_history
            &&& s1.pledge_records.dom() == s.pledge_records.dom()
            &&& forall|k: Seq<u8>|
                k != ext_txid && s.pledge_records.contains_key(k) ==> #[trigger] s1.pledge_records[k]
                    == s.pledge_records[k]
            &&& forall|t: TokenId, a: AccountId|
                (t, a) != (token, who) ==> balance(s1.tokens, t, a) == balance(s.tokens, t, a)
            &&& s1.chain_token == s.chain_token
            &&& s1.dummy_value == s.dummy_value
            &&& s1.events == s.events.push(
                EventView::Withdrawn(chain_id, ext_txid, who, pi.pledge_amount, ext_address),
            )
        }),
{
}

/// A pledge is withdrawn at most once: after a successful withdraw, every
/// further withdraw of the same transaction is refused and changes nothing.
pub proof fn lemma_withdraw_once(
    s: DaqiaoState,
    who: AccountId,
    chain_id: u32,
    ext_txid: Seq<u8>,
    ext_address: Seq<u8>,
    origin2: Origin,
    chain2: u32,
    address2: Seq<u8>,
)
    requires
        spec_withdraw(s, Origin::Signed(who), chain_id, ext_txid, ext_address).1 is Ok,
    ensures
        ({
            let s1 = spec_withdraw(s, Origin::Signed(who), chain_id, ext_txid, ext_address).0;
            let (s2, r) = spec_withdraw(s1, origin2, chain2, ext_txid, address2);
            &&& r is Err
            &&& s2 == s1
        }),
{
}

/// A refused withdraw changes nothing, unless the burn refused it; then
/// the record is already marked withdrawn and the burn's own writes stay.
pub proof fn lemma_refused_withdraw(
    s: DaqiaoState,
    origin: Origin,
    chain_id: u32,
    ext_txid: Seq<u8>,
    ext_address: Seq<u8>,
)
    requires
        spec_withdraw(s, origin, chain_id, ext_txid, ext_address).1 is Err,
    ensures
        ({
            let (s1, r) = spec_withdraw(s, origin, chain_id, ext_txid, ext_address);
            &&& r != Err::<(), DispatchError>(DispatchError::TotalSupplyOverflow) ==> s1 == s
            &&& s1.events == s.events
        }),
{
}

/// Pledging to a receiver and then withdrawing as that receiver succeeds,
/// and gives back the receiver's balance and the token's total supply of
/// the start.
pub proof fn lemma_pledge_then_withdraw_restores(
    s: DaqiaoState,
    origin: Origin,
    chain_id: u32,
    ext_txid: Seq<u8>,
    amount: TokenBalance,
    receiver: AccountId,
    ext_address: Seq<u8>,
)
    requires
        spec_pledge(s, origin, chain_id, ext_txid, amount, receiver).1 is Ok,
    ensures
        ({
            let s1 = spec_pledge(s, origin, chain_id, ext_txid, amount, receiver).0;
            let (s2, r) = spec_withdraw(s1, Origin::Signed(receiver), chain_id, ext_txid, ext_address);
            let token = s.chain_token[chain_id];
            &&& r is Ok
            &&& forall|t: TokenId, a: AccountId| balance(s2.tokens, t, a) == balance(s.tokens, t, a)
            &&& forall|t: TokenId| total_supply(s2.tokens, t) == total_supply(s.tokens, t)
            &&& s2.pledge_records[ext_txid] == withdrawn_pledge(
                new_pledge(chain_id, ext_txid, receiver, amount),
                ext_address,
            )
        }),
{
    crate::token_laws::lemma_mint_then_burn_restores(
        s.tokens,
        s.chain_token[chain_id],
        receiver,
        amount,
    );
}

/// A call into the bridge or into its token ledger.
pub enum Call {
    TokenInit(Origin, Seq<u8>, Seq<u8>, TokenBalance),
    TokenTransfer(Origin, TokenId, AccountId, TokenBalance),
    TokenMint(TokenId, AccountId, TokenBalance),
    TokenBurn(TokenId, AccountId, TokenBalance),
    Register(Origin, u32, TokenId),
    Pledge(Origin, u32, Seq<u8>, TokenBalance, AccountId),
    Withdraw(Origin, u32, Seq<u8>, Seq<u8>),
    Dummy(u32, u32),
}

/// The state after the call `c`, whatever its result.
pub open spec fn apply(s: DaqiaoState, c: Call) -> DaqiaoState {
    match c {
        Call::TokenInit(o, n, d, v) => DaqiaoState { tokens: spec_init(s.tokens, o, n, d, v).0, ..s },
        Call::TokenTransfer(o, t, to, v) => DaqiaoState {
            tokens: spec_transfer_signed(s.tokens, o, t, to, v).0,
            ..s
        },
        Call::TokenMint(t, w, v) => DaqiaoState { tokens: spec_mint(s.tokens, t, w, v).0, ..s },
        Call::TokenBurn(t, w, v) => DaqiaoState { tokens: spec_burn(s.tokens, t, w, v).0, ..s },
        Call::Register(o, c, t) => spec_register(s, o, c, t).0,
        Call::Pledge(o, c, x, v, r) => spec_pledge(s, o, c, x, v, r).0,
        Call::Withdraw(o, c, x, a) => spec_withdraw(s, o, c, x, a).0,
        Call::Dummy(x, c) => spec_dummy(s, x, c),
    }
}

/// The state after the calls `calls`, in order.
pub open spec fn run(s: DaqiaoState, calls: Seq<Call>) -> DaqiaoState
    decreases calls.len(),
{
    if calls.len() == 0 {
        s
    } else {
        run(apply(s, calls[0]), calls.drop_first())
    }
}

/// No call removes a pledge record, changes a record that is no longer
/// withdrawable, or changes a chain's registration.
pub proof fn lemma_apply_keeps_records_and_registrations(s: DaqiaoState, c: Call)
    ensures
        forall|x: Seq<u8>|
            s.pledge_records.contains_key(x) ==> #[trigger] apply(s, c).pledge_records.contains_key(x),
        forall|x: Seq<u8>|
            s.pledge_records.contains_key(x) && !s.pledge_records[x].can_withdraw
                ==> #[trigger] apply(s, c).pledge_records[x] == s.pledge_records[x],
        forall|k: u32|
            s.chain_token.contains_key(k) ==> #[trigger] apply(s, c).chain_token.contains_key(k)
                && apply(s, c).chain_token[k] == s.chain_token[k],
{
}

/// What [`lemma_apply_keeps_records_and_registrations`] says of one call
/// holds of every sequence of calls.
pub proof fn lemma_run_keeps_records_and_registrations(s: DaqiaoState, calls: Seq<Call>)
    ensures
        forall|x: Seq<u8>|
            s.pledge_records.contains_key(x) ==> #[trigger] run(s, calls).pledge_records.contains_key(x),
        forall|x: Seq<u8>|
            s.pledge_records.contains_key(x) && !s.pledge_records[x].can_withdraw
                ==> #[trigger] run(s, calls).pledge_records[x] == s.pledge_records[x],
        forall|k: u32|
            s.chain_token.contains_key(k) ==> #[trigger] run(s, calls).chain_token.contains_key(k)
                && run(s, calls).chain_token[k] == s.chain_token[k],
    decreases calls.len(),
{
    if calls.len() > 0 {
        let s1 = apply(s, calls[0]);
        let rest = calls.drop_first();
        lemma_apply_keeps_records_and_registrations(s, calls[0]);
        lemma_run_keeps_records_and_registrations(s1, rest);
        assert(run(s, calls) == run(s1, rest));
        assert forall|x: Seq<u8>| s.pledge_records.contains_key(x) implies #[trigger] run(
            s,
            calls,
        ).pledge_records.contains_key(x) by {
            assert(s1.pledge_records.contains_key(x));
        }
        assert forall|x: Seq<u8>|
            s.pledge_records.contains_key(x) && !s.pledge_records[x].can_withdraw implies #[trigger] run(
            s,
            calls,
        ).pledge_records[x] == s.pledge_records[x] by {
            assert(s1.pledge_records.contains_key(x));
            assert(s1.pledge_records[x] == s.pledge_records[x]);
        }
        assert forall|k: u32| s.chain_token.contains_key(k) implies #[trigger] run(
            s,
            calls,
        ).chain_token.contains_key(k) && run(s, calls).chain_token[k] == s.chain_token[k] by {
            assert(s1.chain_token.contains_key(k));
        }
    }
}

/// A registration is permanent: after a chain has been registered to a
/// token, it stays registered to that token whatever calls follow.
pub proof fn lemma_registration_permanent(
    s: DaqiaoState,
    origin: Origin,
    chain_id: u32,
    token_id: TokenId,
    calls: Seq<Call>,
)
    requires
        spec_register(s, origin, chain_id, token_id).1 is Ok,
    ensures
        ({
            let s1 = run(spec_register(s, origin, chain_id, token_id).0, calls);
            s1.chain_token.contains_key(chain_id) && s1.chain_token[chain_id] == token_id
        }),
{
    lemma_run_keeps_records_and_registrations(spec_register(s, origin, chain_id, token_id).0, calls);
}

/// An external transaction is pledged at most once: after it has been
/// pledged, whatever calls follow (withdrawals included), every further
/// pledge of it is refused and changes nothing.
pub proof fn lemma_pledged_at_most_once(
    s: DaqiaoState,
    origin: Origin,
    chain_id: u32,
    ext_txid: Seq<u8>,
    amount: TokenBalance,
    receiver: AccountId,
    calls: Seq<Call>,
    origin2: Origin,
    chain2: u32,
    amount2: TokenBalance,
    receiver2: AccountId,
)
    requires
        spec_pledge(s, origin, chain_id, ext_txid, amount, receiver).1 is Ok,
    ensures
        ({
            let s1 = run(spec_pledge(s, origin, chain_id, ext_txid, amount, receiver).0, calls);
            let (s2, r) = spec_pledge(s1, origin2, chain2, ext_txid, amount2, receiver2);
            &&& r is Err
            &&& s2 == s1
        }),
{
    lemma_run_keeps_records_and_registrations(
        spec_pledge(s, origin, chain_id, ext_txid, amount, receiver).0,
        calls,
    );
}

/// A pledge is withdrawn at most once: after a successful withdraw,
/// whatever calls follow, the record stays withdrawn, and every further
/// withdraw of it is refused (with `WithdrawFailed` where the origin is
/// signed and the chain registered) and changes nothing.
pub proof fn lemma_withdrawn_at_most_once(
    s: DaqiaoState,
    who: AccountId,
    chain_id: u32,
    ext_txid: Seq<u8>,
    ext_address: Seq<u8>,
    calls: Seq<Call>,
    origin2: Origin,
    chain2: u32,
    address2: Seq<u8>,
)
    requires
        spec_withdraw(s, Origin::Signed(who), chain_id, ext_txid, ext_address).1 is Ok,
    ensures
        ({
            let s0 = spec_withdraw(s, Origin::Signed(who), chain_id, ext_txid, ext_address).0;
            let s1 = run(s0, calls);
            let (s2, r) = spec_withdraw(s1, origin2, chain2, ext_txid, address2);
            &&& s1.pledge_records[ext_txid] == s0.pledge_records[ext_txid]
            &&& !s1.pledge_records[ext_txid].can_withdraw
            &&& r is Err
            &&& s2 == s1
            &&& (origin2 is Signed && s1.chain_token.contains_key(chain2)) ==> r == Err::<
                (),
                DispatchError,
            >(DispatchError::WithdrawFailed)
        }),
{
    let s0 = spec_withdraw(s, Origin::Signed(who), chain_id, ext_txid, ext_address).0;
    lemma_run_keeps_records_and_registrations(s0, calls);
}

/// A pledge depends on the origin being signed, not on who signed it.
pub proof fn lemma_pledge_ignores_signer(
    s: DaqiaoState,
    a1: AccountId,
    a2: AccountId,
    chain_id: u32,
    ext_txid: Seq<u8>,
    amount: TokenBalance,
    receiver: AccountId,
)
    ensures
        spec_pledge(s, Origin::Signed(a1), chain_id, ext_txid, amount, receiver) == spec_pledge(
            s,
            Origin::Signed(a2),
            chain_id,
            ext_txid,
            amount,
            receiver,
        ),
{
}

/// Successful pledges and withdraws keep supply conservation: a token
/// whose holdings matched its total supply still does afterwards.
pub proof fn lemma_bridge_keeps_supply_matching(
    s: DaqiaoState,
    origin: Origin,
    chain_id: u32,
    ext_txid: Seq<u8>,
    amount: TokenBalance,
    receiver: AccountId,
    ext_address: Seq<u8>,
)
    requires
        s.tokens.balances.dom().finite(),
    ensures
        spec_pledge(s, origin, chain_id, ext_txid, amount, receiver).1 is Ok ==> forall|t: TokenId|
            supply_matches(s.tokens, t) ==> #[trigger] supply_matches(
                spec_pledge(s, origin, chain_id, ext_txid, amount, receiver).0.tokens,
                t,
            ),
        spec_withdraw(s, origin, chain_id, ext_txid, ext_address).1 is Ok ==> forall|t: TokenId|
            supply_matches(s.tokens, t) ==> #[trigger] supply_matches(
                spec_withdraw(s, origin, chain_id, ext_txid, ext_address).0.tokens,
                t,
            ),
{
    if spec_pledge(s, origin, chain_id, ext_txid, amount, receiver).1 is Ok {
        lemma_mint_keeps_supply_matching(s.tokens, s.chain_token[chain_id], receiver, amount);
    }
    if spec_withdraw(s, origin, chain_id, ext_txid, ext_address).1 is Ok {
        if let Origin::Signed(w) = origin {
            lemma_burn_keeps_supply_matching(
                s.tokens,
                s.chain_token[chain_id],
                w,
                s.pledge_records[ext_txid].pledge_amount,
            );
        }
    }
}

/// A registration from an unsigned origin is refused and changes nothing.
pub proof fn lemma_register_needs_signature(
    s: DaqiaoState,
    origin: Origin,
    chain_id: u32,
    token_id: TokenId,
)
    requires
        !(origin is Signed),
    ensures
        spec_register(s, origin, chain_id, token_id) == (s, Err::<(), DispatchError>(
            DispatchError::BadOrigin,
        )),
{
}

/// When a pledge succeeds: exactly for a signed origin, a registered chain,
/// a transaction id without a pledge record (of any length) and a mint of
/// the amount to the receiver that stays within the balance type, both for
/// the receiver's balance and for the token's total supply. Each refusal
/// names its reason in that order.
pub proof fn lemma_pledge_succeeds_iff(
    s: DaqiaoState,
    origin: Origin,
    chain_id: u32,
    ext_txid: Seq<u8>,
    amount: TokenBalance,
    receiver: AccountId,
)
    ensures
        spec_pledge(s, origin, chain_id, ext_txid, amount, receiver).1 is Ok <==> {
            &&& origin is Signed
            &&& s.chain_token.contains_key(chain_id)
            &&& !s.pledge_records.contains_key(ext_txid)
            &&& balance(s.tokens, s.chain_token[chain_id], receiver) + amount <= u128::MAX
            &&& total_supply(s.tokens, s.chain_token[chain_id]) + amount <= u128::MAX
        },
        !(origin is Signed) ==> spec_pledge(s, origin, chain_id, ext_txid, amount, receiver).1
            == Err::<(), DispatchError>(DispatchError::BadOrigin),
        origin is Signed && !s.chain_token.contains_key(chain_id) ==> spec_pledge(
            s,
            origin,
            chain_id,
            ext_txid,
            amount,
            receiver,
        ).1 == Err::<(), DispatchError>(DispatchError::ChainIdNotExists),
        origin is Signed && s.chain_token.contains_key(chain_id) && s.pledge_records.contains_key(
            ext_txid,
        ) ==> spec_pledge(s, origin, chain_id, ext_txid, amount, receiver).1 == Err::<
            (),
            DispatchError,
        >(DispatchError::ExtTxidAlreadyPledged),
{
}

/// When a withdraw succeeds: exactly for a signed origin, a transaction
/// with a pledge record, a registered chain, a sender who is the record's
/// receiver, holds at least the pledged amount of the chain's token and
/// whose pledge is still withdrawable, and a token supply that covers the
/// amount. Each refusal names its reason in the order of these checks.
pub proof fn lemma_withdraw_succeeds_iff(
    s: DaqiaoState,
    origin: Origin,
    chain_id: u32,
    ext_txid: Seq<u8>,
    ext_address: Seq<u8>,
)
    ensures
        spec_withdraw(s, origin, chain_id, ext_txid, ext_address).1 is Ok <==> {
            &&& origin matches Origin::Signed(who)
            &&& s.pledge_records.contains_key(ext_txid)
            &&& s.chain_token.contains_key(chain_id)
            &&& s.pledge_records[ext_txid].pledge_amount <= balance(
                s.tokens,
                s.chain_token[chain_id],
                who,
            )
            &&& s.pledge_records[ext_txid].can_withdraw
            &&& s.pledge_records[ext_txid].account_id == who
            &&& s.pledge_records[ext_txid].pledge_amount <= total_supply(
                s.tokens,
                s.chain_token[chain_id],
            )
        },
        !(origin is Signed) ==> spec_withdraw(s, origin, chain_id, ext_txid, ext_address).1
            == Err::<(), DispatchError>(DispatchError::BadOrigin),
        origin is Signed && !s.pledge_records.contains_key(ext_txid) ==> spec_withdraw(
            s,
            origin,
            chain_id,
            ext_txid,
            ext_address,
        ).1 == Err::<(), DispatchError>(DispatchError::PledgeRecordNotExist),
        origin is Signed && s.pledge_records.contains_key(ext_txid) && !s.chain_token.contains_key(
            chain_id,
        ) ==> spec_withdraw(s, origin, chain_id, ext_txid, ext_address).1 == Err::<(), DispatchError>(
            DispatchError::ChainIdNotExists,
        ),
        origin matches Origin::Signed(who) ==> (s.pledge_records.contains_key(ext_txid)
            && s.chain_token.contains_key(chain_id) && s.pledge_records[ext_txid].pledge_amount
            > balance(s.tokens, s.chain_token[chain_id], who) ==> spec_withdraw(
            s,
            origin,
            chain_id,
            ext_txid,
            ext_address,
        ).1 == Err::<(), DispatchError>(DispatchError::InsufficientBalanceForWithdraw)),
{
}

/// `dummy` stores the integer sum of its two arguments, deposits
/// `DummyCalled(x)` and changes nothing else.
pub proof fn lemma_dummy_stores_sum(s: DaqiaoState, x: u32, chain_id: u32)
    requires
        x + chain_id <= u32::MAX,
    ensures
        spec_dummy(s, x, chain_id).dummy_value as int == x as int + chain_id as int,
        spec_dummy(s, x, chain_id).events == s.events.push(EventView::DummyCalled(x)),
        spec_dummy(s, x, chain_id).tokens == s.tokens,
        spec_dummy(s, x, chain_id).chain_token == s.chain_token,
        spec_dummy(s, x, chain_id).pledge_records == s.pledge_records,
{
}

} // verus!
