//! Origins of dispatched calls and the errors that dispatchable calls return.
use vstd::prelude::*;

verus! {

/// Account identifier used by the runtime.
pub type AccountId = u64;

/// Where a dispatched call comes from.
#[derive(Clone, Copy, Debug, PartialEq, Eq, Structural)]
pub enum Origin {
    /// The call was signed by the given account.
    Signed(AccountId),
    /// The call comes from the root (privileged) origin.
    Root,
    /// The call is unsigned (the runtime's `None` origin).
    Unsigned,
}

/// Errors returned by the dispatchable calls. Each variant carries one of
/// the messages that the runtime reports, see [`DispatchError::as_str`].
#[derive(Clone, Copy, Debug, PartialEq, Eq, Structural)]
pub enum DispatchError {
    /// The origin is not a signed origin.
    BadOrigin,
    /// A token name longer than 64 bytes.
    TokenNameTooLong,
    /// A token description longer than 32 bytes.
    TokenDescTooLong,
    /// The next token id does not fit.
    TokenIdOverflow,
    /// The sender has no balance entry for the token.
    AccountDoesNotOwnToken,
    /// The sender's balance is smaller than the amount to transfer.
    NotEnoughBalance,
    /// A balance would leave the range of the balance type.
    BalanceOverflow,
    /// A total supply would leave the range of the balance type.
    TotalSupplyOverflow,
    /// The external chain id is already registered.
    ChainIdExists,
    /// The external chain id is not registered.
    ChainIdNotExists,
    /// The external transaction was already pledged.
    ExtTxidAlreadyPledged,
    /// There is no pledge record for the external transaction.
    PledgeRecordNotExist,
    /// The sender's balance does not cover the pledged amount.
    InsufficientBalanceForWithdraw,
    /// The pledge cannot be withdrawn by the sender.
    WithdrawFailed,
}

/// The message that the runtime reports for an error.
pub open spec fn error_message(e: DispatchError) -> Seq<char> {
    match e {
        DispatchError::BadOrigin => "bad origin: expected to be a signed origin"@,
        DispatchError::TokenNameTooLong => "token name cannot exceed 64 bytes"@,
        DispatchError::TokenDescTooLong => "token desc cannot exceed 32 bytes"@,
        DispatchError::TokenIdOverflow => "overflow in calculating next token id"@,
        DispatchError::AccountDoesNotOwnToken => "Account does not own this token"@,
        DispatchError::NotEnoughBalance => "Not enough balance."@,
        DispatchError::BalanceOverflow => "overflow in calculating balance"@,
        DispatchError::TotalSupplyOverflow => "overflow in calculating total_supply"@,
        DispatchError::ChainIdExists => "ChainId already exists."@,
        DispatchError::ChainIdNotExists => "Chain id not exists."@,
        DispatchError::ExtTxidAlreadyPledged => "ext_txid already pledged"@,
        DispatchError::PledgeRecordNotExist => "This ext_txid PledgeRecords does not exist"@,
        DispatchError::InsufficientBalanceForWithdraw => "Not sufficient balance for withdraw"@,
        DispatchError::WithdrawFailed => "Withdraw failed."@,
    }
}

impl DispatchError {
    /// The message that the runtime reports for this error.
    pub fn as_str(&self) -> (s: &'static str)
        ensures
            s@ == error_message(*self),
    {
        match self {
            DispatchError::BadOrigin => "bad origin: expected to be a signed origin",
            DispatchError::TokenNameTooLong => "token name cannot exceed 64 bytes",
            DispatchError::TokenDescTooLong => "token desc cannot exceed 32 bytes",
            DispatchError::TokenIdOverflow => "overflow in calculating next token id",
            DispatchError::AccountDoesNotOwnToken => "Account does not own this token",
            DispatchError::NotEnoughBalance => "Not enough balance.",
            DispatchError::BalanceOverflow => "overflow in calculating balance",
            DispatchError::TotalSupplyOverflow => "overflow in calculating total_supply",
            DispatchError::ChainIdExists => "ChainId already exists.",
            DispatchError::ChainIdNotExists => "Chain id not exists.",
            DispatchError::ExtTxidAlreadyPledged => "ext_txid already pledged",
            DispatchError::PledgeRecordNotExist => "This ext_txid PledgeRecords does not exist",
            DispatchError::InsufficientBalanceForWithdraw => "Not sufficient balance for withdraw",
            DispatchError::WithdrawFailed => "Withdraw failed.",
        }
    }
}

/// The signer of an origin, or `BadOrigin` where it is not signed.
pub open spec fn spec_ensure_signed(o: Origin) -> Result<AccountId, DispatchError> {
    match o {
        Origin::Signed(who) => Ok(who),
        _ => Err(DispatchError::BadOrigin),
    }
}

/// Returns the account that signed `o`; fails on root and unsigned origins.
pub fn ensure_signed(o: Origin) -> (r: Result<AccountId, DispatchError>)
    ensures
        r == spec_ensure_signed(o),
{
    match o {
        Origin::Signed(who) => Ok(who),
        _ => Err(DispatchError::BadOrigin),
    }
}

} // verus!
