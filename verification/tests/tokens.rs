use daqiao::system::{DispatchError, Origin};
use daqiao::tokens::{Event, Module};

fn ledger_with_token(owner: u64, supply: u128) -> Module {
    let mut m = Module::new();
    assert_eq!(m.init(Origin::Signed(owner), b"Bridge Token".to_vec(), b"BRT".to_vec(), supply), Ok(()));
    m
}

#[test]
fn init_creates_token_with_next_id() {
    let mut m = Module::new();
    assert_eq!(m.token_id(), 0);
    assert_eq!(m.init(Origin::Signed(1), b"Alpha".to_vec(), b"A".to_vec(), 1000), Ok(()));
    assert_eq!(m.token_id(), 1);
    assert_eq!(m.balance_of((0, 1)), 1000);
    let d = m.token_details(0);
    assert_eq!(d.name, b"Alpha".to_vec());
    assert_eq!(d.desc, b"A".to_vec());
    assert_eq!(d.total_supply, 1000);
    assert_eq!(m.init(Origin::Signed(2), b"Beta".to_vec(), vec![], 7), Ok(()));
    assert_eq!(m.token_id(), 2);
    assert_eq!(m.balance_of((1, 2)), 7);
    assert_eq!(m.balance_of((0, 2)), 0);
    assert!(m.events().is_empty());
}

#[test]
fn init_refuses_unsigned_origins() {
    let mut m = Module::new();
    assert_eq!(m.init(Origin::Root, vec![], vec![], 1), Err(DispatchError::BadOrigin));
    assert_eq!(m.init(Origin::Unsigned, vec![], vec![], 1), Err(DispatchError::BadOrigin));
    assert_eq!(m.token_id(), 0);
    assert_eq!(m.token_details(0).total_supply, 0);
}

#[test]
fn init_checks_name_and_desc_lengths() {
    let mut m = Module::new();
    assert_eq!(m.init(Origin::Signed(1), vec![b'n'; 65], vec![], 1), Err(DispatchError::TokenNameTooLong));
    assert_eq!(m.init(Origin::Signed(1), vec![], vec![b'd'; 33], 1), Err(DispatchError::TokenDescTooLong));
    assert_eq!(m.token_id(), 0);
    assert_eq!(m.init(Origin::Signed(1), vec![b'n'; 64], vec![b'd'; 32], 1), Ok(()));
    assert_eq!(m.token_id(), 1);
    assert_eq!(m.token_details(0).name.len(), 64);
}

#[test]
fn transfer_moves_balance_and_deposits_event() {
    let mut m = ledger_with_token(1, 100);
    assert_eq!(m.transfer(Origin::Signed(1), 0, 2, 30), Ok(()));
    assert_eq!(m.balance_of((0, 1)), 70);
    assert_eq!(m.balance_of((0, 2)), 30);
    assert_eq!(m.token_details(0).total_supply, 100);
    assert_eq!(m.events(), &vec![Event::Transfer(0, 1, 2, 30)]);
    assert_eq!(m.transfer(Origin::Signed(1), 0, 2, 70), Ok(()));
    assert_eq!(m.balance_of((0, 1)), 0);
    assert!(m.balance_exists((0, 1)));
    assert_eq!(m.balance_of((0, 2)), 100);
}

#[test]
fn transfer_refusals_change_nothing() {
    let mut m = ledger_with_token(1, 100);
    assert_eq!(m.transfer(Origin::Root, 0, 2, 1), Err(DispatchError::BadOrigin));
    assert_eq!(m.transfer(Origin::Signed(3), 0, 2, 0), Err(DispatchError::AccountDoesNotOwnToken));
    assert_eq!(m.transfer(Origin::Signed(1), 1, 2, 0), Err(DispatchError::AccountDoesNotOwnToken));
    assert_eq!(m.transfer(Origin::Signed(1), 0, 2, 101), Err(DispatchError::NotEnoughBalance));
    assert_eq!(m.balance_of((0, 1)), 100);
    assert_eq!(m.balance_of((0, 2)), 0);
    assert!(m.events().is_empty());
}

#[test]
fn transfer_refuses_receiver_overflow() {
    let mut m = ledger_with_token(1, 10);
    assert_eq!(m.mint(0, 2, u128::MAX), Err(DispatchError::TotalSupplyOverflow));
    assert_eq!(m.balance_of((0, 2)), u128::MAX);
    assert_eq!(m.transfer(Origin::Signed(1), 0, 2, 1), Err(DispatchError::BalanceOverflow));
    assert_eq!(m.balance_of((0, 1)), 10);
}

#[test]
fn transfer_to_oneself_changes_no_balance() {
    let mut m = ledger_with_token(1, 100);
    assert_eq!(m.transfer(Origin::Signed(1), 0, 1, 40), Ok(()));
    assert_eq!(m.balance_of((0, 1)), 100);
    assert_eq!(m.token_details(0).total_supply, 100);
    assert_eq!(m.events(), &vec![Event::Transfer(0, 1, 1, 40)]);
    assert_eq!(m.transfer(Origin::Signed(1), 0, 1, 101), Err(DispatchError::NotEnoughBalance));
    assert_eq!(m.transfer(Origin::Signed(3), 0, 3, 0), Err(DispatchError::AccountDoesNotOwnToken));
}

#[test]
fn transfer_to_oneself_of_a_full_balance_succeeds() {
    let mut m = Module::new();
    assert_eq!(m.mint(0, 1, u128::MAX), Ok(()));
    assert_eq!(m.transfer(Origin::Signed(1), 0, 1, u128::MAX), Ok(()));
    assert_eq!(m.balance_of((0, 1)), u128::MAX);
}

#[test]
fn mint_credits_owner_and_supply() {
    let mut m = ledger_with_token(1, 100);
    assert_eq!(m.mint(0, 2, 25), Ok(()));
    assert_eq!(m.balance_of((0, 2)), 25);
    assert_eq!(m.token_details(0).total_supply, 125);
    assert_eq!(m.token_details(0).name, b"Bridge Token".to_vec());
}

#[test]
fn mint_on_unknown_token_creates_entry() {
    let mut m = Module::new();
    assert_eq!(m.mint(9, 4, 5), Ok(()));
    assert_eq!(m.balance_of((9, 4)), 5);
    let d = m.token_details(9);
    assert_eq!(d.total_supply, 5);
    assert!(d.name.is_empty());
    assert!(d.desc.is_empty());
    assert_eq!(m.token_id(), 0);
}

#[test]
fn mint_refuses_owner_overflow_without_change() {
    let mut m = Module::new();
    assert_eq!(m.mint(0, 1, u128::MAX - 1), Ok(()));
    assert_eq!(m.mint(0, 1, 2), Err(DispatchError::BalanceOverflow));
    assert_eq!(m.balance_of((0, 1)), u128::MAX - 1);
    assert_eq!(m.token_details(0).total_supply, u128::MAX - 1);
}

#[test]
fn mint_failing_on_supply_keeps_the_credit() {
    let mut m = Module::new();
    assert_eq!(m.mint(0, 1, u128::MAX), Ok(()));
    assert_eq!(m.mint(0, 2, 3), Err(DispatchError::TotalSupplyOverflow));
    assert_eq!(m.balance_of((0, 2)), 3);
    assert_eq!(m.token_details(0).total_supply, u128::MAX);
}

#[test]
fn burn_debits_owner_and_supply() {
    let mut m = ledger_with_token(1, 100);
    assert_eq!(m.burn(0, 1, 40), Ok(()));
    assert_eq!(m.balance_of((0, 1)), 60);
    assert_eq!(m.token_details(0).total_supply, 60);
}

#[test]
fn burn_beyond_balance_is_refused() {
    let mut m = ledger_with_token(1, 100);
    assert_eq!(m.burn(0, 1, 101), Err(DispatchError::BalanceOverflow));
    assert_eq!(m.burn(0, 2, 1), Err(DispatchError::BalanceOverflow));
    assert_eq!(m.balance_of((0, 1)), 100);
    assert_eq!(m.token_details(0).total_supply, 100);
}

#[test]
fn burn_failing_on_supply_keeps_the_debit() {
    let mut m = ledger_with_token(1, 100);
    // A mint failing on the supply keeps its credit: account 2 holds more
    // than the whole supply.
    assert_eq!(m.mint(0, 2, u128::MAX), Err(DispatchError::TotalSupplyOverflow));
    assert_eq!(m.burn(0, 2, 120), Err(DispatchError::TotalSupplyOverflow));
    assert_eq!(m.balance_of((0, 2)), u128::MAX - 120);
    assert_eq!(m.token_details(0).total_supply, 100);
}

#[test]
fn mint_then_burn_restores() {
    let mut m = ledger_with_token(1, 100);
    assert_eq!(m.transfer(Origin::Signed(1), 0, 2, 10), Ok(()));
    assert_eq!(m.mint(0, 2, 33), Ok(()));
    assert_eq!(m.burn(0, 2, 33), Ok(()));
    assert_eq!(m.balance_of((0, 1)), 90);
    assert_eq!(m.balance_of((0, 2)), 10);
    assert_eq!(m.token_details(0).total_supply, 100);
}

#[test]
fn error_messages() {
    assert_eq!(DispatchError::BadOrigin.as_str(), "bad origin: expected to be a signed origin");
    assert_eq!(DispatchError::TokenNameTooLong.as_str(), "token name cannot exceed 64 bytes");
    assert_eq!(DispatchError::TokenDescTooLong.as_str(), "token desc cannot exceed 32 bytes");
    assert_eq!(DispatchError::TokenIdOverflow.as_str(), "overflow in calculating next token id");
    assert_eq!(DispatchError::AccountDoesNotOwnToken.as_str(), "Account does not own this token");
    assert_eq!(DispatchError::NotEnoughBalance.as_str(), "Not enough balance.");
    assert_eq!(DispatchError::BalanceOverflow.as_str(), "overflow in calculating balance");
    assert_eq!(DispatchError::TotalSupplyOverflow.as_str(), "overflow in calculating total_supply");
    assert_eq!(DispatchError::ChainIdExists.as_str(), "ChainId already exists.");
    assert_eq!(DispatchError::ChainIdNotExists.as_str(), "Chain id not exists.");
    assert_eq!(DispatchError::ExtTxidAlreadyPledged.as_str(), "ext_txid already pledged");
    assert_eq!(DispatchError::PledgeRecordNotExist.as_str(), "This ext_txid PledgeRecords does not exist");
    assert_eq!(DispatchError::InsufficientBalanceForWithdraw.as_str(), "Not sufficient balance for withdraw");
    assert_eq!(DispatchError::WithdrawFailed.as_str(), "Withdraw failed.");
}

#[test]
fn ensure_signed_gives_the_signer() {
    assert_eq!(daqiao::system::ensure_signed(Origin::Signed(42)), Ok(42));
    assert_eq!(daqiao::system::ensure_signed(Origin::Root), Err(DispatchError::BadOrigin));
}

#[test]
fn init_refuses_when_token_ids_run_out() {
    let mut m = Module::from_next_token_id(u64::MAX - 1);
    assert_eq!(m.init(Origin::Signed(1), vec![], vec![], 5), Ok(()));
    assert_eq!(m.token_id(), u64::MAX);
    assert_eq!(m.balance_of((u64::MAX - 1, 1)), 5);
    assert_eq!(m.init(Origin::Signed(1), vec![], vec![], 6), Err(DispatchError::TokenIdOverflow));
    assert_eq!(m.token_id(), u64::MAX);
    assert_eq!(m.balance_of((u64::MAX, 1)), 0);
}
