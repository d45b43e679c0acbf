use daqiao::daqiao::{Event, Module, PledgeInfo};
use daqiao::system::{DispatchError, Origin};

const ADMIN: u64 = 100;
const ALICE: u64 = 1;
const BOB: u64 = 2;
const ETH: u32 = 1;
const FABRIC: u32 = 2;

fn bridge_with_chain() -> Module {
    let mut m = Module::new();
    assert_eq!(m.tokens_mut().init(Origin::Signed(ADMIN), b"ETH".to_vec(), vec![], 0), Ok(()));
    assert_eq!(m.register(Origin::Signed(ADMIN), ETH, 0), Ok(()));
    m
}

#[test]
fn register_links_chain_to_token() {
    let mut m = Module::new();
    assert_eq!(m.chain_token(ETH), None);
    assert_eq!(m.register(Origin::Signed(ADMIN), ETH, 3), Ok(()));
    assert_eq!(m.chain_token(ETH), Some(3));
    assert_eq!(m.chain_token(FABRIC), None);
}

#[test]
fn register_twice_is_refused() {
    let mut m = Module::new();
    assert_eq!(m.register(Origin::Signed(ADMIN), ETH, 3), Ok(()));
    assert_eq!(m.register(Origin::Signed(BOB), ETH, 4), Err(DispatchError::ChainIdExists));
    assert_eq!(m.chain_token(ETH), Some(3));
}

#[test]
fn register_needs_signed_origin() {
    let mut m = Module::new();
    assert_eq!(m.register(Origin::Root, ETH, 3), Err(DispatchError::BadOrigin));
    assert_eq!(m.register(Origin::Unsigned, ETH, 3), Err(DispatchError::BadOrigin));
    assert_eq!(m.chain_token(ETH), None);
}

#[test]
fn pledge_mints_and_records() {
    let mut m = bridge_with_chain();
    assert_eq!(m.pledge(Origin::Signed(ADMIN), ETH, b"0xabc".to_vec(), 500, ALICE), Ok(()));
    assert_eq!(m.tokens().balance_of((0, ALICE)), 500);
    assert_eq!(m.tokens().token_details(0).total_supply, 500);
    assert!(m.pledge_record_exists(&b"0xabc".to_vec()));
    let pi = m.pledge_records(&b"0xabc".to_vec());
    assert_eq!(
        pi,
        PledgeInfo {
            chain_id: ETH,
            ext_txid: b"0xabc".to_vec(),
            account_id: ALICE,
            pledge_amount: 500,
            can_withdraw: true,
            withdraw_history: vec![],
            withdraw_address: vec![],
        }
    );
    assert_eq!(m.events(), &vec![Event::Pledged(ETH, b"0xabc".to_vec(), ALICE, 500)]);
}

#[test]
fn pledge_on_unregistered_chain_is_refused() {
    let mut m = bridge_with_chain();
    assert_eq!(
        m.pledge(Origin::Signed(ADMIN), FABRIC, b"tx".to_vec(), 5, ALICE),
        Err(DispatchError::ChainIdNotExists)
    );
    assert!(!m.pledge_record_exists(&b"tx".to_vec()));
    assert_eq!(m.tokens().balance_of((0, ALICE)), 0);
}

#[test]
fn pledge_twice_is_refused() {
    let mut m = bridge_with_chain();
    assert_eq!(m.pledge(Origin::Signed(ADMIN), ETH, b"tx".to_vec(), 5, ALICE), Ok(()));
    assert_eq!(
        m.pledge(Origin::Signed(ADMIN), ETH, b"tx".to_vec(), 7, BOB),
        Err(DispatchError::ExtTxidAlreadyPledged)
    );
    assert_eq!(m.tokens().balance_of((0, BOB)), 0);
    assert_eq!(m.pledge_records(&b"tx".to_vec()).account_id, ALICE);
    assert_eq!(m.events().len(), 1);
}

#[test]
fn pledge_needs_signed_origin() {
    let mut m = bridge_with_chain();
    assert_eq!(m.pledge(Origin::Root, ETH, b"tx".to_vec(), 5, ALICE), Err(DispatchError::BadOrigin));
    assert!(!m.pledge_record_exists(&b"tx".to_vec()));
}

#[test]
fn pledge_refused_by_mint_records_nothing() {
    let mut m = bridge_with_chain();
    assert_eq!(m.pledge(Origin::Signed(ADMIN), ETH, b"a".to_vec(), u128::MAX, ALICE), Ok(()));
    assert_eq!(
        m.pledge(Origin::Signed(ADMIN), ETH, b"b".to_vec(), 1, ALICE),
        Err(DispatchError::BalanceOverflow)
    );
    assert_eq!(
        m.pledge(Origin::Signed(ADMIN), ETH, b"c".to_vec(), 1, BOB),
        Err(DispatchError::TotalSupplyOverflow)
    );
    // The mint's credit to BOB stays, the pledge is not recorded.
    assert_eq!(m.tokens().balance_of((0, BOB)), 1);
    assert!(!m.pledge_record_exists(&b"c".to_vec()));
    assert_eq!(m.events().len(), 1);
}

#[test]
fn pledge_then_withdraw_restores_balance() {
    let mut m = bridge_with_chain();
    assert_eq!(m.pledge(Origin::Signed(ADMIN), ETH, b"tx".to_vec(), 500, ALICE), Ok(()));
    assert_eq!(m.withdraw(Origin::Signed(ALICE), ETH, b"tx".to_vec(), b"0xdest".to_vec()), Ok(()));
    assert_eq!(m.tokens().balance_of((0, ALICE)), 0);
    assert_eq!(m.tokens().token_details(0).total_supply, 0);
    let pi = m.pledge_records(&b"tx".to_vec());
    assert!(!pi.can_withdraw);
    assert_eq!(pi.pledge_amount, 0);
    assert_eq!(pi.withdraw_address, b"0xdest".to_vec());
    assert_eq!(pi.account_id, ALICE);
    assert_eq!(
        m.events(),
        &vec![
            Event::Pledged(ETH, b"tx".to_vec(), ALICE, 500),
            Event::Withdrawn(ETH, b"tx".to_vec(), ALICE, 500, b"0xdest".to_vec()),
        ]
    );
}

#[test]
fn withdraw_twice_is_refused() {
    let mut m = bridge_with_chain();
    assert_eq!(m.pledge(Origin::Signed(ADMIN), ETH, b"tx".to_vec(), 500, ALICE), Ok(()));
    assert_eq!(m.withdraw(Origin::Signed(ALICE), ETH, b"tx".to_vec(), b"d1".to_vec()), Ok(()));
    assert_eq!(
        m.withdraw(Origin::Signed(ALICE), ETH, b"tx".to_vec(), b"d2".to_vec()),
        Err(DispatchError::WithdrawFailed)
    );
    assert_eq!(m.pledge_records(&b"tx".to_vec()).withdraw_address, b"d1".to_vec());
    assert_eq!(m.events().len(), 2);
}

#[test]
fn withdraw_of_unknown_pledge_is_refused() {
    let mut m = bridge_with_chain();
    assert_eq!(
        m.withdraw(Origin::Signed(ALICE), ETH, b"none".to_vec(), vec![]),
        Err(DispatchError::PledgeRecordNotExist)
    );
    assert!(!m.pledge_record_exists(&b"none".to_vec()));
    let pi = m.pledge_records(&b"none".to_vec());
    assert_eq!(pi, PledgeInfo::default());
}

#[test]
fn withdraw_on_unregistered_chain_is_refused() {
    let mut m = bridge_with_chain();
    assert_eq!(m.pledge(Origin::Signed(ADMIN), ETH, b"tx".to_vec(), 5, ALICE), Ok(()));
    assert_eq!(
        m.withdraw(Origin::Signed(ALICE), FABRIC, b"tx".to_vec(), vec![]),
        Err(DispatchError::ChainIdNotExists)
    );
    assert!(m.pledge_records(&b"tx".to_vec()).can_withdraw);
}

#[test]
fn withdraw_needs_the_pledged_balance() {
    let mut m = bridge_with_chain();
    assert_eq!(m.pledge(Origin::Signed(ADMIN), ETH, b"tx".to_vec(), 50, ALICE), Ok(()));
    assert_eq!(m.tokens_mut().transfer(Origin::Signed(ALICE), 0, BOB, 20), Ok(()));
    assert_eq!(
        m.withdraw(Origin::Signed(ALICE), ETH, b"tx".to_vec(), vec![]),
        Err(DispatchError::InsufficientBalanceForWithdraw)
    );
    assert_eq!(m.tokens().balance_of((0, ALICE)), 30);
    assert!(m.pledge_records(&b"tx".to_vec()).can_withdraw);
}

#[test]
fn withdraw_by_another_account_is_refused() {
    let mut m = bridge_with_chain();
    assert_eq!(m.pledge(Origin::Signed(ADMIN), ETH, b"tx".to_vec(), 50, ALICE), Ok(()));
    assert_eq!(m.pledge(Origin::Signed(ADMIN), ETH, b"tx2".to_vec(), 50, BOB), Ok(()));
    assert_eq!(
        m.withdraw(Origin::Signed(BOB), ETH, b"tx".to_vec(), vec![]),
        Err(DispatchError::WithdrawFailed)
    );
    assert_eq!(m.tokens().balance_of((0, BOB)), 50);
    assert!(m.pledge_records(&b"tx".to_vec()).can_withdraw);
}

#[test]
fn withdraw_needs_signed_origin() {
    let mut m = bridge_with_chain();
    assert_eq!(m.pledge(Origin::Signed(ADMIN), ETH, b"tx".to_vec(), 50, ALICE), Ok(()));
    assert_eq!(m.withdraw(Origin::Root, ETH, b"tx".to_vec(), vec![]), Err(DispatchError::BadOrigin));
    assert!(m.pledge_records(&b"tx".to_vec()).can_withdraw);
}

#[test]
fn withdraw_refused_by_burn_keeps_record_update() {
    let mut m = bridge_with_chain();
    assert_eq!(m.pledge(Origin::Signed(ADMIN), ETH, b"tx".to_vec(), 50, ALICE), Ok(()));
    // A mint failing on the supply keeps BOB's credit; burning part of it
    // brings the supply below the pledged amount.
    assert_eq!(m.tokens_mut().mint(0, BOB, u128::MAX), Err(DispatchError::TotalSupplyOverflow));
    assert_eq!(m.tokens_mut().burn(0, BOB, 40), Ok(()));
    assert_eq!(m.tokens().token_details(0).total_supply, 10);
    assert_eq!(
        m.withdraw(Origin::Signed(ALICE), ETH, b"tx".to_vec(), b"d".to_vec()),
        Err(DispatchError::TotalSupplyOverflow)
    );
    let pi = m.pledge_records(&b"tx".to_vec());
    assert!(!pi.can_withdraw);
    assert_eq!(pi.pledge_amount, 0);
    assert_eq!(m.tokens().balance_of((0, ALICE)), 0);
    assert_eq!(m.events().len(), 1);
}

#[test]
fn dummy_stores_sum_and_deposits_event() {
    let mut m = Module::new();
    assert_eq!(m.dummy_value(), 0);
    assert_eq!(m.dummy(Origin::Unsigned, 40, 2), Ok(()));
    assert_eq!(m.dummy_value(), 42);
    assert_eq!(m.events(), &vec![Event::DummyCalled(40)]);
}

#[test]
fn pledges_of_several_transactions_are_kept_apart() {
    let mut m = bridge_with_chain();
    assert_eq!(m.pledge(Origin::Signed(ADMIN), ETH, b"t1".to_vec(), 10, ALICE), Ok(()));
    assert_eq!(m.pledge(Origin::Signed(ADMIN), ETH, b"t2".to_vec(), 20, BOB), Ok(()));
    assert_eq!(m.pledge(Origin::Signed(ADMIN), ETH, b"t3".to_vec(), 30, ALICE), Ok(()));
    assert_eq!(m.withdraw(Origin::Signed(BOB), ETH, b"t2".to_vec(), b"x".to_vec()), Ok(()));
    assert!(m.pledge_records(&b"t1".to_vec()).can_withdraw);
    assert!(!m.pledge_records(&b"t2".to_vec()).can_withdraw);
    assert_eq!(m.pledge_records(&b"t3".to_vec()).pledge_amount, 30);
    assert_eq!(m.tokens().balance_of((0, ALICE)), 40);
    assert_eq!(m.tokens().balance_of((0, BOB)), 0);
    assert_eq!(m.tokens().token_details(0).total_supply, 40);
}
