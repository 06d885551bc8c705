use arb_vault::identity::Identity;
use arb_vault::vault::{
    begin_arbitrage, deposit, deposit_shares, execute_arbitrage_via_router, finish_arbitrage,
    initialize_vault, withdraw, ErrorCode, UserPosition, Vault,
};

fn id(b: u8) -> Identity {
    Identity::new([b; 32])
}

fn vault_with(total_shares: u64) -> Vault {
    Vault { authority: id(1), swap_router: id(2), total_shares, bump: 253 }
}

fn position(owner: u8, shares: u64) -> UserPosition {
    UserPosition { owner: id(owner), shares }
}

#[test]
fn initialize_vault_is_empty() {
    let v = initialize_vault(id(1), id(2), 253);
    assert_eq!(v.authority, id(1));
    assert_eq!(v.swap_router, id(2));
    assert_eq!(v.total_shares, 0);
    assert_eq!(v.bump, 253);
}

#[test]
fn first_deposit_mints_one_for_one() {
    let mut v = initialize_vault(id(1), id(2), 0);
    let mut p = position(5, 0);
    assert_eq!(deposit(&mut v, &mut p, id(5), 1_000, 0), Ok(1_000));
    assert_eq!(v.total_shares, 1_000);
    assert_eq!(p.shares, 1_000);
    assert_eq!(p.owner, id(5));
}

#[test]
fn later_deposit_is_proportional_to_pre_deposit_value() {
    let mut v = vault_with(1_000);
    let mut p = position(6, 0);
    // Pool worth 2000 against 1000 shares: 500 buys 250 shares.
    assert_eq!(deposit(&mut v, &mut p, id(6), 500, 2_000), Ok(250));
    assert_eq!(v.total_shares, 1_250);
    assert_eq!(p.shares, 250);
    // minted / total_after == amount / balance_after: 250 / 1250 == 500 / 2500.
    assert_eq!(250 * 2_500, 500 * 1_250);
    // Rounding down: 333 * 1000 / 2000 = 166.5.
    assert_eq!(deposit_shares(333, 1_000, 2_000), Ok(166));
}

#[test]
fn share_sum_matches_total_across_depositors() {
    let mut v = initialize_vault(id(1), id(2), 0);
    let mut alice = position(5, 0);
    let mut bob = position(6, 0);
    deposit(&mut v, &mut alice, id(5), 1_000, 0).unwrap();
    deposit(&mut v, &mut bob, id(6), 700, 1_500).unwrap();
    assert_eq!(alice.shares + bob.shares, v.total_shares);
    withdraw(&mut v, &mut alice, 400, 2_200).unwrap();
    assert_eq!(alice.shares + bob.shares, v.total_shares);
    let too_many = bob.shares + 1;
    assert!(withdraw(&mut v, &mut bob, too_many, 2_200).is_err());
    assert_eq!(alice.shares + bob.shares, v.total_shares);
}

#[test]
fn deposit_against_empty_balance_with_shares_fails() {
    let mut v = vault_with(10);
    let mut p = position(5, 3);
    assert_eq!(deposit(&mut v, &mut p, id(5), 100, 0), Err(ErrorCode::MathOverflow));
    assert_eq!(v.total_shares, 10);
    assert_eq!(p.shares, 3);
}

#[test]
fn deposit_overflow_leaves_records_unchanged() {
    let mut v = vault_with(u64::MAX / 2);
    let mut p = position(5, 1);
    assert_eq!(deposit(&mut v, &mut p, id(5), 3, 10), Err(ErrorCode::MathOverflow));
    assert_eq!(v.total_shares, u64::MAX / 2);
    assert_eq!(p.shares, 1);

    let mut v = vault_with(0);
    let mut p = position(5, u64::MAX);
    assert_eq!(deposit(&mut v, &mut p, id(5), 1, 0), Err(ErrorCode::MathOverflow));
    assert_eq!(v.total_shares, 0);
}

#[test]
fn withdraw_pays_proportional_amount() {
    let mut v = vault_with(1_000);
    let mut p = position(5, 400);
    assert_eq!(withdraw(&mut v, &mut p, 300, 2_500), Ok(750));
    assert_eq!(v.total_shares, 700);
    assert_eq!(p.shares, 100);
}

#[test]
fn withdraw_more_than_held_fails() {
    let mut v = vault_with(1_000);
    let mut p = position(5, 400);
    assert_eq!(withdraw(&mut v, &mut p, 401, 2_500), Err(ErrorCode::InsufficientShares));
    assert_eq!(v.total_shares, 1_000);
    assert_eq!(p.shares, 400);
}

#[test]
fn withdraw_from_shareless_vault_fails() {
    let mut v = vault_with(0);
    let mut p = position(5, 0);
    assert_eq!(withdraw(&mut v, &mut p, 0, 50), Err(ErrorCode::MathOverflow));
}

#[test]
fn withdraw_overflow_fails() {
    let mut v = vault_with(10);
    let mut p = position(5, 10);
    assert_eq!(withdraw(&mut v, &mut p, 10, u64::MAX), Err(ErrorCode::MathOverflow));
    assert_eq!(p.shares, 10);
}

#[test]
fn deposit_then_withdraw_returns_amount() {
    let mut v = initialize_vault(id(1), id(2), 0);
    let mut p = position(5, 0);
    let minted = deposit(&mut v, &mut p, id(5), 1_234, 0).unwrap();
    assert_eq!(withdraw(&mut v, &mut p, minted, 1_234), Ok(1_234));
    assert_eq!(v.total_shares, 0);

    let mut v = vault_with(1_000);
    let mut p = position(6, 0);
    let minted = deposit(&mut v, &mut p, id(6), 777, 999).unwrap();
    assert_eq!(minted, 777_000 / 999);
    let paid = withdraw(&mut v, &mut p, minted, 999 + 777).unwrap();
    assert!(paid <= 777 && 777 <= paid + 1);
    assert_eq!(v.total_shares, 1_000);
    assert_eq!(p.shares, 0);
}

#[test]
fn foreign_router_is_rejected() {
    let v = vault_with(100);
    assert_eq!(begin_arbitrage(&v, &id(3), 1_000).unwrap_err(), ErrorCode::InvalidSwapRouter);
    let r = execute_arbitrage_via_router(&v, &id(3), id(9), 1_000, 5_000, 0);
    assert_eq!(r.unwrap_err(), ErrorCode::InvalidSwapRouter);
}

#[test]
fn profit_split_example() {
    let v = vault_with(100);
    let ev = execute_arbitrage_via_router(&v, &id(2), id(9), 1_000, 1_300, 0).unwrap();
    assert_eq!(ev.executor, id(9));
    assert_eq!(ev.profit, 300);
    assert_eq!(ev.executor_fee, 30);
    assert_eq!(ev.vault_profit, 270);
    let r = execute_arbitrage_via_router(&v, &id(2), id(9), 1_000, 1_300, 301);
    assert_eq!(r.unwrap_err(), ErrorCode::InsufficientProfit);
}

#[test]
fn ticket_then_settlement() {
    let v = vault_with(100);
    let t = begin_arbitrage(&v, &id(2), 1_000).unwrap();
    assert_eq!(t.router, id(2));
    assert_eq!(t.initial_balance, 1_000);
    let ev = finish_arbitrage(&t, id(9), 1_300, 300).unwrap();
    assert_eq!((ev.profit, ev.executor_fee, ev.vault_profit), (300, 30, 270));
    let ev = finish_arbitrage(&t, id(9), 1_019, 0).unwrap();
    assert_eq!((ev.profit, ev.executor_fee, ev.vault_profit), (19, 1, 18));
}

#[test]
fn balance_decrease_is_insufficient_profit() {
    let v = vault_with(100);
    let r = execute_arbitrage_via_router(&v, &id(2), id(9), 1_000, 999, 0);
    assert_eq!(r.unwrap_err(), ErrorCode::InsufficientProfit);
}

#[test]
fn profit_split_overflow_is_reported() {
    let v = vault_with(100);
    let r = execute_arbitrage_via_router(&v, &id(2), id(9), 0, u64::MAX, 0);
    assert_eq!(r.unwrap_err(), ErrorCode::MathOverflow);
}

#[test]
fn vault_errors_have_messages() {
    assert_eq!(ErrorCode::InsufficientShares.message(), "Insufficient shares to withdraw");
    assert_eq!(ErrorCode::InvalidSwapRouter.message(), "Invalid swap router program");
}

#[test]
fn first_depositor_collects_stray_balance() {
    let mut v = initialize_vault(id(1), id(2), 0);
    let mut p = position(5, 0);
    let minted = deposit(&mut v, &mut p, id(5), 100, 40).unwrap();
    assert_eq!(minted, 100);
    assert_eq!(withdraw(&mut v, &mut p, minted, 140), Ok(140));
}
