use vstd::prelude::*;

use crate::identity::Identity;

verus! {

/// Share of arbitrage profit paid to the executor, in hundredths.
pub const EXECUTOR_FEE_PERCENT: u64 = 10;

/// Errors of the vault.
#[derive(Clone, Copy, Debug, PartialEq, Eq, Structural)]
pub enum ErrorCode {
    InsufficientProfit,
    InsufficientShares,
    InvalidSwapRouter,
    MathOverflow,
}

impl ErrorCode {
    /// A human-readable description of the error.
    pub fn message(&self) -> &'static str {
        match self {
            ErrorCode::InsufficientProfit => "Insufficient profit from arbitrage",
            ErrorCode::InsufficientShares => "Insufficient shares to withdraw",
            ErrorCode::InvalidSwapRouter => "Invalid swap router program",
            ErrorCode::MathOverflow => "Math overflow occurred",
        }
    }
}

/// Persistent record of one pool.
#[derive(Clone, Copy, Debug)]
pub struct Vault {
    pub authority: Identity,
    /// The only router module the vault delegates its signing authority to.
    pub swap_router: Identity,
    /// Ownership units outstanding.
    pub total_shares: u64,
    pub bump: u8,
}

/// One depositor's holding in the pool.
#[derive(Clone, Copy, Debug)]
pub struct UserPosition {
    pub owner: Identity,
    pub shares: u64,
}

/// Audit record of a successful arbitrage.
#[derive(Clone, Copy, Debug)]
pub struct ArbitrageExecuted {
    pub executor: Identity,
    pub profit: u64,
    pub executor_fee: u64,
    pub vault_profit: u64,
}

/// Issued once the presented router has been checked against the vault's
/// authorized router: the router to delegate to, and the vault balance
/// observed before delegating.
#[derive(Clone, Copy, Debug)]
pub struct ArbitrageTicket {
    pub router: Identity,
    pub initial_balance: u64,
}

// ---------- mathematical model ----------

/// Shares minted for depositing `amount` into a pool holding `vault_balance`
/// (before the deposit) against `total_shares`: one for one into an empty
/// pool, else `floor(amount * total_shares / vault_balance)`.
pub open spec fn deposit_shares_spec(amount: u64, total_shares: u64, vault_balance: u64) -> Result<
    u64,
    ErrorCode,
> {
    if total_shares == 0 {
        Ok(amount)
    } else if vault_balance == 0 || amount * total_shares > u64::MAX {
        Err(ErrorCode::MathOverflow)
    } else {
        Ok((amount * total_shares / vault_balance as int) as u64)
    }
}

/// A deposit: the new vault and position records and the shares minted.
pub open spec fn deposit_spec(
    vault: Vault,
    position: UserPosition,
    user: Identity,
    amount: u64,
    vault_balance: u64,
) -> Result<(Vault, UserPosition, u64), ErrorCode> {
    match deposit_shares_spec(amount, vault.total_shares, vault_balance) {
        Err(e) => Err(e),
        Ok(minted) => if position.shares + minted > u64::MAX || vault.total_shares + minted
            > u64::MAX {
            Err(ErrorCode::MathOverflow)
        } else {
            Ok(
                (
                    Vault { total_shares: (vault.total_shares + minted) as u64, ..vault },
                    UserPosition { owner: user, shares: (position.shares + minted) as u64 },
                    minted,
                ),
            )
        },
    }
}

/// A withdrawal of `shares`: the new vault and position records and the
/// amount paid out, `floor(shares * vault_balance / total_shares)` computed
/// before either counter changes.
pub open spec fn withdraw_spec(
    vault: Vault,
    position: UserPosition,
    shares: u64,
    vault_balance: u64,
) -> Result<(Vault, UserPosition, u64), ErrorCode> {
    if position.shares < shares {
        Err(ErrorCode::InsufficientShares)
    } else if vault.total_shares == 0 || shares * vault_balance > u64::MAX || vault.total_shares
        < shares {
        Err(ErrorCode::MathOverflow)
    } else {
        Ok(
            (
                Vault { total_shares: (vault.total_shares - shares) as u64, ..vault },
                UserPosition { shares: (position.shares - shares) as u64, ..position },
                (shares * vault_balance / vault.total_shares as int) as u64,
            ),
        )
    }
}

/// Profit from the observed balances and its split between executor and pool.
pub open spec fn settle_arbitrage_spec(
    executor: Identity,
    initial_balance: u64,
    final_balance: u64,
    min_profit: u64,
) -> Result<ArbitrageExecuted, ErrorCode> {
    if final_balance < initial_balance || final_balance - initial_balance < min_profit {
        Err(ErrorCode::InsufficientProfit)
    } else {
        let profit = final_balance - initial_balance;
        if profit * EXECUTOR_FEE_PERCENT > u64::MAX {
            Err(ErrorCode::MathOverflow)
        } else {
            let fee = profit * EXECUTOR_FEE_PERCENT / 100;
            Ok(
                ArbitrageExecuted {
                    executor,
                    profit: profit as u64,
                    executor_fee: fee as u64,
                    vault_profit: (profit - fee) as u64,
                },
            )
        }
    }
}

/// A whole arbitrage call: the router check first, then the settlement from
/// the balances observed around the delegated batch.
pub open spec fn execute_arbitrage_spec(
    vault: Vault,
    swap_router_program: Identity,
    executor: Identity,
    initial_balance: u64,
    final_balance: u64,
    min_profit: u64,
) -> Result<ArbitrageExecuted, ErrorCode> {
    if swap_router_program@ != vault.swap_router@ {
        Err(ErrorCode::InvalidSwapRouter)
    } else {
        settle_arbitrage_spec(executor, initial_balance, final_balance, min_profit)
    }
}

/// Sum of the shares held in `positions`.
pub open spec fn total_position_shares(positions: Seq<UserPosition>) -> int
    decreases positions.len(),
{
    if positions.len() == 0 {
        0
    } else {
        total_position_shares(positions.drop_last()) + positions.last().shares
    }
}

// ---------- lemmas ----------

/// Replacing one position changes the sum by the difference of its shares.
proof fn lemma_total_after_update(positions: Seq<UserPosition>, i: int, p: UserPosition)
    requires
        0 <= i < positions.len(),
    ensures
        total_position_shares(positions.update(i, p)) == total_position_shares(positions)
            - positions[i].shares + p.shares,
    decreases positions.len(),
{
    let updated = positions.update(i, p);
    if i == positions.len() - 1 {
        assert(updated.drop_last() =~= positions.drop_last());
    } else {
        assert(updated.drop_last() =~= positions.drop_last().update(i, p));
        lemma_total_after_update(positions.drop_last(), i, p);
    }
}

/// Share-sum law for deposits: when the positions' shares add up to the
/// vault's total, they still do after a successful deposit into any one of
/// them.
pub proof fn lemma_deposit_keeps_share_sum(
    vault: Vault,
    positions: Seq<UserPosition>,
    i: int,
    user: Identity,
    amount: u64,
    vault_balance: u64,
)
    requires
        0 <= i < positions.len(),
        total_position_shares(positions) == vault.total_shares,
    ensures
        deposit_spec(vault, positions[i], user, amount, vault_balance) matches Ok((v, p, minted))
            ==> total_position_shares(positions.update(i, p)) == v.total_shares,
{
    if let Ok((v, p, minted)) = deposit_spec(vault, positions[i], user, amount, vault_balance) {
        lemma_total_after_update(positions, i, p);
    }
}

/// Share-sum law for withdrawals: when the positions' shares add up to the
/// vault's total, they still do after a successful withdrawal from any one
/// of them.
pub proof fn lemma_withdraw_keeps_share_sum(
    vault: Vault,
    positions: Seq<UserPosition>,
    i: int,
    shares: u64,
    vault_balance: u64,
)
    requires
        0 <= i < positions.len(),
        total_position_shares(positions) == vault.total_shares,
    ensures
        withdraw_spec(vault, positions[i], shares, vault_balance) matches Ok((v, p, amount))
            ==> total_position_shares(positions.update(i, p)) == v.total_shares,
{
    if let Ok((v, p, amount)) = withdraw_spec(vault, positions[i], shares, vault_balance) {
        lemma_total_after_update(positions, i, p);
    }
}

/// Floor division facts for the deposit formula.
proof fn lemma_floor_div_bounds(x: int, d: int)
    requires
        x >= 0,
        d > 0,
    ensures
        (x / d) * d <= x,
        x < (x / d + 1) * d,
{
    assert((x / d) * d <= x && x < (x / d + 1) * d) by (nonlinear_arith)
        requires
            x >= 0,
            d > 0,
    ;
}

/// Proportionality law: a deposit into a pool that already has shares mints
/// shares in proportion to the pool's value before the deposit, so that
/// `minted / total_after` equals `amount / balance_after` up to one share of
/// rounding: `minted * balance_after <= amount * total_after <
/// (minted + 1) * balance_after`.
pub proof fn lemma_deposit_proportional(
    vault: Vault,
    position: UserPosition,
    user: Identity,
    amount: u64,
    vault_balance: u64,
)
    requires
        vault.total_shares > 0,
    ensures
        deposit_spec(vault, position, user, amount, vault_balance) matches Ok((v, p, minted)) ==> {
            let balance_after = vault_balance + amount;
            &&& minted * balance_after <= amount * v.total_shares
            &&& amount * v.total_shares < (minted + 1) * balance_after
        },
{
    if let Ok((v, p, minted)) = deposit_spec(vault, position, user, amount, vault_balance) {
        let t = vault.total_shares as int;
        let b = vault_balance as int;
        let a = amount as int;
        let m = minted as int;
        lemma_floor_div_bounds(a * t, b);
        assert(m * (b + a) <= a * (t + m) && a * (t + m) < (m + 1) * (b + a)) by (nonlinear_arith)
            requires
                m * b <= a * t,
                a * t < (m + 1) * b,
                a >= 0,
                m >= 0,
        ;
    }
}

/// Round-trip law: depositing `amount` and at once redeeming the shares it
/// minted, with the pool balance otherwise unchanged, leaves the share
/// counters as they were and never pays back more than `amount` (unless the
/// pool had no shares yet still held a balance, which the first depositor
/// then collects). When shares are worth at most one unit each
/// (`vault_balance <= total_shares`, which covers the empty pool) it pays
/// back `amount` less at most one unit of rounding. The redemption succeeds
/// whenever its product fits in 64 bits.
pub proof fn lemma_deposit_withdraw_round_trip(
    vault: Vault,
    position: UserPosition,
    user: Identity,
    amount: u64,
    vault_balance: u64,
)
    requires
        vault_balance + amount <= u64::MAX,
    ensures
        deposit_spec(vault, position, user, amount, vault_balance) matches Ok((v, p, minted)) ==> {
            let after = withdraw_spec(v, p, minted, (vault_balance + amount) as u64);
            &&& (minted > 0 && minted * (vault_balance + amount) <= u64::MAX) ==> after is Ok
            &&& after matches Ok((v2, p2, paid)) ==> {
                &&& v2.total_shares == vault.total_shares
                &&& p2.shares == position.shares
                &&& (vault.total_shares > 0 || vault_balance == 0) ==> paid <= amount
                &&& vault_balance <= vault.total_shares ==> amount <= paid + 1
            }
        },
{
    if let Ok((v, p, minted)) = deposit_spec(vault, position, user, amount, vault_balance) {
        let t = vault.total_shares as int;
        let b = vault_balance as int;
        let a = amount as int;
        let m = minted as int;
        if let Ok((v2, p2, paid)) = withdraw_spec(v, p, minted, (vault_balance + amount) as u64) {
            let x = m * (b + a);
            let d = t + m;
            assert(d > 0);
            lemma_floor_div_bounds(x, d);
            let q = paid as int;
            assert(q == x / d);
            if t == 0 {
                assert(m == a);
                if b == 0 {
                    assert(q == a) by (nonlinear_arith)
                        requires
                            q == x / d,
                            x == m * (b + a),
                            d == t + m,
                            t == 0,
                            b == 0,
                            m == a,
                            d > 0,
                    ;
                }
            } else {
                lemma_floor_div_bounds(a * t, b);
                assert(q <= a) by (nonlinear_arith)
                    requires
                        q * d <= x,
                        x == m * (b + a),
                        d == t + m,
                        m * b <= a * t,
                        m >= 0,
                        a >= 0,
                        d > 0,
                ;
                if b <= t {
                    assert(x - (a - 1) * d == m * b - a * t + t + m) by (nonlinear_arith)
                        requires
                            x == m * (b + a),
                            d == t + m,
                    ;
                    assert((m + 1) * b == m * b + b) by (nonlinear_arith);
                    assert((a - 1) * d < (q + 1) * d);
                    assert(a - 1 < q + 1) by (nonlinear_arith)
                        requires
                            (a - 1) * d < (q + 1) * d,
                            d > 0,
                    ;
                }
            }
        }
    }
}

/// Share-price law for arbitrage: after a successful call the vault keeps
/// its initial balance plus the pool's part of the profit, so its balance
/// never falls below where it started.
pub proof fn lemma_arbitrage_keeps_vault_balance(
    vault: Vault,
    swap_router_program: Identity,
    executor: Identity,
    initial_balance: u64,
    final_balance: u64,
    min_profit: u64,
)
    ensures
        execute_arbitrage_spec(
            vault,
            swap_router_program,
            executor,
            initial_balance,
            final_balance,
            min_profit,
        ) matches Ok(ev) ==> {
            &&& ev.profit >= min_profit
            &&& ev.executor_fee + ev.vault_profit == ev.profit
            &&& final_balance - ev.executor_fee == initial_balance + ev.vault_profit
            &&& final_balance - ev.executor_fee >= initial_balance
        },
{
}

/// Confused-deputy law: an arbitrage call that presents any router other
/// than the vault's authorized one fails with `InvalidSwapRouter`, whatever
/// the balances, so no fee is paid and nothing moves.
pub proof fn lemma_foreign_router_rejected(
    vault: Vault,
    swap_router_program: Identity,
    executor: Identity,
    initial_balance: u64,
    final_balance: u64,
    min_profit: u64,
)
    requires
        swap_router_program@ != vault.swap_router@,
    ensures
        execute_arbitrage_spec(
            vault,
            swap_router_program,
            executor,
            initial_balance,
            final_balance,
            min_profit,
        ) == Err::<ArbitrageExecuted, ErrorCode>(ErrorCode::InvalidSwapRouter),
{
}

// ---------- executable code ----------

/// Creates an empty pool that delegates only to `swap_router`.
pub fn initialize_vault(authority: Identity, swap_router: Identity, bump: u8) -> (r: Vault)
    ensures
        r == (Vault { authority, swap_router, total_shares: 0, bump }),
{
    Vault { authority, swap_router, total_shares: 0, bump }
}

/// Shares minted for a deposit; see `deposit_shares_spec`.
pub fn deposit_shares(amount: u64, total_shares: u64, vault_balance: u64) -> (r: Result<
    u64,
    ErrorCode,
>)
    ensures
        r == deposit_shares_spec(amount, total_shares, vault_balance),
{
    if total_shares == 0 {
        return Ok(amount);
    }
    if vault_balance == 0 {
        return Err(ErrorCode::MathOverflow);
    }
    match amount.checked_mul(total_shares) {
        Some(product) => Ok(product / vault_balance),
        None => Err(ErrorCode::MathOverflow),
    }
}

/// Records a deposit of `amount` by `user`, where `vault_balance` is the
/// pool's balance before the deposit; returns the shares minted.
///
/// On error neither record changes.
pub fn deposit(
    vault: &mut Vault,
    user_position: &mut UserPosition,
    user: Identity,
    amount: u64,
    vault_balance: u64,
) -> (r: Result<u64, ErrorCode>)
    ensures
        match deposit_spec(*old(vault), *old(user_position), user, amount, vault_balance) {
            Ok((v, p, minted)) => {
                &&& r == Ok::<u64, ErrorCode>(minted)
                &&& *final(vault) == v
                &&& *final(user_position) == p
            },
            Err(e) => {
                &&& r == Err::<u64, ErrorCode>(e)
                &&& *final(vault) == *old(vault)
                &&& *final(user_position) == *old(user_position)
            },
        },
{
    let minted = match deposit_shares(amount, vault.total_shares, vault_balance) {
        Ok(m) => m,
        Err(e) => return Err(e),
    };
    let position_shares = match user_position.shares.checked_add(minted) {
        Some(s) => s,
        None => return Err(ErrorCode::MathOverflow),
    };
    let total_shares = match vault.total_shares.checked_add(minted) {
        Some(s) => s,
        None => return Err(ErrorCode::MathOverflow),
    };
    user_position.shares = position_shares;
    user_position.owner = user;
    vault.total_shares = total_shares;
    Ok(minted)
}

/// Redeems `shares` of `user_position` against a pool holding
/// `vault_balance`; returns the amount to pay out.
///
/// On error neither record changes.
pub fn withdraw(
    vault: &mut Vault,
    user_position: &mut UserPosition,
    shares: u64,
    vault_balance: u64,
) -> (r: Result<u64, ErrorCode>)
    ensures
        match withdraw_spec(*old(vault), *old(user_position), shares, vault_balance) {
            Ok((v, p, amount)) => {
                &&& r == Ok::<u64, ErrorCode>(amount)
                &&& *final(vault) == v
                &&& *final(user_position) == p
            },
            Err(e) => {
                &&& r == Err::<u64, ErrorCode>(e)
                &&& *final(vault) == *old(vault)
                &&& *final(user_position) == *old(user_position)
            },
        },
{
    if user_position.shares < shares {
        return Err(ErrorCode::InsufficientShares);
    }
    if vault.total_shares == 0 || vault.total_shares < shares {
        return Err(ErrorCode::MathOverflow);
    }
    let amount = match shares.checked_mul(vault_balance) {
        Some(product) => product / vault.total_shares,
        None => return Err(ErrorCode::MathOverflow),
    };
    user_position.shares = user_position.shares - shares;
    vault.total_shares = vault.total_shares - shares;
    Ok(amount)
}

/// Checks the router module presented for an arbitrage against the vault's
/// authorized router. Only on a match is a ticket issued, and with it the
/// vault's signing authority may be lent to that router.
pub fn begin_arbitrage(vault: &Vault, swap_router_program: &Identity, initial_balance: u64) -> (r:
    Result<ArbitrageTicket, ErrorCode>)
    ensures
        swap_router_program@ != vault.swap_router@ ==> r == Err::<ArbitrageTicket, ErrorCode>(
            ErrorCode::InvalidSwapRouter,
        ),
        swap_router_program@ == vault.swap_router@ ==> r == Ok::<ArbitrageTicket, ErrorCode>(
            (ArbitrageTicket { router: *swap_router_program, initial_balance }),
        ),
{
    if !swap_router_program.same_as(&vault.swap_router) {
        return Err(ErrorCode::InvalidSwapRouter);
    }
    Ok(ArbitrageTicket { router: *swap_router_program, initial_balance })
}

/// Settles an arbitrage from the vault balance observed after the delegated
/// batch: the profit is the balance increase alone, it must reach
/// `min_profit`, and a tenth of it (rounded down) goes to the executor.
pub fn finish_arbitrage(
    ticket: &ArbitrageTicket,
    executor: Identity,
    final_balance: u64,
    min_profit: u64,
) -> (r: Result<ArbitrageExecuted, ErrorCode>)
    ensures
        r == settle_arbitrage_spec(executor, ticket.initial_balance, final_balance, min_profit),
{
    let profit = match final_balance.checked_sub(ticket.initial_balance) {
        Some(p) => p,
        None => return Err(ErrorCode::InsufficientProfit),
    };
    if profit < min_profit {
        return Err(ErrorCode::InsufficientProfit);
    }
    let executor_fee = match profit.checked_mul(EXECUTOR_FEE_PERCENT) {
        Some(product) => product / 100,
        None => return Err(ErrorCode::MathOverflow),
    };
    let vault_profit = profit - executor_fee;
    Ok(ArbitrageExecuted { executor, profit, executor_fee, vault_profit })
}

/// The decisions of one arbitrage call, given the vault balances observed
/// before and after the delegated batch: the router check, then the profit
/// floor and split. An error means no fee is paid and nothing is kept.
pub fn execute_arbitrage_via_router(
    vault: &Vault,
    swap_router_program: &Identity,
    executor: Identity,
    initial_balance: u64,
    final_balance: u64,
    min_profit: u64,
) -> (r: Result<ArbitrageExecuted, ErrorCode>)
    ensures
        r == execute_arbitrage_spec(
            *vault,
            *swap_router_program,
            executor,
            initial_balance,
            final_balance,
            min_profit,
        ),
{
    let ticket = match begin_arbitrage(vault, swap_router_program, initial_balance) {
        Ok(t) => t,
        Err(e) => return Err(e),
    };
    finish_arbitrage(&ticket, executor, final_balance, min_profit)
}

} // verus!
