use vstd::prelude::*;

use crate::config::{BPS_DENOMINATOR, DexType, MAX_FEE_RATE, MIN_SWAP_AMOUNT, VenueTable};
use crate::identity::Identity;

verus! {

/// Share of a settled amount the reference settlement strategy pays out,
/// in hundredths (2% assumed slippage).
pub const MOCK_OUTPUT_PERCENT: u64 = 98;

/// Price impact the route estimate reports, in basis points.
pub const MOCK_PRICE_IMPACT: u16 = 200;

/// Errors of the swap router.
#[derive(Clone, Copy, Debug, PartialEq, Eq, Structural)]
pub enum SwapRouterError {
    InvalidDexProgram,
    InvalidFeeRate,
    InvalidSwapAmount,
    MathOverflow,
    SlippageExceeded,
    InsufficientLiquidity,
    InvalidTokenPair,
    Unauthorized,
}

impl SwapRouterError {
    /// A human-readable description of the error.
    pub fn message(&self) -> &'static str {
        match self {
            SwapRouterError::InvalidDexProgram => "Invalid DEX program provided",
            SwapRouterError::InvalidFeeRate => "Invalid fee rate - must be <= 1000 basis points",
            SwapRouterError::InvalidSwapAmount => "Invalid swap amount - must be > 0",
            SwapRouterError::MathOverflow => "Math overflow occurred",
            SwapRouterError::SlippageExceeded => "Slippage tolerance exceeded",
            SwapRouterError::InsufficientLiquidity => "Insufficient pool liquidity",
            SwapRouterError::InvalidTokenPair => "Invalid token pair",
            SwapRouterError::Unauthorized => "Unauthorized access",
        }
    }
}

/// Persistent router record.
#[derive(Clone, Copy, Debug)]
pub struct RouterState {
    pub authority: Identity,
    /// Fee in basis points.
    pub fee_rate: u16,
    /// Net value swapped through the router so far.
    pub total_volume: u64,
    pub bump: u8,
}

impl RouterState {
    pub open spec fn wf(&self) -> bool {
        self.fee_rate <= MAX_FEE_RATE
    }
}

/// One exchange operation of a batch.
#[derive(Clone, Copy, Debug)]
pub struct SwapInstruction {
    pub dex_type: DexType,
    pub pool_address: Identity,
    pub token_in: Identity,
    pub token_out: Identity,
    pub amount_in: u64,
    pub minimum_amount_out: u64,
}

/// What one accepted swap settles: the fee kept back, the net amount moved
/// into the venue's pool and the output paid back out of it.
#[derive(Clone, Copy, Debug, PartialEq, Eq, Structural)]
pub struct SwapOutcome {
    pub fee: u64,
    pub net_amount: u64,
    pub amount_out: u64,
}

/// Advisory result of a route query; never a guarantee.
#[derive(Clone, Debug)]
pub struct RouteInfo {
    pub estimated_amount_out: u64,
    /// In basis points.
    pub price_impact: u16,
    pub recommended_dex: DexType,
    pub route_steps: Vec<SwapStep>,
}

/// One leg of an advisory route.
#[derive(Clone, Copy, Debug)]
pub struct SwapStep {
    pub dex_type: DexType,
    pub pool_address: Identity,
    pub token_in: Identity,
    pub token_out: Identity,
    pub estimated_amount_in: u64,
    pub estimated_amount_out: u64,
}

// ---------- mathematical model ----------

/// `floor(amount * fee_rate / 10000)`, or `MathOverflow` when the product
/// does not fit in 64 bits.
pub open spec fn calculate_fee_spec(amount: u64, fee_rate: u16) -> Result<u64, SwapRouterError> {
    if amount * fee_rate > u64::MAX {
        Err(SwapRouterError::MathOverflow)
    } else {
        Ok((amount * fee_rate / BPS_DENOMINATOR as int) as u64)
    }
}

/// The reference strategy's output for `amount`: `floor(amount * 98 / 100)`.
pub open spec fn estimated_output_spec(amount: u64) -> Result<u64, SwapRouterError> {
    if amount * MOCK_OUTPUT_PERCENT > u64::MAX {
        Err(SwapRouterError::MathOverflow)
    } else {
        Ok((amount * MOCK_OUTPUT_PERCENT / 100) as u64)
    }
}

/// Settlement of `amount` by the reference strategy, refused when its output
/// falls below `minimum_amount_out`.
pub open spec fn perform_mock_swap_spec(amount: u64, minimum_amount_out: u64) -> Result<
    u64,
    SwapRouterError,
> {
    match estimated_output_spec(amount) {
        Err(e) => Err(e),
        Ok(out) => if out < minimum_amount_out {
            Err(SwapRouterError::SlippageExceeded)
        } else {
            Ok(out)
        },
    }
}

/// One swap, checked in order: venue module identity, minimum amount, fee,
/// settlement with its slippage floor.
pub open spec fn execute_swap_spec(
    table: VenueTable,
    dex_program: Identity,
    swap: SwapInstruction,
    fee_rate: u16,
) -> Result<SwapOutcome, SwapRouterError> {
    if dex_program@ != table.spec_program_for(swap.dex_type)@ {
        Err(SwapRouterError::InvalidDexProgram)
    } else if swap.amount_in < MIN_SWAP_AMOUNT {
        Err(SwapRouterError::InvalidSwapAmount)
    } else {
        match calculate_fee_spec(swap.amount_in, fee_rate) {
            Err(e) => Err(e),
            Ok(fee) => {
                let net = (swap.amount_in - fee) as u64;
                match perform_mock_swap_spec(net, swap.minimum_amount_out) {
                    Err(e) => Err(e),
                    Ok(out) => Ok(SwapOutcome { fee, net_amount: net, amount_out: out }),
                }
            },
        }
    }
}

/// Sum of the net amounts of `outs`.
pub open spec fn total_net(outs: Seq<SwapOutcome>) -> int
    decreases outs.len(),
{
    if outs.len() == 0 {
        0
    } else {
        total_net(outs.drop_last()) + outs.last().net_amount
    }
}

/// The swaps of a batch taken in order: the first failure is the batch's
/// failure, and so is a running net total that leaves 64 bits.
pub open spec fn batch_spec(
    table: VenueTable,
    dex_program: Identity,
    swaps: Seq<SwapInstruction>,
    fee_rate: u16,
) -> Result<Seq<SwapOutcome>, SwapRouterError>
    decreases swaps.len(),
{
    if swaps.len() == 0 {
        Ok(Seq::empty())
    } else {
        match batch_spec(table, dex_program, swaps.drop_last(), fee_rate) {
            Err(e) => Err(e),
            Ok(outs) => match execute_swap_spec(table, dex_program, swaps.last(), fee_rate) {
                Err(e) => Err(e),
                Ok(o) => if total_net(outs) + o.net_amount > u64::MAX {
                    Err(SwapRouterError::MathOverflow)
                } else {
                    Ok(outs.push(o))
                },
            },
        }
    }
}

/// A whole batch against the router record: the new record and the
/// settlements to perform, or the error with nothing to perform.
pub open spec fn execute_swaps_spec(
    state: RouterState,
    table: VenueTable,
    dex_program: Identity,
    swaps: Seq<SwapInstruction>,
) -> Result<(RouterState, Seq<SwapOutcome>), SwapRouterError> {
    match batch_spec(table, dex_program, swaps, state.fee_rate) {
        Err(e) => Err(e),
        Ok(outs) => if state.total_volume + total_net(outs) > u64::MAX {
            Err(SwapRouterError::MathOverflow)
        } else {
            Ok(
                (
                    RouterState {
                        total_volume: (state.total_volume + total_net(outs)) as u64,
                        ..state
                    },
                    outs,
                ),
            )
        },
    }
}

// ---------- lemmas ----------

/// Once a prefix of a batch fails, the whole batch fails with the same error.
proof fn lemma_batch_error_extends(
    table: VenueTable,
    dex_program: Identity,
    swaps: Seq<SwapInstruction>,
    fee_rate: u16,
    k: int,
)
    requires
        0 <= k <= swaps.len(),
        batch_spec(table, dex_program, swaps.take(k), fee_rate) is Err,
    ensures
        batch_spec(table, dex_program, swaps, fee_rate) == batch_spec(
            table,
            dex_program,
            swaps.take(k),
            fee_rate,
        ),
    decreases swaps.len(),
{
    if k == swaps.len() {
        assert(swaps.take(k) =~= swaps);
    } else {
        assert(swaps.drop_last().take(k) =~= swaps.take(k));
        lemma_batch_error_extends(table, dex_program, swaps.drop_last(), fee_rate, k);
    }
}

/// A successful batch settles each of its swaps exactly as that swap alone
/// would settle.
proof fn lemma_batch_ok_settles_each(
    table: VenueTable,
    dex_program: Identity,
    swaps: Seq<SwapInstruction>,
    fee_rate: u16,
)
    requires
        batch_spec(table, dex_program, swaps, fee_rate) is Ok,
    ensures
        ({
            let outs = batch_spec(table, dex_program, swaps, fee_rate)->Ok_0;
            &&& outs.len() == swaps.len()
            &&& forall|j: int|
                0 <= j < swaps.len() ==> #[trigger] execute_swap_spec(
                    table,
                    dex_program,
                    swaps[j],
                    fee_rate,
                ) == Ok::<SwapOutcome, SwapRouterError>(outs[j])
        }),
    decreases swaps.len(),
{
    if swaps.len() > 0 {
        let prefix = swaps.drop_last();
        lemma_batch_ok_settles_each(table, dex_program, prefix, fee_rate);
        let outs = batch_spec(table, dex_program, swaps, fee_rate)->Ok_0;
        assert forall|j: int| 0 <= j < swaps.len() implies #[trigger] execute_swap_spec(
            table,
            dex_program,
            swaps[j],
            fee_rate,
        ) == Ok::<SwapOutcome, SwapRouterError>(outs[j]) by {
            if j < swaps.len() - 1 {
                assert(prefix[j] == swaps[j]);
            }
        }
    }
}

/// Fee law: at a fee rate within the limit, the fee charged on a swap is
/// `floor(amount_in * fee_rate / 10000)`, never more than `amount_in`, and the
/// fee and the net amount sent to the venue add up to `amount_in`.
pub proof fn lemma_fee_correctness(
    table: VenueTable,
    dex_program: Identity,
    swap: SwapInstruction,
    fee_rate: u16,
)
    requires
        fee_rate <= MAX_FEE_RATE,
    ensures
        calculate_fee_spec(swap.amount_in, fee_rate) matches Ok(fee) ==> fee == swap.amount_in
            * fee_rate / 10000 && fee <= swap.amount_in,
        execute_swap_spec(table, dex_program, swap, fee_rate) matches Ok(o) ==> o.fee
            == swap.amount_in * fee_rate / 10000 && o.net_amount + o.fee == swap.amount_in,
{
    let a = swap.amount_in;
    assert(a * fee_rate / 10000 <= a) by (nonlinear_arith)
        requires
            fee_rate <= 1000,
    ;
}

/// Slippage law: for a swap that passes every other check, a floor equal to
/// the computed output is met, and any higher floor fails with
/// `SlippageExceeded`.
pub proof fn lemma_slippage_boundary(
    table: VenueTable,
    dex_program: Identity,
    swap: SwapInstruction,
    fee_rate: u16,
)
    requires
        execute_swap_spec(
            table,
            dex_program,
            SwapInstruction { minimum_amount_out: 0, ..swap },
            fee_rate,
        ) is Ok,
    ensures
        ({
            let probe = execute_swap_spec(
                table,
                dex_program,
                SwapInstruction { minimum_amount_out: 0, ..swap },
                fee_rate,
            )->Ok_0;
            &&& swap.minimum_amount_out <= probe.amount_out ==> execute_swap_spec(
                table,
                dex_program,
                swap,
                fee_rate,
            ) == Ok::<SwapOutcome, SwapRouterError>(probe)
            &&& swap.minimum_amount_out > probe.amount_out ==> execute_swap_spec(
                table,
                dex_program,
                swap,
                fee_rate,
            ) == Err::<SwapOutcome, SwapRouterError>(SwapRouterError::SlippageExceeded)
        }),
{
}

/// Atomicity law: a batch holding a swap that fails on its own fails as a
/// whole, so no volume is committed and no settlement is handed out.
pub proof fn lemma_failing_swap_fails_batch(
    state: RouterState,
    table: VenueTable,
    dex_program: Identity,
    swaps: Seq<SwapInstruction>,
    i: int,
)
    requires
        0 <= i < swaps.len(),
        execute_swap_spec(table, dex_program, swaps[i], state.fee_rate) is Err,
    ensures
        batch_spec(table, dex_program, swaps, state.fee_rate) is Err,
        execute_swaps_spec(state, table, dex_program, swaps) is Err,
{
    if batch_spec(table, dex_program, swaps, state.fee_rate) is Ok {
        lemma_batch_ok_settles_each(table, dex_program, swaps, state.fee_rate);
        assert(execute_swap_spec(table, dex_program, swaps[i], state.fee_rate) is Ok);
    }
}

// ---------- executable code ----------

/// Creates the router record with no volume yet.
pub fn initialize_router(authority: Identity, fee_rate: u16, bump: u8) -> (r: Result<
    RouterState,
    SwapRouterError,
>)
    ensures
        fee_rate > MAX_FEE_RATE ==> r == Err::<RouterState, SwapRouterError>(
            SwapRouterError::InvalidFeeRate,
        ),
        fee_rate <= MAX_FEE_RATE ==> r == Ok::<RouterState, SwapRouterError>(
            RouterState { authority, fee_rate, total_volume: 0, bump },
        ),
{
    if fee_rate > MAX_FEE_RATE {
        return Err(SwapRouterError::InvalidFeeRate);
    }
    Ok(RouterState { authority, fee_rate, total_volume: 0, bump })
}

/// The router fee on `amount` at `fee_rate` basis points, rounded down.
pub fn calculate_fee(amount: u64, fee_rate: u16) -> (r: Result<u64, SwapRouterError>)
    ensures
        r == calculate_fee_spec(amount, fee_rate),
{
    match amount.checked_mul(fee_rate as u64) {
        Some(product) => Ok(product / BPS_DENOMINATOR),
        None => Err(SwapRouterError::MathOverflow),
    }
}

/// Output of the reference settlement strategy for `amount`.
pub fn estimated_output(amount: u64) -> (r: Result<u64, SwapRouterError>)
    ensures
        r == estimated_output_spec(amount),
{
    match amount.checked_mul(MOCK_OUTPUT_PERCENT) {
        Some(product) => Ok(product / 100),
        None => Err(SwapRouterError::MathOverflow),
    }
}

/// Settles `amount` with the reference strategy and checks the caller's
/// output floor before anything is paid out; returns the output.
pub fn perform_mock_swap(amount: u64, minimum_amount_out: u64) -> (r: Result<u64, SwapRouterError>)
    ensures
        r == perform_mock_swap_spec(amount, minimum_amount_out),
{
    let out = match estimated_output(amount) {
        Ok(out) => out,
        Err(e) => return Err(e),
    };
    if out < minimum_amount_out {
        return Err(SwapRouterError::SlippageExceeded);
    }
    Ok(out)
}

/// Validates and settles one swap on the venue its tag names.
pub fn execute_swap(
    table: &VenueTable,
    dex_program: &Identity,
    swap: &SwapInstruction,
    fee_rate: u16,
) -> (r: Result<SwapOutcome, SwapRouterError>)
    requires
        fee_rate <= MAX_FEE_RATE,
    ensures
        r == execute_swap_spec(*table, *dex_program, *swap, fee_rate),
{
    let expected = table.program_for(swap.dex_type);
    if !dex_program.same_as(&expected) {
        return Err(SwapRouterError::InvalidDexProgram);
    }
    if swap.amount_in < MIN_SWAP_AMOUNT {
        return Err(SwapRouterError::InvalidSwapAmount);
    }
    let fee = match calculate_fee(swap.amount_in, fee_rate) {
        Ok(fee) => fee,
        Err(e) => return Err(e),
    };
    assert(fee <= swap.amount_in) by (nonlinear_arith)
        requires
            fee == swap.amount_in * fee_rate / 10000,
            fee_rate <= 1000,
    ;
    let net_amount = swap.amount_in - fee;
    let amount_out = match perform_mock_swap(net_amount, swap.minimum_amount_out) {
        Ok(out) => out,
        Err(e) => return Err(e),
    };
    Ok(SwapOutcome { fee, net_amount, amount_out })
}

/// Runs a batch of swaps in order, all or nothing.
///
/// On success the router's volume grows by the batch's total net amount and
/// the settlements to perform are returned, one per swap. On the first
/// failure the error is returned and the router record is left as it was.
pub fn execute_swaps(
    state: &mut RouterState,
    table: &VenueTable,
    dex_program: &Identity,
    swaps: &Vec<SwapInstruction>,
) -> (r: Result<Vec<SwapOutcome>, SwapRouterError>)
    requires
        old(state).wf(),
    ensures
        match execute_swaps_spec(*old(state), *table, *dex_program, swaps@) {
            Ok((next, outs)) => {
                &&& r is Ok
                &&& r->Ok_0@ == outs
                &&& *final(state) == next
            },
            Err(e) => {
                &&& r == Err::<Vec<SwapOutcome>, SwapRouterError>(e)
                &&& *final(state) == *old(state)
            },
        },
        final(state).wf(),
{
    let fee_rate = state.fee_rate;
    let mut outcomes: Vec<SwapOutcome> = Vec::new();
    let mut batch_total: u64 = 0;
    let mut i: usize = 0;
    while i < swaps.len()
        invariant
            i <= swaps.len(),
            fee_rate == state.fee_rate,
            fee_rate <= MAX_FEE_RATE,
            batch_spec(*table, *dex_program, swaps@.take(i as int), fee_rate) == Ok::<
                Seq<SwapOutcome>,
                SwapRouterError,
            >(outcomes@),
            batch_total == total_net(outcomes@),
        decreases swaps.len() - i,
    {
        proof {
            assert(swaps@.take(i + 1).drop_last() =~= swaps@.take(i as int));
            assert(swaps@.take(i + 1).last() == swaps@[i as int]);
        }
        let outcome = match execute_swap(table, dex_program, &swaps[i], fee_rate) {
            Ok(o) => o,
            Err(e) => {
                proof {
                    lemma_batch_error_extends(*table, *dex_program, swaps@, fee_rate, i + 1);
                }
                return Err(e);
            },
        };
        batch_total = match batch_total.checked_add(outcome.net_amount) {
            Some(t) => t,
            None => {
                proof {
                    lemma_batch_error_extends(*table, *dex_program, swaps@, fee_rate, i + 1);
                }
                return Err(SwapRouterError::MathOverflow);
            },
        };
        proof {
            assert(outcomes@.push(outcome).drop_last() =~= outcomes@);
        }
        outcomes.push(outcome);
        i = i + 1;
    }
    proof {
        assert(swaps@.take(i as int) =~= swaps@);
    }
    let total_volume = match state.total_volume.checked_add(batch_total) {
        Some(v) => v,
        None => return Err(SwapRouterError::MathOverflow),
    };
    state.total_volume = total_volume;
    Ok(outcomes)
}

/// Advisory route estimate; reads no state and promises nothing about
/// execution.
pub fn get_best_route(_token_in: Identity, _token_out: Identity, amount_in: u64) -> (r: Result<
    RouteInfo,
    SwapRouterError,
>)
    ensures
        match estimated_output_spec(amount_in) {
            Ok(out) => r matches Ok(info) && info.estimated_amount_out == out
                && info.price_impact == MOCK_PRICE_IMPACT && info.recommended_dex
                == DexType::RaydiumRouter && info.route_steps@.len() == 0,
            Err(e) => r matches Err(e2) && e2 == e,
        },
{
    let estimated_amount_out = match estimated_output(amount_in) {
        Ok(out) => out,
        Err(e) => return Err(e),
    };
    Ok(
        RouteInfo {
            estimated_amount_out,
            price_impact: MOCK_PRICE_IMPACT,
            recommended_dex: DexType::RaydiumRouter,
            route_steps: Vec::new(),
        },
    )
}

} // verus!
