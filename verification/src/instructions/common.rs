//! The route description and the engine that walks it.

use crate::account::{address, AccountInfo, Pubkey, TokenAccount};
use crate::adapters::common::{
    chained, continuity_error, same_account, same_accounts, yields, CallFailure, Invocation,
    InvocationView,
};
use crate::adapters::{
    aldrin, fluxbeam, lifinity, meteora, obric_v2, openbookv2, phoenix, pumpfun, raydium, sanctum,
    spl_token_swap, stable_swap, whirlpool,
};
use crate::constants::{MAX_HOPS, TOTAL_WEIGHT, ZERO_ADDRESS};
use crate::error::{Error, ErrorCode};
use crate::utils::token::{
    asks, token_transfer, transfer_token_from_sa_pda, transfer_token_from_user, Transfer,
    TransferView,
};
use vstd::prelude::*;

verus! {

/// The venues the router can trade on. Each stands for one adapter.
#[derive(Clone, Copy, Debug, PartialEq, Eq, Structural)]
pub enum Dex {
    SplTokenSwap,
    StableSwap,
    Whirlpool,
    MeteoraDynamicpool,
    RaydiumSwap,
    RaydiumStableSwap,
    RaydiumClmmSwap,
    AldrinExchangeV1,
    AldrinExchangeV2,
    LifinityV1,
    LifinityV2,
    RaydiumClmmSwapV2,
    FluxBeam,
    MeteoraDlmm,
    RaydiumCpmmSwap,
    OpenBookV2,
    WhirlpoolV2,
    Phoenix,
    ObricV2,
    SanctumAddLiq,
    SanctumRemoveLiq,
    SanctumNonWsolSwap,
    SanctumWsolSwap,
    PumpfunBuy,
    PumpfunSell,
}

/// The token accounts that the forks of one hop have traded between, and the account that
/// the previous hop paid into. An address of zeros stands for "none yet".
#[derive(Clone, Copy, Debug, PartialEq, Eq)]
pub struct HopAccounts {
    pub last_to_account: Pubkey,
    pub from_account: Pubkey,
    pub to_account: Pubkey,
}

impl HopAccounts {
    /// The state at the start of a hop that follows one that paid into `last_to_account`.
    pub open spec fn fresh(last_to_account: Pubkey) -> HopAccounts {
        HopAccounts {
            last_to_account,
            from_account: address(ZERO_ADDRESS),
            to_account: address(ZERO_ADDRESS),
        }
    }

    pub fn new(last_to_account: Pubkey) -> (r: HopAccounts)
        ensures
            r == Self::fresh(last_to_account),
    {
        HopAccounts {
            last_to_account,
            from_account: Pubkey::new_from_array(ZERO_ADDRESS),
            to_account: Pubkey::new_from_array(ZERO_ADDRESS),
        }
    }
}

/// One hop: the venues it forks over and the share of the hop's input that each gets.
#[derive(Clone, Debug)]
pub struct Route {
    pub dexes: Vec<Dex>,
    pub weights: Vec<u8>,
}

/// What the caller asks for: the input, the output they expect, the least they accept, and
/// the route, as split amounts with one chain of hops each.
#[derive(Clone, Debug)]
pub struct SwapArgs {
    pub amount_in: u64,
    pub expect_amount_out: u64,
    pub min_return: u64,
    pub amounts: Vec<u64>,
    pub routes: Vec<Vec<Route>>,
}

/// `SwapArgs` with a commission: its rate in basis points, and whether it is charged on the
/// input (`true`) or on the output.
#[derive(Clone, Debug)]
pub struct CommissionSwapArgs {
    pub amount_in: u64,
    pub expect_amount_out: u64,
    pub min_return: u64,
    pub amounts: Vec<u64>,
    pub routes: Vec<Vec<Route>>,
    pub commission_rate: u16,
    pub commission_direction: bool,
}

/// What one fork traded.
#[derive(Clone, Copy, Debug, PartialEq, Eq)]
pub struct SwapEvent {
    pub dex: Dex,
    pub amount_in: u64,
    pub amount_out: u64,
}

/// The call that the venue `dex` makes of the accounts at the cursor, or the reason why it
/// makes none: what the venue's adapter says.
pub open spec fn excute_swap_call(
    dex: Dex,
    remaining_accounts: Seq<AccountInfo>,
    amount_in: u64,
    offset: usize,
    hop_accounts: HopAccounts,
    hop: usize,
    proxy_swap: bool,
) -> Result<InvocationView, Error> {
    match dex {
        Dex::SplTokenSwap => spl_token_swap::swap_call(
            remaining_accounts,
            amount_in,
            offset,
            hop_accounts,
            hop,
            proxy_swap,
        ),
        Dex::StableSwap => stable_swap::swap_call(
            remaining_accounts,
            amount_in,
            offset,
            hop_accounts,
            hop,
            proxy_swap,
        ),
        Dex::Whirlpool => whirlpool::swap_call(
            remaining_accounts,
            amount_in,
            offset,
            hop_accounts,
            hop,
            proxy_swap,
        ),
        Dex::MeteoraDynamicpool => meteora::swap_call(
            remaining_accounts,
            amount_in,
            offset,
            hop_accounts,
            hop,
            proxy_swap,
        ),
        Dex::RaydiumSwap => raydium::swap_call(
            remaining_accounts,
            amount_in,
            offset,
            hop_accounts,
            hop,
            proxy_swap,
        ),
        Dex::RaydiumStableSwap => raydium::swap_stable_call(
            remaining_accounts,
            amount_in,
            offset,
            hop_accounts,
            hop,
            proxy_swap,
        ),
        Dex::RaydiumClmmSwap => raydium::swap_clmm_call(
            remaining_accounts,
            amount_in,
            offset,
            hop_accounts,
            hop,
            proxy_swap,
        ),
        Dex::RaydiumClmmSwapV2 => raydium::swap_clmm_v2_call(
            remaining_accounts,
            amount_in,
            offset,
            hop_accounts,
            hop,
            proxy_swap,
        ),
        Dex::AldrinExchangeV1 => aldrin::swap_v1_call(
            remaining_accounts,
            amount_in,
            offset,
            hop_accounts,
            hop,
            proxy_swap,
        ),
        Dex::AldrinExchangeV2 => aldrin::swap_v2_call(
            remaining_accounts,
            amount_in,
            offset,
            hop_accounts,
            hop,
            proxy_swap,
        ),
        Dex::LifinityV1 => lifinity::swap_v1_call(
            remaining_accounts,
            amount_in,
            offset,
            hop_accounts,
            hop,
            proxy_swap,
        ),
        Dex::LifinityV2 => lifinity::swap_v2_call(
            remaining_accounts,
            amount_in,
            offset,
            hop_accounts,
            hop,
            proxy_swap,
        ),
        Dex::FluxBeam => fluxbeam::swap_call(
            remaining_accounts,
            amount_in,
            offset,
            hop_accounts,
            hop,
            proxy_swap,
        ),
        Dex::MeteoraDlmm => meteora::swap_dlmm_call(
            remaining_accounts,
            amount_in,
            offset,
            hop_accounts,
            hop,
            proxy_swap,
        ),
        Dex::RaydiumCpmmSwap => raydium::swap_cpmm_call(
            remaining_accounts,
            amount_in,
            offset,
            hop_accounts,
            hop,
            proxy_swap,
        ),
        Dex::OpenBookV2 => openbookv2::place_take_order_call(
            remaining_accounts,
            amount_in,
            offset,
            hop_accounts,
            hop,
            proxy_swap,
        ),
        Dex::WhirlpoolV2 => whirlpool::swap_v2_call(
            remaining_accounts,
            amount_in,
            offset,
            hop_accounts,
            hop,
            proxy_swap,
        ),
        Dex::Phoenix => phoenix::swap_call(
            remaining_accounts,
            amount_in,
            offset,
            hop_accounts,
            hop,
            proxy_swap,
        ),
        Dex::ObricV2 => obric_v2::swap_call(
            remaining_accounts,
            amount_in,
            offset,
            hop_accounts,
            hop,
            proxy_swap,
        ),
        Dex::SanctumAddLiq => sanctum::add_liquidity_handler_call(
            remaining_accounts,
            amount_in,
            offset,
            hop_accounts,
            hop,
            proxy_swap,
        ),
        Dex::SanctumRemoveLiq => sanctum::remove_liquidity_handler_call(
            remaining_accounts,
            amount_in,
            offset,
            hop_accounts,
            hop,
            proxy_swap,
        ),
        Dex::SanctumNonWsolSwap => sanctum::swap_without_wsol_handler_call(
            remaining_accounts,
            amount_in,
            offset,
            hop_accounts,
            hop,
            proxy_swap,
        ),
        Dex::SanctumWsolSwap => sanctum::swap_with_wsol_handler_call(
            remaining_accounts,
            amount_in,
            offset,
            hop_accounts,
            hop,
            proxy_swap,
        ),
        Dex::PumpfunBuy => pumpfun::buy_call(
            remaining_accounts,
            amount_in,
            offset,
            hop_accounts,
            hop,
            proxy_swap,
        ),
        Dex::PumpfunSell => pumpfun::sell_call(
            remaining_accounts,
            amount_in,
            offset,
            hop_accounts,
            hop,
            proxy_swap,
        ),
    }
}

/// Hands a fork to the adapter of its venue.
pub fn excute_swap<'info>(
    dex: &Dex,
    remaining_accounts: &'info [AccountInfo],
    amount_in: u64,
    offset: usize,
    hop_accounts: &HopAccounts,
    hop: usize,
    proxy_swap: bool,
) -> (r: Result<Invocation, Error>)
    ensures
        yields(
            r,
            excute_swap_call(
                *dex,
                remaining_accounts@,
                amount_in,
                offset,
                *hop_accounts,
                hop,
                proxy_swap,
            ),
        ),
{
    match dex {
        Dex::SplTokenSwap => spl_token_swap::swap(
            remaining_accounts,
            amount_in,
            offset,
            hop_accounts,
            hop,
            proxy_swap,
        ),
        Dex::StableSwap => stable_swap::swap(
            remaining_accounts,
            amount_in,
            offset,
            hop_accounts,
            hop,
            proxy_swap,
        ),
        Dex::Whirlpool => whirlpool::swap(
            remaining_accounts,
            amount_in,
            offset,
            hop_accounts,
            hop,
            proxy_swap,
        ),
        Dex::MeteoraDynamicpool => meteora::swap(
            remaining_accounts,
            amount_in,
            offset,
            hop_accounts,
            hop,
            proxy_swap,
        ),
        Dex::RaydiumSwap => raydium::swap(
            remaining_accounts,
            amount_in,
            offset,
            hop_accounts,
            hop,
            proxy_swap,
        ),
        Dex::RaydiumStableSwap => raydium::swap_stable(
            remaining_accounts,
            amount_in,
            offset,
            hop_accounts,
            hop,
            proxy_swap,
        ),
        Dex::RaydiumClmmSwap => raydium::swap_clmm(
            remaining_accounts,
            amount_in,
            offset,
            hop_accounts,
            hop,
            proxy_swap,
        ),
        Dex::RaydiumClmmSwapV2 => raydium::swap_clmm_v2(
            remaining_accounts,
            amount_in,
            offset,
            hop_accounts,
            hop,
            proxy_swap,
        ),
        Dex::AldrinExchangeV1 => aldrin::swap_v1(
            remaining_accounts,
            amount_in,
            offset,
            hop_accounts,
            hop,
            proxy_swap,
        ),
        Dex::AldrinExchangeV2 => aldrin::swap_v2(
            remaining_accounts,
            amount_in,
            offset,
            hop_accounts,
            hop,
            proxy_swap,
        ),
        Dex::LifinityV1 => lifinity::swap_v1(
            remaining_accounts,
            amount_in,
            offset,
            hop_accounts,
            hop,
            proxy_swap,
        ),
        Dex::LifinityV2 => lifinity::swap_v2(
            remaining_accounts,
            amount_in,
            offset,
            hop_accounts,
            hop,
            proxy_swap,
        ),
        Dex::FluxBeam => fluxbeam::swap(
            remaining_accounts,
            amount_in,
            offset,
            hop_accounts,
            hop,
            proxy_swap,
        ),
        Dex::MeteoraDlmm => meteora::swap_dlmm(
            remaining_accounts,
            amount_in,
            offset,
            hop_accounts,
            hop,
            proxy_swap,
        ),
        Dex::RaydiumCpmmSwap => raydium::swap_cpmm(
            remaining_accounts,
            amount_in,
            offset,
            hop_accounts,
            hop,
            proxy_swap,
        ),
        Dex::OpenBookV2 => openbookv2::place_take_order(
            remaining_accounts,
            amount_in,
            offset,
            hop_accounts,
            hop,
            proxy_swap,
        ),
        Dex::WhirlpoolV2 => whirlpool::swap_v2(
            remaining_accounts,
            amount_in,
            offset,
            hop_accounts,
            hop,
            proxy_swap,
        ),
        Dex::Phoenix => phoenix::swap(
            remaining_accounts,
            amount_in,
            offset,
            hop_accounts,
            hop,
            proxy_swap,
        ),
        Dex::ObricV2 => obric_v2::swap(
            remaining_accounts,
            amount_in,
            offset,
            hop_accounts,
            hop,
            proxy_swap,
        ),
        Dex::SanctumAddLiq => sanctum::add_liquidity_handler(
            remaining_accounts,
            amount_in,
            offset,
            hop_accounts,
            hop,
            proxy_swap,
        ),
        Dex::SanctumRemoveLiq => sanctum::remove_liquidity_handler(
            remaining_accounts,
            amount_in,
            offset,
            hop_accounts,
            hop,
            proxy_swap,
        ),
        Dex::SanctumNonWsolSwap => sanctum::swap_without_wsol_handler(
            remaining_accounts,
            amount_in,
            offset,
            hop_accounts,
            hop,
            proxy_swap,
        ),
        Dex::SanctumWsolSwap => sanctum::swap_with_wsol_handler(
            remaining_accounts,
            amount_in,
            offset,
            hop_accounts,
            hop,
            proxy_swap,
        ),
        Dex::PumpfunBuy => pumpfun::buy(
            remaining_accounts,
            amount_in,
            offset,
            hop_accounts,
            hop,
            proxy_swap,
        ),
        Dex::PumpfunSell => pumpfun::sell(
            remaining_accounts,
            amount_in,
            offset,
            hop_accounts,
            hop,
            proxy_swap,
        ),
    }
}

/// The sum of `values`.
pub open spec fn sum(values: Seq<u64>) -> nat
    decreases values.len(),
{
    if values.len() == 0 {
        0
    } else {
        sum(values.drop_last()) + values.last() as nat
    }
}

/// The sum of `weights`.
pub open spec fn weight_sum(weights: Seq<u8>) -> nat
    decreases weights.len(),
{
    if weights.len() == 0 {
        0
    } else {
        weight_sum(weights.drop_last()) + weights.last() as nat
    }
}

/// The sum of a part of a sequence from its start is no more than the sum of the whole.
pub proof fn lemma_sum_grows(values: Seq<u64>, n: int)
    requires
        0 <= n <= values.len(),
    ensures
        sum(values.take(n)) <= sum(values),
    decreases values.len(),
{
    if n == values.len() {
        assert(values.take(n) =~= values);
    } else {
        lemma_sum_grows(values.drop_last(), n);
        assert(values.drop_last().take(n) =~= values.take(n));
    }
}

/// The sum of a part of the weights from their start is no more than the sum of all.
pub proof fn lemma_weight_sum_grows(weights: Seq<u8>, n: int)
    requires
        0 <= n <= weights.len(),
    ensures
        weight_sum(weights.take(n)) <= weight_sum(weights),
    decreases weights.len(),
{
    if n == weights.len() {
        assert(weights.take(n) =~= weights);
    } else {
        lemma_weight_sum_grows(weights.drop_last(), n);
        assert(weights.drop_last().take(n) =~= weights.take(n));
    }
}

/// What is wrong with the caller's request, if anything, in the order it is looked for: a
/// zero input, a zero minimum, an expectation below the minimum, split amounts and routes
/// of different number, split amounts whose sum does not fit 64 bits, and split amounts
/// that do not add up to the input.
pub open spec fn args_error(args: SwapArgs) -> Option<ErrorCode> {
    if args.amount_in == 0 {
        Some(ErrorCode::AmountInMustBeGreaterThanZero)
    } else if args.min_return == 0 {
        Some(ErrorCode::MinReturnMustBeGreaterThanZero)
    } else if args.expect_amount_out < args.min_return {
        Some(ErrorCode::InvalidExpectAmountOut)
    } else if args.amounts@.len() != args.routes@.len() {
        Some(ErrorCode::AmountsAndRoutesMustHaveTheSameLength)
    } else if sum(args.amounts@) > u64::MAX {
        Some(ErrorCode::CalculationError)
    } else if sum(args.amounts@) != args.amount_in {
        Some(ErrorCode::TotalAmountsMustBeEqualToAmountIn)
    } else {
        None
    }
}

/// Holds the caller's request to the rules every request must meet. Nothing is read or
/// changed but the request.
pub fn check_swap_args(args: &SwapArgs) -> (r: Result<(), Error>)
    ensures
        match r {
            Ok(_) => args_error(*args) is None,
            Err(e) => args_error(*args) matches Some(code) && e == Error::Router(code),
        },
        r is Ok ==> sum(args.amounts@) == args.amount_in && args.amounts@.len()
            == args.routes@.len() && args.amount_in > 0 && 0 < args.min_return
            <= args.expect_amount_out,
{
    if args.amount_in == 0 {
        return Err(Error::Router(ErrorCode::AmountInMustBeGreaterThanZero));
    }
    if args.min_return == 0 {
        return Err(Error::Router(ErrorCode::MinReturnMustBeGreaterThanZero));
    }
    if args.expect_amount_out < args.min_return {
        return Err(Error::Router(ErrorCode::InvalidExpectAmountOut));
    }
    if args.amounts.len() != args.routes.len() {
        return Err(Error::Router(ErrorCode::AmountsAndRoutesMustHaveTheSameLength));
    }
    let mut total_amounts: u64 = 0;
    let mut i: usize = 0;
    while i < args.amounts.len()
        invariant
            i <= args.amounts@.len(),
            total_amounts == sum(args.amounts@.take(i as int)),
            args.amount_in != 0,
            args.min_return != 0,
            args.expect_amount_out >= args.min_return,
            args.amounts@.len() == args.routes@.len(),
        decreases args.amounts@.len() - i,
    {
        proof {
            assert(args.amounts@.take(i + 1).drop_last() =~= args.amounts@.take(i as int));
            assert(args.amounts@.take(i + 1).last() == args.amounts@[i as int]);
            lemma_sum_grows(args.amounts@, i + 1);
        }
        total_amounts = match total_amounts.checked_add(args.amounts[i]) {
            Some(acc) => acc,
            None => {
                return Err(Error::Router(ErrorCode::CalculationError));
            },
        };
        i = i + 1;
    }
    proof {
        assert(args.amounts@.take(i as int) =~= args.amounts@);
    }
    if total_amounts != args.amount_in {
        return Err(Error::Router(ErrorCode::TotalAmountsMustBeEqualToAmountIn));
    }
    Ok(())
}

/// What is wrong with a hop, if anything, in the order it is looked for: venues and weights
/// of different number, weights whose sum does not fit 8 bits, and weights that do not add
/// up to `TOTAL_WEIGHT`.
pub open spec fn route_error(route: Route) -> Option<ErrorCode> {
    if route.dexes@.len() != route.weights@.len() {
        Some(ErrorCode::DexesAndWeightsMustHaveTheSameLength)
    } else if weight_sum(route.weights@) > u8::MAX {
        Some(ErrorCode::CalculationError)
    } else if weight_sum(route.weights@) != TOTAL_WEIGHT {
        Some(ErrorCode::WeightsMustSumTo100)
    } else {
        None
    }
}

/// Holds a hop to the rules every hop must meet.
pub fn check_route(route: &Route) -> (r: Result<(), Error>)
    ensures
        match r {
            Ok(_) => route_error(*route) is None,
            Err(e) => route_error(*route) matches Some(code) && e == Error::Router(code),
        },
{
    if route.dexes.len() != route.weights.len() {
        return Err(Error::Router(ErrorCode::DexesAndWeightsMustHaveTheSameLength));
    }
    let mut total_weight: u8 = 0;
    let mut i: usize = 0;
    while i < route.weights.len()
        invariant
            i <= route.weights@.len(),
            total_weight == weight_sum(route.weights@.take(i as int)),
            route.dexes@.len() == route.weights@.len(),
        decreases route.weights@.len() - i,
    {
        proof {
            assert(route.weights@.take(i + 1).drop_last() =~= route.weights@.take(i as int));
            assert(route.weights@.take(i + 1).last() == route.weights@[i as int]);
            lemma_weight_sum_grows(route.weights@, i + 1);
        }
        total_weight = match total_weight.checked_add(route.weights[i]) {
            Some(acc) => acc,
            None => {
                return Err(Error::Router(ErrorCode::CalculationError));
            },
        };
        i = i + 1;
    }
    proof {
        assert(route.weights@.take(i as int) =~= route.weights@);
    }
    if total_weight != TOTAL_WEIGHT {
        return Err(Error::Router(ErrorCode::WeightsMustSumTo100));
    }
    Ok(())
}

/// The share of `amount_in` that a weight stands for, rounded down.
pub open spec fn share(amount_in: u64, weight: u8) -> nat {
    (amount_in * weight / (TOTAL_WEIGHT as int)) as nat
}

/// The shares of `amount_in` that the first `forks` weights stand for, added up.
pub open spec fn shares_before(amount_in: u64, weights: Seq<u8>, forks: int) -> nat
    decreases forks,
{
    if forks <= 0 {
        0
    } else {
        shares_before(amount_in, weights, forks - 1) + share(amount_in, weights[forks - 1])
    }
}

/// What the fork `fork` of a hop gets of the hop's input `amount_in`. Every fork but the
/// last gets the share its weight stands for, rounded down; the last gets what the others
/// left.
pub open spec fn fork_amount(amount_in: u64, weights: Seq<u8>, fork: int) -> int {
    if fork == weights.len() - 1 {
        amount_in - shares_before(amount_in, weights, fork)
    } else {
        share(amount_in, weights[fork]) as int
    }
}

/// What the fork `fork` gets of `amount_in` when the forks before it got `acc_fork_in`
/// together, or the failure of the arithmetic: a product, a sum or a difference that does
/// not fit 64 bits.
pub open spec fn fork_share(
    amount_in: u64,
    weights: Seq<u8>,
    fork: int,
    acc_fork_in: u64,
) -> Result<
    u64,
    Error,
> {
    if fork == weights.len() - 1 {
        if amount_in < acc_fork_in {
            Err(Error::Router(ErrorCode::CalculationError))
        } else {
            Ok((amount_in - acc_fork_in) as u64)
        }
    } else if amount_in * weights[fork] > u64::MAX {
        Err(Error::Router(ErrorCode::CalculationError))
    } else if acc_fork_in + share(amount_in, weights[fork]) > u64::MAX {
        Err(Error::Router(ErrorCode::CalculationError))
    } else {
        Ok(share(amount_in, weights[fork]) as u64)
    }
}

/// What a fork gets of the hop's input, by the rounding rule of the router: every fork but
/// the last gets its share rounded down, the last gets the rest.
pub fn split_fork_amount(amount_in: u64, weights: &Vec<u8>, fork: usize, acc_fork_in: u64) -> (r:
    Result<u64, Error>)
    requires
        fork < weights@.len(),
    ensures
        r == fork_share(amount_in, weights@, fork as int, acc_fork_in),
{
    if fork == weights.len() - 1 {
        // the last fork takes what the others left, so that nothing is lost to rounding
        match amount_in.checked_sub(acc_fork_in) {
            Some(rest) => Ok(rest),
            None => Err(Error::Router(ErrorCode::CalculationError)),
        }
    } else {
        let product: u64 = match amount_in.checked_mul(weights[fork] as u64) {
            Some(product) => product,
            None => {
                return Err(Error::Router(ErrorCode::CalculationError));
            },
        };
        let temp_amount: u64 = product / (TOTAL_WEIGHT as u64);
        match acc_fork_in.checked_add(temp_amount) {
            Some(_) => Ok(temp_amount),
            None => Err(Error::Router(ErrorCode::CalculationError)),
        }
    }
}

/// The first split bucket from `from` on that has a hop, or the number of buckets where
/// none has.
pub open spec fn next_bucket(routes: Seq<Vec<Route>>, from: int) -> int
    decreases routes.len() - from,
{
    if from >= routes.len() {
        routes.len() as int
    } else if routes[from]@.len() > 0 {
        from
    } else {
        next_bucket(routes, from + 1)
    }
}

pub proof fn lemma_next_bucket(routes: Seq<Vec<Route>>, from: int)
    requires
        0 <= from <= routes.len(),
    ensures
        from <= next_bucket(routes, from) <= routes.len(),
        next_bucket(routes, from) < routes.len() ==> routes[next_bucket(routes, from)]@.len() > 0,
    decreases routes.len() - from,
{
    if from < routes.len() && routes[from]@.len() == 0 {
        lemma_next_bucket(routes, from + 1);
    }
}

/// A routing call between two venue calls: the request, the caller's two token accounts
/// and their balances at the start, the account cursor, the fork that comes next, and what
/// the hop it belongs to has taken and brought so far.
#[derive(Debug)]
pub struct SwapProcess {
    pub args: SwapArgs,
    pub proxy_swap: bool,
    pub source_token_account: Pubkey,
    pub destination_token_account: Pubkey,
    pub before_source_balance: u64,
    pub before_destination_balance: u64,
    /// The account cursor: the place in the flat account list of the next venue's first
    /// account.
    pub offset: usize,
    /// The split bucket of the next fork; the number of buckets when the route is walked.
    pub bucket: usize,
    /// The hop of the next fork in its bucket.
    pub hop: usize,
    /// The next fork in its hop.
    pub fork: usize,
    /// The input of the hop.
    pub amount_in: u64,
    /// What the forks of the hop brought so far.
    pub amount_out: u64,
    /// What the forks of the hop took so far.
    pub acc_fork_in: u64,
    pub hop_accounts: HopAccounts,
}

/// What the caller of a routing call does next.
#[derive(Debug)]
pub enum Step {
    /// Make the calls of the invocation, then hand their outcome to `record`.
    Invoke(Invocation),
    /// The route is walked: hand the caller's two token accounts to `settle`.
    Settle,
}

impl SwapProcess {
    /// Whether the route is walked.
    pub open spec fn finished(&self) -> bool {
        self.bucket >= self.args.routes@.len()
    }

    /// The hops of the bucket of the next fork.
    pub open spec fn hops(&self) -> Seq<Route> {
        self.args.routes@[self.bucket as int]@
    }

    /// The hop of the next fork.
    pub open spec fn route(&self) -> Route {
        self.hops()[self.hop as int]
    }

    /// Whether the next fork is the last of its hop.
    pub open spec fn at_last_fork(&self) -> bool {
        self.fork + 1 == self.route().weights@.len()
    }

    /// Whether the hop of the next fork is the last of its bucket.
    pub open spec fn at_last_hop(&self) -> bool {
        self.hop + 1 == self.hops().len()
    }

    /// What holds of every state that `swap_process` and `record` hand out. There are as
    /// many split amounts as buckets; the next fork exists, unless the route is walked; a
    /// hop that has begun passed the checks on hops, and its forks took the shares that
    /// their weights stand for.
    pub open spec fn wf(&self) -> bool {
        &&& self.args.amounts@.len() == self.args.routes@.len()
        &&& self.bucket <= self.args.routes@.len()
        &&& !self.finished() ==> {
            &&& self.hop < self.hops().len()
            &&& self.hop > 0 ==> self.hops().len() <= MAX_HOPS
            &&& self.fork == 0 ==> self.acc_fork_in == 0 && self.amount_out == 0
            &&& self.fork > 0 ==> {
                &&& self.hops().len() <= MAX_HOPS
                &&& route_error(self.route()) is None
                &&& self.fork < self.route().weights@.len()
                &&& self.acc_fork_in == shares_before(
                    self.amount_in,
                    self.route().weights@,
                    self.fork as int,
                )
            }
        }
    }

    /// What the next fork gets of its hop's input, or why the route cannot go on. A bucket
    /// is held to the limit on hops when its first fork is reached, and a hop to the rules
    /// on hops when its first fork is reached.
    pub open spec fn fork_input(&self) -> Result<u64, Error> {
        if self.hop == 0 && self.fork == 0 && self.hops().len() > MAX_HOPS {
            Err(Error::Router(ErrorCode::TooManyHops))
        } else if self.fork == 0 && route_error(self.route()) is Some {
            Err(Error::Router(route_error(self.route())->Some_0))
        } else if self.fork >= self.route().weights@.len() {
            Err(Error::Router(ErrorCode::WeightsMustSumTo100))
        } else {
            fork_share(self.amount_in, self.route().weights@, self.fork as int, self.acc_fork_in)
        }
    }

    /// What the caller does next: the invocation of the next fork's venue, prepared from
    /// the accounts at the cursor, or the settlement when the route is walked.
    pub open spec fn next_step(&self, remaining_accounts: Seq<AccountInfo>) -> Result<
        Option<InvocationView>,
        Error,
    > {
        if self.finished() {
            Ok(None)
        } else {
            match self.fork_input() {
                Err(e) => Err(e),
                Ok(fork_amount_in) => match excute_swap_call(
                    self.route().dexes@[self.fork as int],
                    remaining_accounts,
                    fork_amount_in,
                    self.offset,
                    self.hop_accounts,
                    self.hop,
                    self.proxy_swap,
                ) {
                    Err(e) => Err(e),
                    Ok(invocation) => Ok(Some(invocation)),
                },
            }
        }
    }

    /// Why the hop may not end on the accounts it traded between, if it may not: the first
    /// hop must draw from the caller's source account, the last must pay into the caller's
    /// destination account.
    pub open spec fn boundary_error(&self, from_account: Pubkey, to_account: Pubkey) -> Option<
        Error,
    > {
        if self.hop == 0 && self.source_token_account != from_account {
            Some(Error::Router(ErrorCode::InvalidSourceTokenAccount))
        } else if self.at_last_hop() && self.destination_token_account != to_account {
            Some(Error::Router(ErrorCode::InvalidDestinationTokenAccount))
        } else {
            None
        }
    }

    /// What `record` makes of the outcome of an invocation: what the fork brought, or why
    /// the route cannot go on.
    pub open spec fn recorded(
        &self,
        invocation: InvocationView,
        outcome: Result<(), CallFailure>,
        destination_after: &AccountInfo,
    ) -> Result<SwapEvent, Error> {
        match self.fork_input() {
            Err(e) => Err(e),
            Ok(fork_amount_in) => match invocation.realized(outcome, destination_after) {
                Err(e) => Err(e),
                Ok(fork_amount_out) => if self.amount_out + fork_amount_out > u64::MAX {
                    Err(Error::Router(ErrorCode::CalculationError))
                } else if self.at_last_fork() && self.boundary_error(
                    invocation.swap_source_token,
                    invocation.swap_destination_token,
                ) is Some {
                    Err(
                        self.boundary_error(
                            invocation.swap_source_token,
                            invocation.swap_destination_token,
                        )->Some_0,
                    )
                } else {
                    Ok(
                        SwapEvent {
                            dex: self.route().dexes@[self.fork as int],
                            amount_in: fork_amount_in,
                            amount_out: fork_amount_out,
                        },
                    )
                },
            },
        }
    }

    /// The state after a fork that took `fork_amount_in` and brought `fork_amount_out`
    /// through `invocation`. The cursor stands behind the venue's accounts. Within a hop
    /// the next fork follows; at the end of a hop its output becomes the input of the next,
    /// which must draw from the account this one paid into; at the end of a bucket the next
    /// bucket that has a hop follows, with its own split amount.
    pub open spec fn advanced(
        &self,
        invocation: InvocationView,
        fork_amount_in: u64,
        fork_amount_out: u64,
    ) -> SwapProcess {
        let hop_out = (self.amount_out + fork_amount_out) as u64;
        if !self.at_last_fork() {
            SwapProcess {
                offset: invocation.next_offset,
                fork: (self.fork + 1) as usize,
                amount_out: hop_out,
                acc_fork_in: (self.acc_fork_in + fork_amount_in) as u64,
                hop_accounts: HopAccounts {
                    last_to_account: self.hop_accounts.last_to_account,
                    from_account: invocation.swap_source_token,
                    to_account: invocation.swap_destination_token,
                },
                ..*self
            }
        } else if !self.at_last_hop() {
            SwapProcess {
                offset: invocation.next_offset,
                hop: (self.hop + 1) as usize,
                fork: 0,
                amount_in: hop_out,
                amount_out: 0,
                acc_fork_in: 0,
                hop_accounts: HopAccounts::fresh(invocation.swap_destination_token),
                ..*self
            }
        } else {
            let bucket = next_bucket(self.args.routes@, self.bucket + 1);
            SwapProcess {
                offset: invocation.next_offset,
                bucket: bucket as usize,
                hop: 0,
                fork: 0,
                amount_in: if bucket < self.args.amounts@.len() {
                    self.args.amounts@[bucket]
                } else {
                    0
                },
                amount_out: 0,
                acc_fork_in: 0,
                hop_accounts: HopAccounts::fresh(address(ZERO_ADDRESS)),
                ..*self
            }
        }
    }

    /// What the routing call comes to, given the caller's two token accounts as they stand
    /// when the route is walked: the growth of the destination's balance, which must be at
    /// least the caller's minimum. A source account that holds nothing any more was closed
    /// on the way and is not read. The source must not have grown, nor the destination
    /// shrunk.
    pub open spec fn settled(
        &self,
        source_after: &AccountInfo,
        destination_after: &AccountInfo,
    ) -> Result<u64, Error> {
        let source = if source_after.lamports != 0 {
            TokenAccount::reloaded(source_after)
        } else {
            Ok(
                TokenAccount {
                    info: source_after,
                    mint: address(ZERO_ADDRESS),
                    owner: address(ZERO_ADDRESS),
                    amount: self.before_source_balance,
                },
            )
        };
        let destination = TokenAccount::reloaded(destination_after);
        if source is Err {
            Err(source->Err_0)
        } else if destination is Err {
            Err(destination->Err_0)
        } else if self.before_source_balance < source->Ok_0.amount {
            Err(Error::Router(ErrorCode::CalculationError))
        } else if destination->Ok_0.amount < self.before_destination_balance {
            Err(Error::Router(ErrorCode::CalculationError))
        } else if destination->Ok_0.amount - self.before_destination_balance
            < self.args.min_return {
            Err(Error::Router(ErrorCode::MinReturnNotReached))
        } else {
            Ok((destination->Ok_0.amount - self.before_destination_balance) as u64)
        }
    }

    /// Whether the state is one that `swap_process` and `record` hand out.
    pub fn is_wf(&self) -> (r: bool)
        ensures
            r == self.wf(),
    {
        if self.args.amounts.len() != self.args.routes.len() {
            return false;
        }
        if self.bucket >= self.args.routes.len() {
            return self.bucket == self.args.routes.len();
        }
        let hops = &self.args.routes[self.bucket];
        if self.hop >= hops.len() || (self.hop > 0 && hops.len() > MAX_HOPS) {
            return false;
        }
        if self.fork == 0 {
            return self.acc_fork_in == 0 && self.amount_out == 0;
        }
        let route = &hops[self.hop];
        if hops.len() > MAX_HOPS || check_route(route).is_err() || self.fork >= route.weights.len() {
            return false;
        }
        let mut taken: u64 = 0;
        let mut fork: usize = 0;
        while fork < self.fork
            invariant
                fork <= self.fork < route.weights@.len(),
                weight_sum(route.weights@) == TOTAL_WEIGHT,
                taken == shares_before(self.amount_in, route.weights@, fork as int),
            decreases self.fork - fork,
        {
            proof {
                lemma_shares_fit(self.amount_in, route.weights@, fork + 1);
                assert(self.amount_in * route.weights@[fork as int] <= self.amount_in * 255)
                    by (nonlinear_arith)
                    requires
                        route.weights@[fork as int] <= 255,
                        self.amount_in >= 0,
                ;
            }
            let product: u128 = self.amount_in as u128 * route.weights[fork] as u128;
            taken = taken + (product / (TOTAL_WEIGHT as u128)) as u64;
            fork = fork + 1;
        }
        taken == self.acc_fork_in
    }

    fn skip_empty_buckets(&mut self)
        requires
            old(self).args.amounts@.len() == old(self).args.routes@.len(),
            old(self).bucket <= old(self).args.routes@.len(),
        ensures
            *final(self) == (SwapProcess {
                bucket: next_bucket(old(self).args.routes@, old(self).bucket as int) as usize,
                amount_in: if next_bucket(old(self).args.routes@, old(self).bucket as int)
                    < old(self).args.amounts@.len() {
                    old(self).args.amounts@[next_bucket(
                        old(self).args.routes@,
                        old(self).bucket as int,
                    )]
                } else {
                    0
                },
                ..*old(self)
            }),
    {
        proof {
            lemma_next_bucket(self.args.routes@, self.bucket as int);
        }
        while self.bucket < self.args.routes.len() && self.args.routes[self.bucket].len() == 0
            invariant
                self.bucket <= self.args.routes@.len(),
                next_bucket(self.args.routes@, self.bucket as int) == next_bucket(
                    old(self).args.routes@,
                    old(self).bucket as int,
                ),
                *self == (SwapProcess { bucket: self.bucket, ..*old(self) }),
            decreases self.args.routes@.len() - self.bucket,
        {
            self.bucket = self.bucket + 1;
        }
        self.amount_in = if self.bucket < self.args.amounts.len() {
            self.args.amounts[self.bucket]
        } else {
            0
        };
    }

    fn fork_amount_in(&self) -> (r: Result<u64, Error>)
        requires
            self.wf(),
            !self.finished(),
        ensures
            r == self.fork_input(),
            r is Ok ==> route_error(self.route()) is None && self.fork < self.route().weights@.len()
                && self.hops().len() <= MAX_HOPS,
    {
        let hops = &self.args.routes[self.bucket];
        if self.hop == 0 && self.fork == 0 && hops.len() > MAX_HOPS {
            return Err(Error::Router(ErrorCode::TooManyHops));
        }
        let route = &hops[self.hop];
        if self.fork == 0 {
            check_route(route)?;
        }
        if self.fork >= route.weights.len() {
            proof {
                assert(route.weights@ =~= Seq::<u8>::empty());
            }
            return Err(Error::Router(ErrorCode::WeightsMustSumTo100));
        }
        split_fork_amount(self.amount_in, &route.weights, self.fork, self.acc_fork_in)
    }

    /// Says what the caller does next. Where a fork is left, its amount is split off its
    /// hop's input and its venue's adapter prepares the call from the accounts at the
    /// cursor, as they stand now. The state is not changed: it moves on when the outcome of
    /// the call is recorded.
    pub fn next<'info>(&self, remaining_accounts: &'info [AccountInfo]) -> (r: Result<Step, Error>)
        requires
            self.wf(),
        ensures
            match r {
                Ok(Step::Invoke(invocation)) => self.next_step(remaining_accounts@) == Ok::<
                    Option<InvocationView>,
                    Error,
                >(Some(invocation@)),
                Ok(Step::Settle) => self.next_step(remaining_accounts@) == Ok::<
                    Option<InvocationView>,
                    Error,
                >(None),
                Err(e) => self.next_step(remaining_accounts@) == Err::<
                    Option<InvocationView>,
                    Error,
                >(e),
            },
    {
        if self.bucket >= self.args.routes.len() {
            return Ok(Step::Settle);
        }
        let fork_amount_in: u64 = self.fork_amount_in()?;
        let dex = &self.args.routes[self.bucket][self.hop].dexes[self.fork];
        let invocation = excute_swap(
            dex,
            remaining_accounts,
            fork_amount_in,
            self.offset,
            &self.hop_accounts,
            self.hop,
            self.proxy_swap,
        )?;
        Ok(Step::Invoke(invocation))
    }

    /// Takes the outcome of an invocation in: how its calls went, and the destination
    /// account of the venue as it stands after them. The fork's output is the growth of
    /// that account's balance. At the end of a hop the accounts it traded between are held
    /// against the caller's: the first hop must draw from the caller's source account, the
    /// last must pay into the caller's destination account. On failure the state stays as
    /// it was.
    pub fn record(
        &mut self,
        invocation: &Invocation,
        outcome: Result<(), CallFailure>,
        destination_after: &AccountInfo,
    ) -> (r: Result<SwapEvent, Error>)
        requires
            old(self).wf(),
            !old(self).finished(),
        ensures
            r == old(self).recorded(invocation@, outcome, destination_after),
            r matches Ok(event) ==> *final(self) == old(self).advanced(
                invocation@,
                event.amount_in,
                event.amount_out,
            ) && final(self).wf(),
            r is Err ==> *final(self) == *old(self),
    {
        let fork_amount_in: u64 = self.fork_amount_in()?;
        let fork_amount_out: u64 = invocation.realized_output(outcome, destination_after)?;
        let hop_out: u64 = match self.amount_out.checked_add(fork_amount_out) {
            Some(hop_out) => hop_out,
            None => {
                return Err(Error::Router(ErrorCode::CalculationError));
            },
        };
        let hops_len: usize = self.args.routes[self.bucket].len();
        let route = &self.args.routes[self.bucket][self.hop];
        let dex: Dex = route.dexes[self.fork];
        let last_fork: bool = self.fork == route.weights.len() - 1;
        let event = SwapEvent { dex, amount_in: fork_amount_in, amount_out: fork_amount_out };
        if !last_fork {
            self.offset = invocation.next_offset;
            self.fork = self.fork + 1;
            self.amount_out = hop_out;
            self.acc_fork_in = self.acc_fork_in + fork_amount_in;
            self.hop_accounts.from_account = invocation.swap_source_token;
            self.hop_accounts.to_account = invocation.swap_destination_token;
            proof {
                let weights = old(self).route().weights@;
                assert(shares_before(self.amount_in, weights, 0) == 0);
                assert(shares_before(self.amount_in, weights, old(self).fork + 1) == shares_before(
                    self.amount_in,
                    weights,
                    old(self).fork as int,
                ) + share(self.amount_in, weights[old(self).fork as int]));
            }
            return Ok(event);
        }
        if self.hop == 0 && self.source_token_account != invocation.swap_source_token {
            // the first hop must draw from the caller's source account
            return Err(Error::Router(ErrorCode::InvalidSourceTokenAccount));
        }
        if self.hop + 1 == hops_len && self.destination_token_account
            != invocation.swap_destination_token {
            // the last hop must pay into the caller's destination account
            return Err(Error::Router(ErrorCode::InvalidDestinationTokenAccount));
        }
        self.offset = invocation.next_offset;
        self.fork = 0;
        self.amount_out = 0;
        self.acc_fork_in = 0;
        if self.hop + 1 < hops_len {
            self.hop = self.hop + 1;
            self.amount_in = hop_out;
            self.hop_accounts = HopAccounts::new(invocation.swap_destination_token);
        } else {
            proof {
                assert(self.args.routes.len() == self.args.routes@.len());
            }
            self.hop = 0;
            self.bucket = self.bucket + 1;
            self.hop_accounts = HopAccounts::new(Pubkey::new_from_array(ZERO_ADDRESS));
            self.skip_empty_buckets();
            proof {
                lemma_next_bucket(self.args.routes@, old(self).bucket + 1);
            }
        }
        Ok(event)
    }

    /// Settles the routing call: reads the caller's two token accounts as they stand now
    /// and holds the growth of the destination's balance against the caller's minimum. The
    /// growth is what the call gives back, whatever the venues reported.
    pub fn settle(&self, source_after: &AccountInfo, destination_after: &AccountInfo) -> (r: Result<
        u64,
        Error,
    >)
        ensures
            r == self.settled(source_after, destination_after),
    {
        // a source account that holds nothing was closed by a venue on the way
        let after_source_balance: u64 = if source_after.lamports != 0 {
            TokenAccount::reload(source_after)?.amount
        } else {
            self.before_source_balance
        };
        let after_destination_balance: u64 = TokenAccount::reload(destination_after)?.amount;
        if self.before_source_balance < after_source_balance {
            return Err(Error::Router(ErrorCode::CalculationError));
        }
        if after_destination_balance < self.before_destination_balance {
            return Err(Error::Router(ErrorCode::CalculationError));
        }
        let destination_token_change: u64 = after_destination_balance
            - self.before_destination_balance;
        // the growth must reach the minimum
        if destination_token_change < self.args.min_return {
            return Err(Error::Router(ErrorCode::MinReturnNotReached));
        }
        Ok(destination_token_change)
    }
}

/// What the first forks of a hop take together fits what the hop takes in, where the
/// weights add up to no more than `TOTAL_WEIGHT`.
pub proof fn lemma_shares_fit(amount_in: u64, weights: Seq<u8>, forks: int)
    requires
        0 <= forks <= weights.len(),
        weight_sum(weights) <= TOTAL_WEIGHT,
    ensures
        shares_before(amount_in, weights, forks) * (TOTAL_WEIGHT as int) <= amount_in * weight_sum(
            weights.take(forks),
        ),
        shares_before(amount_in, weights, forks) <= amount_in,
    decreases forks,
{
    if forks > 0 {
        lemma_shares_fit(amount_in, weights, forks - 1);
        assert(weights.take(forks).drop_last() =~= weights.take(forks - 1));
        let w = weights[forks - 1];
        assert(weights.take(forks).last() == w);
        let product = amount_in * w;
        assert(share(amount_in, w) * 100 <= product) by {
            assert(product / 100 * 100 <= product) by (nonlinear_arith)
                requires
                    product >= 0,
            ;
        }
        assert(amount_in * weight_sum(weights.take(forks)) == amount_in * weight_sum(
            weights.take(forks - 1),
        ) + amount_in * w) by (nonlinear_arith)
            requires
                weight_sum(weights.take(forks)) == weight_sum(weights.take(forks - 1)) + w,
        ;
    }
    lemma_weight_sum_grows(weights, forks);
    assert(shares_before(amount_in, weights, forks) <= amount_in) by (nonlinear_arith)
        requires
            shares_before(amount_in, weights, forks) * 100 <= amount_in * weight_sum(
                weights.take(forks),
            ),
            weight_sum(weights.take(forks)) <= 100,
            amount_in >= 0,
    ;
}

/// Begins a routing call between the caller's two token accounts, as they stand now. The
/// request is held to its rules before anything else happens, and the two balances are
/// noted: the call will be settled against them.
pub fn swap_process(
    source_token_account: &TokenAccount,
    destination_token_account: &TokenAccount,
    args: SwapArgs,
    proxy_swap: bool,
) -> (r: Result<SwapProcess, Error>)
    ensures
        match r {
            Ok(process) => args_error(args) is None && process.wf() && process == (SwapProcess {
                args,
                proxy_swap,
                source_token_account: source_token_account.info.key,
                destination_token_account: destination_token_account.info.key,
                before_source_balance: source_token_account.amount,
                before_destination_balance: destination_token_account.amount,
                offset: 0,
                bucket: next_bucket(args.routes@, 0) as usize,
                hop: 0,
                fork: 0,
                amount_in: if next_bucket(args.routes@, 0) < args.amounts@.len() {
                    args.amounts@[next_bucket(args.routes@, 0)]
                } else {
                    0
                },
                amount_out: 0,
                acc_fork_in: 0,
                hop_accounts: HopAccounts::fresh(address(ZERO_ADDRESS)),
            }),
            Err(e) => args_error(args) matches Some(code) && e == Error::Router(code),
        },
{
    // the request is checked before a balance is read
    check_swap_args(&args)?;
    let mut process = SwapProcess {
        args,
        proxy_swap,
        source_token_account: source_token_account.key(),
        destination_token_account: destination_token_account.key(),
        before_source_balance: source_token_account.amount,
        before_destination_balance: destination_token_account.amount,
        offset: 0,
        bucket: 0,
        hop: 0,
        fork: 0,
        amount_in: 0,
        amount_out: 0,
        acc_fork_in: 0,
        hop_accounts: HopAccounts::new(Pubkey::new_from_array(ZERO_ADDRESS)),
    };
    process.skip_empty_buckets();
    proof {
        lemma_next_bucket(process.args.routes@, 0);
        assert(args.routes.len() == args.routes@.len());
    }
    Ok(process)
}

/// Whatever the venue, a call that is handed out for a fork continues the hop chain: it
/// trades between the accounts that the forks before it in the hop traded between, and
/// draws from the account that the hop before paid into. It takes its accounts from the
/// cursor on, and leaves the cursor behind them, within the list.
pub proof fn lemma_excute_swap_call(
    dex: Dex,
    remaining_accounts: Seq<AccountInfo>,
    amount_in: u64,
    offset: usize,
    hop_accounts: HopAccounts,
    hop: usize,
    proxy_swap: bool,
)
    requires
        remaining_accounts.len() <= usize::MAX,
    ensures
        excute_swap_call(
            dex,
            remaining_accounts,
            amount_in,
            offset,
            hop_accounts,
            hop,
            proxy_swap,
        ) matches Ok(invocation) ==> {
            &&& continuity_error(
                invocation.swap_source_token,
                invocation.swap_destination_token,
                hop_accounts,
            ) is None
            &&& offset < invocation.next_offset <= remaining_accounts.len()
            &&& offset <= invocation.destination < invocation.next_offset
        },
{
    match dex {
        Dex::SplTokenSwap => spl_token_swap::lemma_swap_call(
            remaining_accounts,
            amount_in,
            offset,
            hop_accounts,
            hop,
            proxy_swap,
        ),
        Dex::StableSwap => stable_swap::lemma_swap_call(
            remaining_accounts,
            amount_in,
            offset,
            hop_accounts,
            hop,
            proxy_swap,
        ),
        Dex::Whirlpool => whirlpool::lemma_swap_call(
            remaining_accounts,
            amount_in,
            offset,
            hop_accounts,
            hop,
            proxy_swap,
        ),
        Dex::MeteoraDynamicpool => meteora::lemma_swap_call(
            remaining_accounts,
            amount_in,
            offset,
            hop_accounts,
            hop,
            proxy_swap,
        ),
        Dex::RaydiumSwap => raydium::lemma_swap_call(
            remaining_accounts,
            amount_in,
            offset,
            hop_accounts,
            hop,
            proxy_swap,
        ),
        Dex::RaydiumStableSwap => raydium::lemma_swap_stable_call(
            remaining_accounts,
            amount_in,
            offset,
            hop_accounts,
            hop,
            proxy_swap,
        ),
        Dex::RaydiumClmmSwap => raydium::lemma_swap_clmm_call(
            remaining_accounts,
            amount_in,
            offset,
            hop_accounts,
            hop,
            proxy_swap,
        ),
        Dex::RaydiumClmmSwapV2 => raydium::lemma_swap_clmm_v2_call(
            remaining_accounts,
            amount_in,
            offset,
            hop_accounts,
            hop,
            proxy_swap,
        ),
        Dex::AldrinExchangeV1 => aldrin::lemma_swap_v1_call(
            remaining_accounts,
            amount_in,
            offset,
            hop_accounts,
            hop,
            proxy_swap,
        ),
        Dex::AldrinExchangeV2 => aldrin::lemma_swap_v2_call(
            remaining_accounts,
            amount_in,
            offset,
            hop_accounts,
            hop,
            proxy_swap,
        ),
        Dex::LifinityV1 => lifinity::lemma_swap_v1_call(
            remaining_accounts,
            amount_in,
            offset,
            hop_accounts,
            hop,
            proxy_swap,
        ),
        Dex::LifinityV2 => lifinity::lemma_swap_v2_call(
            remaining_accounts,
            amount_in,
            offset,
            hop_accounts,
            hop,
            proxy_swap,
        ),
        Dex::FluxBeam => fluxbeam::lemma_swap_call(
            remaining_accounts,
            amount_in,
            offset,
            hop_accounts,
            hop,
            proxy_swap,
        ),
        Dex::MeteoraDlmm => meteora::lemma_swap_dlmm_call(
            remaining_accounts,
            amount_in,
            offset,
            hop_accounts,
            hop,
            proxy_swap,
        ),
        Dex::RaydiumCpmmSwap => raydium::lemma_swap_cpmm_call(
            remaining_accounts,
            amount_in,
            offset,
            hop_accounts,
            hop,
            proxy_swap,
        ),
        Dex::OpenBookV2 => openbookv2::lemma_place_take_order_call(
            remaining_accounts,
            amount_in,
            offset,
            hop_accounts,
            hop,
            proxy_swap,
        ),
        Dex::WhirlpoolV2 => whirlpool::lemma_swap_v2_call(
            remaining_accounts,
            amount_in,
            offset,
            hop_accounts,
            hop,
            proxy_swap,
        ),
        Dex::Phoenix => phoenix::lemma_swap_call(
            remaining_accounts,
            amount_in,
            offset,
            hop_accounts,
            hop,
            proxy_swap,
        ),
        Dex::ObricV2 => obric_v2::lemma_swap_call(
            remaining_accounts,
            amount_in,
            offset,
            hop_accounts,
            hop,
            proxy_swap,
        ),
        Dex::SanctumAddLiq => sanctum::lemma_add_liquidity_handler_call(
            remaining_accounts,
            amount_in,
            offset,
            hop_accounts,
            hop,
            proxy_swap,
        ),
        Dex::SanctumRemoveLiq => sanctum::lemma_remove_liquidity_handler_call(
            remaining_accounts,
            amount_in,
            offset,
            hop_accounts,
            hop,
            proxy_swap,
        ),
        Dex::SanctumNonWsolSwap => sanctum::lemma_swap_without_wsol_handler_call(
            remaining_accounts,
            amount_in,
            offset,
            hop_accounts,
            hop,
            proxy_swap,
        ),
        Dex::SanctumWsolSwap => sanctum::lemma_swap_with_wsol_handler_call(
            remaining_accounts,
            amount_in,
            offset,
            hop_accounts,
            hop,
            proxy_swap,
        ),
        Dex::PumpfunBuy => pumpfun::lemma_buy_call(
            remaining_accounts,
            amount_in,
            offset,
            hop_accounts,
            hop,
            proxy_swap,
        ),
        Dex::PumpfunSell => pumpfun::lemma_sell_call(
            remaining_accounts,
            amount_in,
            offset,
            hop_accounts,
            hop,
            proxy_swap,
        ),
    }
}

/// Whatever the venue, a call that is handed out for a fork is made of the accounts between
/// the cursor and where the call leaves it, and of no others: any list with the same
/// accounts in that part gives the same call.
pub proof fn lemma_excute_swap_call_local(
    dex: Dex,
    first: Seq<AccountInfo>,
    second: Seq<AccountInfo>,
    amount_in: u64,
    offset: usize,
    hop_accounts: HopAccounts,
    hop: usize,
    proxy_swap: bool,
)
    requires
        first.len() <= usize::MAX,
        excute_swap_call(
            dex,
            first,
            amount_in,
            offset,
            hop_accounts,
            hop,
            proxy_swap,
        ) matches Ok(invocation) && second.len() >= invocation.next_offset && first.subrange(
            offset as int,
            invocation.next_offset as int,
        ) == second.subrange(offset as int, invocation.next_offset as int),
    ensures
        excute_swap_call(dex, second, amount_in, offset, hop_accounts, hop, proxy_swap)
            == excute_swap_call(dex, first, amount_in, offset, hop_accounts, hop, proxy_swap),
{
    match dex {
        Dex::SplTokenSwap => spl_token_swap::lemma_swap_call_local(
            first,
            second,
            amount_in,
            offset,
            hop_accounts,
            hop,
            proxy_swap,
        ),
        Dex::StableSwap => stable_swap::lemma_swap_call_local(
            first,
            second,
            amount_in,
            offset,
            hop_accounts,
            hop,
            proxy_swap,
        ),
        Dex::Whirlpool => whirlpool::lemma_swap_call_local(
            first,
            second,
            amount_in,
            offset,
            hop_accounts,
            hop,
            proxy_swap,
        ),
        Dex::MeteoraDynamicpool => meteora::lemma_swap_call_local(
            first,
            second,
            amount_in,
            offset,
            hop_accounts,
            hop,
            proxy_swap,
        ),
        Dex::RaydiumSwap => raydium::lemma_swap_call_local(
            first,
            second,
            amount_in,
            offset,
            hop_accounts,
            hop,
            proxy_swap,
        ),
        Dex::RaydiumStableSwap => raydium::lemma_swap_stable_call_local(
            first,
            second,
            amount_in,
            offset,
            hop_accounts,
            hop,
            proxy_swap,
        ),
        Dex::RaydiumClmmSwap => raydium::lemma_swap_clmm_call_local(
            first,
            second,
            amount_in,
            offset,
            hop_accounts,
            hop,
            proxy_swap,
        ),
        Dex::RaydiumClmmSwapV2 => raydium::lemma_swap_clmm_v2_call_local(
            first,
            second,
            amount_in,
            offset,
            hop_accounts,
            hop,
            proxy_swap,
        ),
        Dex::AldrinExchangeV1 => aldrin::lemma_swap_v1_call_local(
            first,
            second,
            amount_in,
            offset,
            hop_accounts,
            hop,
            proxy_swap,
        ),
        Dex::AldrinExchangeV2 => aldrin::lemma_swap_v2_call_local(
            first,
            second,
            amount_in,
            offset,
            hop_accounts,
            hop,
            proxy_swap,
        ),
        Dex::LifinityV1 => lifinity::lemma_swap_v1_call_local(
            first,
            second,
            amount_in,
            offset,
            hop_accounts,
            hop,
            proxy_swap,
        ),
        Dex::LifinityV2 => lifinity::lemma_swap_v2_call_local(
            first,
            second,
            amount_in,
            offset,
            hop_accounts,
            hop,
            proxy_swap,
        ),
        Dex::FluxBeam => fluxbeam::lemma_swap_call_local(
            first,
            second,
            amount_in,
            offset,
            hop_accounts,
            hop,
            proxy_swap,
        ),
        Dex::MeteoraDlmm => meteora::lemma_swap_dlmm_call_local(
            first,
            second,
            amount_in,
            offset,
            hop_accounts,
            hop,
            proxy_swap,
        ),
        Dex::RaydiumCpmmSwap => raydium::lemma_swap_cpmm_call_local(
            first,
            second,
            amount_in,
            offset,
            hop_accounts,
            hop,
            proxy_swap,
        ),
        Dex::OpenBookV2 => openbookv2::lemma_place_take_order_call_local(
            first,
            second,
            amount_in,
            offset,
            hop_accounts,
            hop,
            proxy_swap,
        ),
        Dex::WhirlpoolV2 => whirlpool::lemma_swap_v2_call_local(
            first,
            second,
            amount_in,
            offset,
            hop_accounts,
            hop,
            proxy_swap,
        ),
        Dex::Phoenix => phoenix::lemma_swap_call_local(
            first,
            second,
            amount_in,
            offset,
            hop_accounts,
            hop,
            proxy_swap,
        ),
        Dex::ObricV2 => obric_v2::lemma_swap_call_local(
            first,
            second,
            amount_in,
            offset,
            hop_accounts,
            hop,
            proxy_swap,
        ),
        Dex::SanctumAddLiq => sanctum::lemma_add_liquidity_handler_call_local(
            first,
            second,
            amount_in,
            offset,
            hop_accounts,
            hop,
            proxy_swap,
        ),
        Dex::SanctumRemoveLiq => sanctum::lemma_remove_liquidity_handler_call_local(
            first,
            second,
            amount_in,
            offset,
            hop_accounts,
            hop,
            proxy_swap,
        ),
        Dex::SanctumNonWsolSwap => sanctum::lemma_swap_without_wsol_handler_call_local(
            first,
            second,
            amount_in,
            offset,
            hop_accounts,
            hop,
            proxy_swap,
        ),
        Dex::SanctumWsolSwap => sanctum::lemma_swap_with_wsol_handler_call_local(
            first,
            second,
            amount_in,
            offset,
            hop_accounts,
            hop,
            proxy_swap,
        ),
        Dex::PumpfunBuy => pumpfun::lemma_buy_call_local(
            first,
            second,
            amount_in,
            offset,
            hop_accounts,
            hop,
            proxy_swap,
        ),
        Dex::PumpfunSell => pumpfun::lemma_sell_call_local(
            first,
            second,
            amount_in,
            offset,
            hop_accounts,
            hop,
            proxy_swap,
        ),
    }
}

/// Whatever the venue, a call is held to the hop chain before anything else that the chain
/// bears on. A call that a venue would hand out at the start of a chain is handed out
/// unchanged where it continues the chain it is given; where it does not, the venue is
/// not called and the failure is that of the break: `InvalidHopAccounts` where the fork
/// disagrees with the forks before it in its hop, `InvalidHopFromAccount` where it does
/// not draw from the account the hop before paid into.
pub proof fn lemma_excute_swap_call_chained(
    dex: Dex,
    remaining_accounts: Seq<AccountInfo>,
    amount_in: u64,
    offset: usize,
    hop_accounts: HopAccounts,
    hop: usize,
    proxy_swap: bool,
)
    ensures
        excute_swap_call(
            dex,
            remaining_accounts,
            amount_in,
            offset,
            HopAccounts::fresh(address(ZERO_ADDRESS)),
            hop,
            proxy_swap,
        ) matches Ok(invocation) ==> excute_swap_call(
            dex,
            remaining_accounts,
            amount_in,
            offset,
            hop_accounts,
            hop,
            proxy_swap,
        ) == chained(invocation, hop_accounts),
{
    match dex {
        Dex::SplTokenSwap => spl_token_swap::lemma_swap_call_chained(
            remaining_accounts,
            amount_in,
            offset,
            hop_accounts,
            hop,
            proxy_swap,
        ),
        Dex::StableSwap => stable_swap::lemma_swap_call_chained(
            remaining_accounts,
            amount_in,
            offset,
            hop_accounts,
            hop,
            proxy_swap,
        ),
        Dex::Whirlpool => whirlpool::lemma_swap_call_chained(
            remaining_accounts,
            amount_in,
            offset,
            hop_accounts,
            hop,
            proxy_swap,
        ),
        Dex::MeteoraDynamicpool => meteora::lemma_swap_call_chained(
            remaining_accounts,
            amount_in,
            offset,
            hop_accounts,
            hop,
            proxy_swap,
        ),
        Dex::RaydiumSwap => raydium::lemma_swap_call_chained(
            remaining_accounts,
            amount_in,
            offset,
            hop_accounts,
            hop,
            proxy_swap,
        ),
        Dex::RaydiumStableSwap => raydium::lemma_swap_stable_call_chained(
            remaining_accounts,
            amount_in,
            offset,
            hop_accounts,
            hop,
            proxy_swap,
        ),
        Dex::RaydiumClmmSwap => raydium::lemma_swap_clmm_call_chained(
            remaining_accounts,
            amount_in,
            offset,
            hop_accounts,
            hop,
            proxy_swap,
        ),
        Dex::RaydiumClmmSwapV2 => raydium::lemma_swap_clmm_v2_call_chained(
            remaining_accounts,
            amount_in,
            offset,
            hop_accounts,
            hop,
            proxy_swap,
        ),
        Dex::AldrinExchangeV1 => aldrin::lemma_swap_v1_call_chained(
            remaining_accounts,
            amount_in,
            offset,
            hop_accounts,
            hop,
            proxy_swap,
        ),
        Dex::AldrinExchangeV2 => aldrin::lemma_swap_v2_call_chained(
            remaining_accounts,
            amount_in,
            offset,
            hop_accounts,
            hop,
            proxy_swap,
        ),
        Dex::LifinityV1 => lifinity::lemma_swap_v1_call_chained(
            remaining_accounts,
            amount_in,
            offset,
            hop_accounts,
            hop,
            proxy_swap,
        ),
        Dex::LifinityV2 => lifinity::lemma_swap_v2_call_chained(
            remaining_accounts,
            amount_in,
            offset,
            hop_accounts,
            hop,
            proxy_swap,
        ),
        Dex::FluxBeam => fluxbeam::lemma_swap_call_chained(
            remaining_accounts,
            amount_in,
            offset,
            hop_accounts,
            hop,
            proxy_swap,
        ),
        Dex::MeteoraDlmm => meteora::lemma_swap_dlmm_call_chained(
            remaining_accounts,
            amount_in,
            offset,
            hop_accounts,
            hop,
            proxy_swap,
        ),
        Dex::RaydiumCpmmSwap => raydium::lemma_swap_cpmm_call_chained(
            remaining_accounts,
            amount_in,
            offset,
            hop_accounts,
            hop,
            proxy_swap,
        ),
        Dex::OpenBookV2 => openbookv2::lemma_place_take_order_call_chained(
            remaining_accounts,
            amount_in,
            offset,
            hop_accounts,
            hop,
            proxy_swap,
        ),
        Dex::WhirlpoolV2 => whirlpool::lemma_swap_v2_call_chained(
            remaining_accounts,
            amount_in,
            offset,
            hop_accounts,
            hop,
            proxy_swap,
        ),
        Dex::Phoenix => phoenix::lemma_swap_call_chained(
            remaining_accounts,
            amount_in,
            offset,
            hop_accounts,
            hop,
            proxy_swap,
        ),
        Dex::ObricV2 => obric_v2::lemma_swap_call_chained(
            remaining_accounts,
            amount_in,
            offset,
            hop_accounts,
            hop,
            proxy_swap,
        ),
        Dex::SanctumAddLiq => sanctum::lemma_add_liquidity_handler_call_chained(
            remaining_accounts,
            amount_in,
            offset,
            hop_accounts,
            hop,
            proxy_swap,
        ),
        Dex::SanctumRemoveLiq => sanctum::lemma_remove_liquidity_handler_call_chained(
            remaining_accounts,
            amount_in,
            offset,
            hop_accounts,
            hop,
            proxy_swap,
        ),
        Dex::SanctumNonWsolSwap => sanctum::lemma_swap_without_wsol_handler_call_chained(
            remaining_accounts,
            amount_in,
            offset,
            hop_accounts,
            hop,
            proxy_swap,
        ),
        Dex::SanctumWsolSwap => sanctum::lemma_swap_with_wsol_handler_call_chained(
            remaining_accounts,
            amount_in,
            offset,
            hop_accounts,
            hop,
            proxy_swap,
        ),
        Dex::PumpfunBuy => pumpfun::lemma_buy_call_chained(
            remaining_accounts,
            amount_in,
            offset,
            hop_accounts,
            hop,
            proxy_swap,
        ),
        Dex::PumpfunSell => pumpfun::lemma_sell_call_chained(
            remaining_accounts,
            amount_in,
            offset,
            hop_accounts,
            hop,
            proxy_swap,
        ),
    }
}

/// What the first `forks` forks of a hop get together.
pub open spec fn forks_total(amount_in: u64, weights: Seq<u8>, forks: int) -> int
    decreases forks,
{
    if forks <= 0 {
        0
    } else {
        forks_total(amount_in, weights, forks - 1) + fork_amount(amount_in, weights, forks - 1)
    }
}

/// The forks of a hop get exactly the hop's input between them: every fork but the last
/// gets the share its weight stands for, rounded down, and the last gets what is left, so
/// that nothing is lost to rounding and nothing is handed out twice.
pub proof fn lemma_forks_take_all(amount_in: u64, weights: Seq<u8>)
    requires
        weights.len() > 0,
    ensures
        forks_total(amount_in, weights, weights.len() as int) == amount_in,
        forall|fork: int|
            0 <= fork < weights.len() - 1 ==> #[trigger] fork_amount(amount_in, weights, fork)
                == amount_in * weights[fork] / 100,
        fork_amount(amount_in, weights, weights.len() - 1) == amount_in - shares_before(
            amount_in,
            weights,
            weights.len() - 1,
        ),
{
    lemma_forks_total_is_shares(amount_in, weights, weights.len() - 1);
}

proof fn lemma_forks_total_is_shares(amount_in: u64, weights: Seq<u8>, forks: int)
    requires
        0 <= forks < weights.len(),
    ensures
        forks_total(amount_in, weights, forks) == shares_before(amount_in, weights, forks),
    decreases forks,
{
    if forks > 0 {
        lemma_forks_total_is_shares(amount_in, weights, forks - 1);
    }
}

/// Where the weights of a hop add up to `TOTAL_WEIGHT`, the amount that the engine splits
/// off for a fork is the amount the rounding rule gives it, and it lies between zero and
/// the hop's input. The split fails only where the product of the input and a weight does
/// not fit 64 bits.
pub proof fn lemma_fork_share_is_fork_amount(amount_in: u64, weights: Seq<u8>, fork: int)
    requires
        weight_sum(weights) == TOTAL_WEIGHT,
        0 <= fork < weights.len(),
    ensures
        shares_before(amount_in, weights, fork) <= amount_in,
        match fork_share(
            amount_in,
            weights,
            fork,
            shares_before(amount_in, weights, fork) as u64,
        ) {
            Ok(fork_amount_in) => fork_amount_in == fork_amount(amount_in, weights, fork) && 0
                <= fork_amount(amount_in, weights, fork) <= amount_in,
            Err(e) => e == Error::Router(ErrorCode::CalculationError) && fork < weights.len() - 1
                && amount_in * weights[fork] > u64::MAX,
        },
{
    lemma_shares_fit(amount_in, weights, fork);
    if fork < weights.len() - 1 {
        lemma_shares_fit(amount_in, weights, fork + 1);
    }
}

/// A hop draws from the account that the hop before it paid into. When the last fork of a
/// hop paid into an account, a call is handed out for the first fork of the next hop only
/// where it draws from that account; a venue that is set to draw from another is not
/// called.
pub proof fn lemma_hop_continuity(
    process: SwapProcess,
    invocation: InvocationView,
    outcome: Result<(), CallFailure>,
    destination_after: &AccountInfo,
    remaining_accounts: Seq<AccountInfo>,
)
    requires
        process.wf(),
        !process.finished(),
        process.at_last_fork(),
        !process.at_last_hop(),
        process.recorded(invocation, outcome, destination_after) is Ok,
        invocation.swap_destination_token != address(ZERO_ADDRESS),
        remaining_accounts.len() <= usize::MAX,
    ensures
        ({
            let event = process.recorded(invocation, outcome, destination_after)->Ok_0;
            let next = process.advanced(invocation, event.amount_in, event.amount_out);
            &&& next.hop == process.hop + 1
            &&& next.amount_in == process.amount_out + event.amount_out
            &&& next.hop_accounts == HopAccounts::fresh(invocation.swap_destination_token)
            &&& next.next_step(remaining_accounts) matches Ok(Some(following))
                ==> following.swap_source_token == invocation.swap_destination_token
        }),
{
    let event = process.recorded(invocation, outcome, destination_after)->Ok_0;
    let next = process.advanced(invocation, event.amount_in, event.amount_out);
    if next.next_step(remaining_accounts) is Ok && next.fork_input() is Ok {
        lemma_excute_swap_call(
            next.route().dexes@[next.fork as int],
            remaining_accounts,
            next.fork_input()->Ok_0,
            next.offset,
            next.hop_accounts,
            next.hop,
            next.proxy_swap,
        );
    }
}

/// A hop that does not draw from the account the hop before it paid into is refused.
/// When the hop before paid into an account, and the venue of the first fork of the next
/// hop is set to draw from another, the routing call fails with `InvalidHopFromAccount`
/// where the venue would else have been called: no call is handed out for it.
pub proof fn lemma_hop_break(process: SwapProcess, remaining_accounts: Seq<AccountInfo>)
    requires
        process.wf(),
        !process.finished(),
        process.fork_input() is Ok,
        process.hop_accounts == HopAccounts::fresh(process.hop_accounts.last_to_account),
        process.hop_accounts.last_to_account != address(ZERO_ADDRESS),
        excute_swap_call(
            process.route().dexes@[process.fork as int],
            remaining_accounts,
            process.fork_input()->Ok_0,
            process.offset,
            HopAccounts::fresh(address(ZERO_ADDRESS)),
            process.hop,
            process.proxy_swap,
        ) matches Ok(invocation) && invocation.swap_source_token
            != process.hop_accounts.last_to_account,
    ensures
        process.next_step(remaining_accounts) == Err::<Option<InvocationView>, Error>(
            Error::Router(ErrorCode::InvalidHopFromAccount),
        ),
{
    lemma_excute_swap_call_chained(
        process.route().dexes@[process.fork as int],
        remaining_accounts,
        process.fork_input()->Ok_0,
        process.offset,
        process.hop_accounts,
        process.hop,
        process.proxy_swap,
    );
}

/// The forks of a hop trade between the same two accounts: a call is handed out for a
/// later fork of a hop only where it draws from and pays into the accounts of the forks
/// before it.
pub proof fn lemma_forks_agree(process: SwapProcess, remaining_accounts: Seq<AccountInfo>)
    requires
        process.wf(),
        remaining_accounts.len() <= usize::MAX,
    ensures
        process.next_step(remaining_accounts) matches Ok(Some(invocation)) ==> {
            &&& process.hop_accounts.from_account != address(ZERO_ADDRESS)
                ==> invocation.swap_source_token == process.hop_accounts.from_account
            &&& process.hop_accounts.to_account != address(ZERO_ADDRESS)
                ==> invocation.swap_destination_token == process.hop_accounts.to_account
            &&& process.hop_accounts.last_to_account != address(ZERO_ADDRESS)
                ==> invocation.swap_source_token == process.hop_accounts.last_to_account
        },
{
    if !process.finished() && process.fork_input() is Ok {
        lemma_excute_swap_call(
            process.route().dexes@[process.fork as int],
            remaining_accounts,
            process.fork_input()->Ok_0,
            process.offset,
            process.hop_accounts,
            process.hop,
            process.proxy_swap,
        );
    }
}

/// A route ends in the caller's destination account. Where the last fork of the last hop
/// of a bucket paid into another account, the routing call fails, though every venue call
/// went through; and where nothing else is wrong, it fails with
/// `InvalidDestinationTokenAccount`.
pub proof fn lemma_destination_boundary(
    process: SwapProcess,
    invocation: InvocationView,
    outcome: Result<(), CallFailure>,
    destination_after: &AccountInfo,
)
    requires
        process.wf(),
        !process.finished(),
        process.at_last_fork(),
        process.at_last_hop(),
        invocation.swap_destination_token != process.destination_token_account,
    ensures
        process.recorded(invocation, outcome, destination_after) is Err,
        ({
            let fork_amount_out = invocation.realized(outcome, destination_after);
            process.fork_input() is Ok && fork_amount_out is Ok && process.amount_out
                + fork_amount_out->Ok_0 <= u64::MAX && (process.hop == 0
                ==> invocation.swap_source_token == process.source_token_account)
                ==> process.recorded(invocation, outcome, destination_after) == Err::<
                SwapEvent,
                Error,
            >(Error::Router(ErrorCode::InvalidDestinationTokenAccount))
        }),
{
}

/// A routing call gives back no less than the caller's minimum. Where the caller's two
/// token accounts can be read, the source has not grown and the destination has not
/// shrunk, the call succeeds exactly where the destination's balance grew by the minimum
/// or more; it then gives back that growth, and else fails with `MinReturnNotReached`.
pub proof fn lemma_minimum_return(
    process: SwapProcess,
    source_after: &AccountInfo,
    destination_after: &AccountInfo,
)
    ensures
        ({
            let destination = TokenAccount::reloaded(destination_after);
            process.settled(source_after, destination_after) matches Ok(amount_out) ==> {
                &&& amount_out >= process.args.min_return
                &&& destination is Ok
                &&& amount_out == destination->Ok_0.amount - process.before_destination_balance
            }
        }),
        ({
            let source = TokenAccount::reloaded(source_after);
            let destination = TokenAccount::reloaded(destination_after);
            let growth = destination->Ok_0.amount - process.before_destination_balance;
            (source_after.lamports == 0 || (source is Ok && source->Ok_0.amount
                <= process.before_source_balance)) && destination is Ok && growth >= 0
                ==> process.settled(source_after, destination_after) == (if growth
                >= process.args.min_return {
                Ok::<u64, Error>(growth as u64)
            } else {
                Err::<u64, Error>(Error::Router(ErrorCode::MinReturnNotReached))
            })
        }),
{
}

/// Whatever the venue, what its adapter makes of the accounts depends on what they hold
/// and on nothing else: two lists of accounts that hold the same give the same call, or the
/// same failure.
pub proof fn lemma_excute_swap_call_same(
    dex: Dex,
    first: Seq<AccountInfo>,
    second: Seq<AccountInfo>,
    amount_in: u64,
    offset: usize,
    hop_accounts: HopAccounts,
    hop: usize,
    proxy_swap: bool,
)
    requires
        same_accounts(first, second),
    ensures
        excute_swap_call(dex, second, amount_in, offset, hop_accounts, hop, proxy_swap)
            == excute_swap_call(dex, first, amount_in, offset, hop_accounts, hop, proxy_swap),
{
    match dex {
        Dex::SplTokenSwap => spl_token_swap::lemma_swap_call_same(
            first,
            second,
            amount_in,
            offset,
            hop_accounts,
            hop,
            proxy_swap,
        ),
        Dex::StableSwap => stable_swap::lemma_swap_call_same(
            first,
            second,
            amount_in,
            offset,
            hop_accounts,
            hop,
            proxy_swap,
        ),
        Dex::Whirlpool => whirlpool::lemma_swap_call_same(
            first,
            second,
            amount_in,
            offset,
            hop_accounts,
            hop,
            proxy_swap,
        ),
        Dex::MeteoraDynamicpool => meteora::lemma_swap_call_same(
            first,
            second,
            amount_in,
            offset,
            hop_accounts,
            hop,
            proxy_swap,
        ),
        Dex::RaydiumSwap => raydium::lemma_swap_call_same(
            first,
            second,
            amount_in,
            offset,
            hop_accounts,
            hop,
            proxy_swap,
        ),
        Dex::RaydiumStableSwap => raydium::lemma_swap_stable_call_same(
            first,
            second,
            amount_in,
            offset,
            hop_accounts,
            hop,
            proxy_swap,
        ),
        Dex::RaydiumClmmSwap => raydium::lemma_swap_clmm_call_same(
            first,
            second,
            amount_in,
            offset,
            hop_accounts,
            hop,
            proxy_swap,
        ),
        Dex::RaydiumClmmSwapV2 => raydium::lemma_swap_clmm_v2_call_same(
            first,
            second,
            amount_in,
            offset,
            hop_accounts,
            hop,
            proxy_swap,
        ),
        Dex::AldrinExchangeV1 => aldrin::lemma_swap_v1_call_same(
            first,
            second,
            amount_in,
            offset,
            hop_accounts,
            hop,
            proxy_swap,
        ),
        Dex::AldrinExchangeV2 => aldrin::lemma_swap_v2_call_same(
            first,
            second,
            amount_in,
            offset,
            hop_accounts,
            hop,
            proxy_swap,
        ),
        Dex::LifinityV1 => lifinity::lemma_swap_v1_call_same(
            first,
            second,
            amount_in,
            offset,
            hop_accounts,
            hop,
            proxy_swap,
        ),
        Dex::LifinityV2 => lifinity::lemma_swap_v2_call_same(
            first,
            second,
            amount_in,
            offset,
            hop_accounts,
            hop,
            proxy_swap,
        ),
        Dex::FluxBeam => fluxbeam::lemma_swap_call_same(
            first,
            second,
            amount_in,
            offset,
            hop_accounts,
            hop,
            proxy_swap,
        ),
        Dex::MeteoraDlmm => meteora::lemma_swap_dlmm_call_same(
            first,
            second,
            amount_in,
            offset,
            hop_accounts,
            hop,
            proxy_swap,
        ),
        Dex::RaydiumCpmmSwap => raydium::lemma_swap_cpmm_call_same(
            first,
            second,
            amount_in,
            offset,
            hop_accounts,
            hop,
            proxy_swap,
        ),
        Dex::OpenBookV2 => openbookv2::lemma_place_take_order_call_same(
            first,
            second,
            amount_in,
            offset,
            hop_accounts,
            hop,
            proxy_swap,
        ),
        Dex::WhirlpoolV2 => whirlpool::lemma_swap_v2_call_same(
            first,
            second,
            amount_in,
            offset,
            hop_accounts,
            hop,
            proxy_swap,
        ),
        Dex::Phoenix => phoenix::lemma_swap_call_same(
            first,
            second,
            amount_in,
            offset,
            hop_accounts,
            hop,
            proxy_swap,
        ),
        Dex::ObricV2 => obric_v2::lemma_swap_call_same(
            first,
            second,
            amount_in,
            offset,
            hop_accounts,
            hop,
            proxy_swap,
        ),
        Dex::SanctumAddLiq => sanctum::lemma_add_liquidity_handler_call_same(
            first,
            second,
            amount_in,
            offset,
            hop_accounts,
            hop,
            proxy_swap,
        ),
        Dex::SanctumRemoveLiq => sanctum::lemma_remove_liquidity_handler_call_same(
            first,
            second,
            amount_in,
            offset,
            hop_accounts,
            hop,
            proxy_swap,
        ),
        Dex::SanctumNonWsolSwap => sanctum::lemma_swap_without_wsol_handler_call_same(
            first,
            second,
            amount_in,
            offset,
            hop_accounts,
            hop,
            proxy_swap,
        ),
        Dex::SanctumWsolSwap => sanctum::lemma_swap_with_wsol_handler_call_same(
            first,
            second,
            amount_in,
            offset,
            hop_accounts,
            hop,
            proxy_swap,
        ),
        Dex::PumpfunBuy => pumpfun::lemma_buy_call_same(
            first,
            second,
            amount_in,
            offset,
            hop_accounts,
            hop,
            proxy_swap,
        ),
        Dex::PumpfunSell => pumpfun::lemma_sell_call_same(
            first,
            second,
            amount_in,
            offset,
            hop_accounts,
            hop,
            proxy_swap,
        ),
    }
}

/// A routing call that is run again on accounts that hold the same goes the same way: the
/// engine asks for the same call, or fails alike, and takes the same outcome in alike.
pub proof fn lemma_same_accounts_same_step(
    process: SwapProcess,
    first: Seq<AccountInfo>,
    second: Seq<AccountInfo>,
    invocation: InvocationView,
    outcome: Result<(), CallFailure>,
    first_destination: &AccountInfo,
    second_destination: &AccountInfo,
)
    requires
        same_accounts(first, second),
        same_account(first_destination, second_destination),
    ensures
        process.next_step(second) == process.next_step(first),
        process.recorded(invocation, outcome, second_destination) == process.recorded(
            invocation,
            outcome,
            first_destination,
        ),
{
    if !process.finished() && process.fork_input() is Ok {
        lemma_excute_swap_call_same(
            process.route().dexes@[process.fork as int],
            first,
            second,
            process.fork_input()->Ok_0,
            process.offset,
            process.hop_accounts,
            process.hop,
            process.proxy_swap,
        );
    }
}

/// Whether two hops say the same.
pub open spec fn same_route(first: Route, second: Route) -> bool {
    first.dexes@ == second.dexes@ && first.weights@ == second.weights@
}

/// Whether two requests say the same, as far as the rules on requests go.
pub open spec fn same_request(first: SwapArgs, second: SwapArgs) -> bool {
    &&& first.amount_in == second.amount_in
    &&& first.expect_amount_out == second.expect_amount_out
    &&& first.min_return == second.min_return
    &&& first.amounts@ == second.amounts@
    &&& first.routes@.len() == second.routes@.len()
}

/// The engine decides by what it is handed and by nothing else. Two requests that say the
/// same are accepted or refused alike, and for the same reason; two hops that say the same
/// likewise; a fork gets the same amount whenever it is split off the same input by the
/// same weights; and two routing calls that began with the same balances and the same
/// minimum are settled alike by accounts that hold the same.
pub proof fn lemma_same_request_same_decision(
    first: SwapArgs,
    second: SwapArgs,
    first_route: Route,
    second_route: Route,
    first_process: SwapProcess,
    second_process: SwapProcess,
    first_source: &AccountInfo,
    second_source: &AccountInfo,
    first_destination: &AccountInfo,
    second_destination: &AccountInfo,
)
    requires
        same_request(first, second),
        same_route(first_route, second_route),
        first_process.before_source_balance == second_process.before_source_balance,
        first_process.before_destination_balance == second_process.before_destination_balance,
        first_process.args.min_return == second_process.args.min_return,
        same_account(first_source, second_source),
        same_account(first_destination, second_destination),
    ensures
        args_error(first) == args_error(second),
        route_error(first_route) == route_error(second_route),
        forall|amount_in: u64, fork: int, acc_fork_in: u64|
            #[trigger] fork_share(amount_in, first_route.weights@, fork, acc_fork_in)
                == fork_share(amount_in, second_route.weights@, fork, acc_fork_in),
        first_process.settled(first_source, first_destination) == second_process.settled(
            second_source,
            second_destination,
        ),
{
}

/// The account cursor moves by exactly the accounts a venue takes. A call that is handed
/// out for a fork is made of the accounts between the cursor and the place where the
/// cursor stands once the call is recorded, and that place lies within the list; accounts
/// outside that part have no say in it.
pub proof fn lemma_cursor_exact(
    process: SwapProcess,
    first: Seq<AccountInfo>,
    second: Seq<AccountInfo>,
    outcome: Result<(), CallFailure>,
    destination_after: &AccountInfo,
)
    requires
        process.wf(),
        first.len() <= usize::MAX,
        process.next_step(first) matches Ok(Some(invocation)) && second.len()
            >= invocation.next_offset && first.subrange(
            process.offset as int,
            invocation.next_offset as int,
        ) == second.subrange(process.offset as int, invocation.next_offset as int),
    ensures
        process.next_step(second) == process.next_step(first),
        process.next_step(first) matches Ok(Some(invocation)) && process.offset
            < invocation.next_offset <= first.len() && (process.recorded(
            invocation,
            outcome,
            destination_after,
        ) matches Ok(event) ==> process.advanced(
            invocation,
            event.amount_in,
            event.amount_out,
        ).offset == invocation.next_offset),
{
    let fork_amount_in = process.fork_input()->Ok_0;
    let dex = process.route().dexes@[process.fork as int];
    lemma_excute_swap_call(
        dex,
        first,
        fork_amount_in,
        process.offset,
        process.hop_accounts,
        process.hop,
        process.proxy_swap,
    );
    lemma_excute_swap_call_local(
        dex,
        first,
        second,
        fork_amount_in,
        process.offset,
        process.hop_accounts,
        process.hop,
        process.proxy_swap,
    );
}

/// A proxied swap, begun. The caller's assets go through token accounts of the
/// program-derived authority: the input is deposited into the authority's source account,
/// the route runs between the authority's accounts, and the output is swept back to the
/// caller. Where the authority has no account on a side, the caller's own is used.
#[derive(Debug)]
pub struct ProxySwapProcess {
    pub args: SwapArgs,
    /// The caller's balances before anything happened.
    pub before_source_balance: u64,
    pub before_destination_balance: u64,
    /// The deposit of the input into the authority's source account, if it has one.
    pub deposit: Option<Transfer>,
    /// Whether the route runs under the program-derived authority from its first hop on.
    pub proxy_swap: bool,
    /// Whether the output is to be swept from the authority's destination account.
    pub sweeps: bool,
    /// The token account the route draws from.
    pub source_account: Pubkey,
    /// The token account the route pays into.
    pub destination_account: Pubkey,
}

/// The two token accounts a proxied route runs between, the one it draws from first: on
/// each side the authority's account where it has one, and the caller's own otherwise.
pub open spec fn route_between(
    source_token_account: Pubkey,
    destination_token_account: Pubkey,
    source_token_sa: Option<Pubkey>,
    destination_token_sa: Option<Pubkey>,
) -> (Pubkey, Pubkey) {
    (
        match source_token_sa {
            Some(account) => account,
            None => source_token_account,
        },
        match destination_token_sa {
            Some(account) => account,
            None => destination_token_account,
        },
    )
}

/// Says between which two token accounts a proxied route runs.
pub fn route_accounts(
    source_token_account: Pubkey,
    destination_token_account: Pubkey,
    source_token_sa: Option<Pubkey>,
    destination_token_sa: Option<Pubkey>,
) -> (r: (Pubkey, Pubkey))
    ensures
        r == route_between(
            source_token_account,
            destination_token_account,
            source_token_sa,
            destination_token_sa,
        ),
{
    let source_account = match source_token_sa {
        Some(account) => account,
        None => source_token_account,
    };
    let destination_account = match destination_token_sa {
        Some(account) => account,
        None => destination_token_account,
    };
    (source_account, destination_account)
}

/// Begins a proxied swap. The caller's balances are noted, the deposit of the whole input
/// into the authority's source account is asked for, where the authority has one, and the
/// two accounts the route runs between are fixed.
/// The request is held to its rules only when the routing call begins, after the deposit.
pub fn proxy_swap_process(
    payer: Pubkey,
    source_token_account: &TokenAccount,
    destination_token_account: &TokenAccount,
    source_token_sa: Option<Pubkey>,
    destination_token_sa: Option<Pubkey>,
    source_mint: Pubkey,
    source_mint_decimals: u8,
    source_token_program: Pubkey,
    args: SwapArgs,
    order_id: u64,
) -> (r: Result<ProxySwapProcess, Error>)
    ensures
        match r {
            Ok(process) => {
                &&& process.args == args
                &&& process.before_source_balance == source_token_account.amount
                &&& process.before_destination_balance == destination_token_account.amount
                &&& process.proxy_swap == source_token_sa is Some
                &&& process.sweeps == destination_token_sa is Some
                &&& (process.source_account, process.destination_account) == route_between(
                    source_token_account.info.key,
                    destination_token_account.info.key,
                    source_token_sa,
                    destination_token_sa,
                )
                &&& asks(
                    Ok(process.deposit),
                    if source_token_sa is Some {
                        token_transfer(
                            payer,
                            source_token_account.info.key,
                            source_token_sa->Some_0,
                            source_mint,
                            source_token_program,
                            args.amount_in,
                            source_mint_decimals,
                            false,
                        )
                    } else {
                        Ok(None)
                    },
                )
            },
            Err(e) => source_token_sa is Some && token_transfer(
                payer,
                source_token_account.info.key,
                source_token_sa->Some_0,
                source_mint,
                source_token_program,
                args.amount_in,
                source_mint_decimals,
                false,
            ) == Err::<Option<TransferView>, Error>(e),
        },
{
    // the input goes into the account of the authority
    let deposit = match source_token_sa {
        Some(source_token_sa) => transfer_token_from_user(
            payer,
            source_token_account.key(),
            source_token_sa,
            source_mint,
            source_token_program,
            args.amount_in,
            source_mint_decimals,
        )?,
        None => None,
    };
    let between = route_accounts(
        source_token_account.key(),
        destination_token_account.key(),
        source_token_sa,
        destination_token_sa,
    );
    Ok(
        ProxySwapProcess {
            args,
            before_source_balance: source_token_account.amount,
            before_destination_balance: destination_token_account.amount,
            deposit,
            proxy_swap: source_token_sa.is_some(),
            sweeps: destination_token_sa.is_some(),
            source_account: between.0,
            destination_account: between.1,
        },
    )
}

impl ProxySwapProcess {
    /// What a proxied swap comes to, given the caller's two token accounts as they stand
    /// after the sweep: the output of the routing call, where the caller's destination
    /// grew by the caller's minimum or more. The source must not have grown, nor the
    /// destination shrunk.
    pub open spec fn settled(
        &self,
        source_after: &AccountInfo,
        destination_after: &AccountInfo,
        amount_out: u64,
    ) -> Result<u64, Error> {
        let source = TokenAccount::reloaded(source_after);
        let destination = TokenAccount::reloaded(destination_after);
        if source is Err {
            Err(source->Err_0)
        } else if destination is Err {
            Err(destination->Err_0)
        } else if self.before_source_balance < source->Ok_0.amount {
            Err(Error::Router(ErrorCode::CalculationError))
        } else if destination->Ok_0.amount < self.before_destination_balance {
            Err(Error::Router(ErrorCode::CalculationError))
        } else if destination->Ok_0.amount - self.before_destination_balance
            < self.args.min_return {
            Err(Error::Router(ErrorCode::MinReturnNotReached))
        } else {
            Ok(amount_out)
        }
    }

    /// Asks for the output of the routing call to go from the authority's destination
    /// account to the caller's, under the signature of the authority. Nothing is asked for
    /// where the route paid into the caller's account at once.
    pub fn sweep(
        &self,
        sa_authority: Pubkey,
        destination_token_sa: Pubkey,
        destination_token_account: Pubkey,
        destination_mint: Pubkey,
        destination_mint_decimals: u8,
        destination_token_program: Pubkey,
        amount_out: u64,
    ) -> (r: Result<Option<Transfer>, Error>)
        ensures
            asks(
                r,
                if self.sweeps {
                    token_transfer(
                        sa_authority,
                        destination_token_sa,
                        destination_token_account,
                        destination_mint,
                        destination_token_program,
                        amount_out,
                        destination_mint_decimals,
                        true,
                    )
                } else {
                    Ok(None)
                },
            ),
    {
        // the output goes back to the caller
        if !self.sweeps {
            return Ok(None);
        }
        transfer_token_from_sa_pda(
            sa_authority,
            destination_token_sa,
            destination_token_account,
            destination_mint,
            destination_token_program,
            amount_out,
            destination_mint_decimals,
        )
    }

    /// Settles a proxied swap: reads the caller's two token accounts as they stand now and
    /// holds the growth of the destination's balance against the caller's minimum.
    pub fn settle(
        &self,
        source_after: &AccountInfo,
        destination_after: &AccountInfo,
        amount_out: u64,
    ) -> (r: Result<u64, Error>)
        ensures
            r == self.settled(source_after, destination_after, amount_out),
    {
        let after_source_balance: u64 = TokenAccount::reload(source_after)?.amount;
        let after_destination_balance: u64 = TokenAccount::reload(destination_after)?.amount;
        if self.before_source_balance < after_source_balance {
            return Err(Error::Router(ErrorCode::CalculationError));
        }
        if after_destination_balance < self.before_destination_balance {
            return Err(Error::Router(ErrorCode::CalculationError));
        }
        let destination_token_change: u64 = after_destination_balance
            - self.before_destination_balance;
        // the growth must reach the minimum
        if destination_token_change < self.args.min_return {
            return Err(Error::Router(ErrorCode::MinReturnNotReached));
        }
        Ok(amount_out)
    }
}

} // verus!
