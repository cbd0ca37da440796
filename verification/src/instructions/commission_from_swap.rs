//! Swaps with a commission on the input whose output is reported to the bridge program.

use crate::account::{address, AccountInfo, Mint, Program, Pubkey, TokenAccount};
use crate::constants::{TOKEN_2022_PROGRAM, WSOL_PROGRAM};
use crate::error::Error;
use crate::instructions::commission_swap::{
    check_commission, commission_before, Commission, CommissionSwap,
};
use crate::instructions::common::{args_error, swap_process, SwapArgs};
use crate::instructions::from_swap::BridgeToArgs;
use vstd::prelude::*;

verus! {

/// The accounts of a reported swap with a commission in the native asset.
#[derive(Clone, Copy, Debug)]
pub struct CommissionSOLFromSwapAccounts<'info> {
    pub payer: &'info AccountInfo,
    pub source_token_account: TokenAccount<'info>,
    pub destination_token_account: TokenAccount<'info>,
    pub source_mint: Mint<'info>,
    pub destination_mint: Mint<'info>,
    pub bridge_program: &'info AccountInfo,
    pub associated_token_program: Program<'info>,
    pub token_program: Program<'info>,
    pub token_2022_program: Program<'info>,
    pub system_program: Program<'info>,
    pub commission_account: &'info AccountInfo,
}

/// The accounts of a reported swap with a commission in the traded token.
#[derive(Clone, Copy, Debug)]
pub struct CommissionSPLFromSwapAccounts<'info> {
    pub payer: &'info AccountInfo,
    pub source_token_account: TokenAccount<'info>,
    pub destination_token_account: TokenAccount<'info>,
    pub source_mint: Mint<'info>,
    pub destination_mint: Mint<'info>,
    pub bridge_program: &'info AccountInfo,
    pub associated_token_program: Program<'info>,
    pub token_program: Program<'info>,
    pub token_2022_program: Program<'info>,
    pub system_program: Program<'info>,
    pub commission_token_account: TokenAccount<'info>,
}

/// What one of the two handlers of this module hands out: the commission, which is charged
/// on the input, is held to its rules first, the request second.
pub open spec fn begun(
    r: Result<CommissionSwap, Error>,
    args: SwapArgs,
    commission_rate: u16,
    source_token_account: TokenAccount,
    destination_token_account: TokenAccount,
    source_fits: bool,
) -> bool {
    let commission = commission_before(args.amount_in, commission_rate, true, source_fits, true);
    match r {
        Ok(swap) => {
            &&& commission == Ok::<u64, Error>(swap.commission.commission_amount)
            &&& swap.commission.commission_rate == commission_rate
            &&& swap.commission.commission_direction
            &&& args_error(args) is None
            &&& swap.process.wf()
            &&& swap.process.args == args
            &&& !swap.process.proxy_swap
            &&& swap.process.source_token_account == source_token_account.info.key
            &&& swap.process.destination_token_account == destination_token_account.info.key
            &&& swap.process.before_source_balance == source_token_account.amount
            &&& swap.process.before_destination_balance == destination_token_account.amount
            &&& swap.process.offset == 0
        },
        Err(e) => match commission {
            Err(c) => e == c,
            Ok(_) => args_error(args) matches Some(code) && e == Error::Router(code),
        },
    }
}

fn begin(
    args: SwapArgs,
    commission_rate: u16,
    source_token_account: &TokenAccount,
    destination_token_account: &TokenAccount,
    source_fits: bool,
) -> (r: Result<CommissionSwap, Error>)
    ensures
        begun(
            r,
            args,
            commission_rate,
            *source_token_account,
            *destination_token_account,
            source_fits,
        ),
{
    let commission_amount: u64 = check_commission(
        args.amount_in,
        commission_rate,
        true,
        source_fits,
        true,
    )?;
    let commission = Commission { commission_rate, commission_direction: true, commission_amount };
    let process = swap_process(source_token_account, destination_token_account, args, false)?;
    Ok(CommissionSwap { process, commission })
}

/// Begins a reported swap with a commission in the native asset on the input, which must
/// be the wrapped native asset. Once the swap is settled, the commission is collected and
/// the report prepared. The identifier of the order, which the report carries, is for the
/// record only.
pub fn commission_sol_from_swap_handler(
    accounts: &CommissionSOLFromSwapAccounts,
    args: SwapArgs,
    commission_rate: u16,
    bridge_to_args: &BridgeToArgs,
) -> (r: Result<CommissionSwap, Error>)
    ensures
        begun(
            r,
            args,
            commission_rate,
            accounts.source_token_account,
            accounts.destination_token_account,
            accounts.source_mint.info.key == address(WSOL_PROGRAM),
        ),
{
    let source_fits: bool = accounts.source_mint.key().is(WSOL_PROGRAM);
    begin(
        args,
        commission_rate,
        &accounts.source_token_account,
        &accounts.destination_token_account,
        source_fits,
    )
}

/// Begins a reported swap with a commission in the traded token on the input: the
/// commission's token account must be of the source's mint. Once the swap is settled, the
/// commission is collected through `commission_token_program` and the report prepared.
pub fn commission_spl_from_swap_handler(
    accounts: &CommissionSPLFromSwapAccounts,
    args: SwapArgs,
    commission_rate: u16,
    bridge_to_args: &BridgeToArgs,
) -> (r: Result<CommissionSwap, Error>)
    ensures
        begun(
            r,
            args,
            commission_rate,
            accounts.source_token_account,
            accounts.destination_token_account,
            accounts.commission_token_account.mint == accounts.source_mint.info.key,
        ),
{
    let source_fits: bool = accounts.commission_token_account.mint == accounts.source_mint.key();
    begin(
        args,
        commission_rate,
        &accounts.source_token_account,
        &accounts.destination_token_account,
        source_fits,
    )
}

/// The token program through which a commission in the source's token is collected: the
/// one with extensions where it owns the source's mint, and the first one otherwise.
pub fn commission_token_program(accounts: &CommissionSPLFromSwapAccounts) -> (r: Pubkey)
    ensures
        r == if accounts.source_mint.info.owner == address(TOKEN_2022_PROGRAM) {
            accounts.token_2022_program.info.key
        } else {
            accounts.token_program.info.key
        },
{
    if accounts.source_mint.info.owner.is(TOKEN_2022_PROGRAM) {
        accounts.token_2022_program.key()
    } else {
        accounts.token_program.key()
    }
}

} // verus!
