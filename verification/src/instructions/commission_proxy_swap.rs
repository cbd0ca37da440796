//! Proxied swaps with a commission, paid in the native asset or in the traded token.

use crate::account::{address, AccountInfo, Interface, Mint, Program, TokenAccount};
use crate::constants::WSOL_PROGRAM;
use crate::error::Error;
use crate::instructions::commission_swap::{check_commission, commission_before, Commission};
use crate::instructions::common::{proxy_swap_process, ProxySwapProcess, SwapArgs};
use crate::utils::token::{asks, token_transfer, TransferView};
use vstd::prelude::*;

verus! {

/// The accounts of a proxied swap with a commission in the native asset.
#[derive(Clone, Copy, Debug)]
pub struct CommissionSOLProxySwapAccounts<'info> {
    pub payer: &'info AccountInfo,
    pub source_token_account: TokenAccount<'info>,
    pub destination_token_account: TokenAccount<'info>,
    pub source_mint: Mint<'info>,
    pub destination_mint: Mint<'info>,
    pub commission_account: &'info AccountInfo,
    pub sa_authority: &'info AccountInfo,
    pub source_token_sa: Option<TokenAccount<'info>>,
    pub destination_token_sa: Option<TokenAccount<'info>>,
    pub source_token_program: Interface<'info>,
    pub destination_token_program: Interface<'info>,
    pub associated_token_program: Program<'info>,
    pub system_program: Program<'info>,
}

/// The accounts of a proxied swap with a commission in the traded token.
#[derive(Clone, Copy, Debug)]
pub struct CommissionSPLProxySwapAccounts<'info> {
    pub payer: &'info AccountInfo,
    pub source_token_account: TokenAccount<'info>,
    pub destination_token_account: TokenAccount<'info>,
    pub source_mint: Mint<'info>,
    pub destination_mint: Mint<'info>,
    pub commission_token_account: TokenAccount<'info>,
    pub sa_authority: &'info AccountInfo,
    pub source_token_sa: Option<TokenAccount<'info>>,
    pub destination_token_sa: Option<TokenAccount<'info>>,
    pub source_token_program: Interface<'info>,
    pub destination_token_program: Interface<'info>,
    pub associated_token_program: Program<'info>,
    pub system_program: Program<'info>,
}

/// A proxied swap with a commission, begun: the proxied swap and the commission.
#[derive(Debug)]
pub struct CommissionProxySwap {
    pub process: ProxySwapProcess,
    pub commission: Commission,
}

/// The deposit that a proxied swap begins with: the whole input goes from the caller's
/// source account to the authority's, where the authority has one.
pub open spec fn deposit(
    payer: &AccountInfo,
    source_token_account: TokenAccount,
    source_token_sa: Option<TokenAccount>,
    source_mint: Mint,
    source_token_program: Interface,
    amount_in: u64,
) -> Result<Option<TransferView>, Error> {
    match source_token_sa {
        Some(source_token_sa) => token_transfer(
            payer.key,
            source_token_account.info.key,
            source_token_sa.info.key,
            source_mint.info.key,
            source_token_program.info.key,
            amount_in,
            source_mint.decimals,
            false,
        ),
        None => Ok(None),
    }
}

/// What one of the two handlers of this module hands out: the commission is held to its
/// rules first; the deposit is asked for second.
pub open spec fn begun(
    r: Result<CommissionProxySwap, Error>,
    args: SwapArgs,
    commission_rate: u16,
    commission_direction: bool,
    source_fits: bool,
    destination_fits: bool,
    source_token_account: TokenAccount,
    destination_token_account: TokenAccount,
    source_token_sa: Option<TokenAccount>,
    destination_token_sa: Option<TokenAccount>,
    deposit: Result<Option<TransferView>, Error>,
) -> bool {
    let commission = commission_before(
        args.amount_in,
        commission_rate,
        commission_direction,
        source_fits,
        destination_fits,
    );
    match r {
        Ok(swap) => {
            &&& commission == Ok::<u64, Error>(swap.commission.commission_amount)
            &&& swap.commission.commission_rate == commission_rate
            &&& swap.commission.commission_direction == commission_direction
            &&& swap.process.args == args
            &&& swap.process.before_source_balance == source_token_account.amount
            &&& swap.process.before_destination_balance == destination_token_account.amount
            &&& swap.process.proxy_swap == source_token_sa is Some
            &&& swap.process.sweeps == destination_token_sa is Some
            &&& swap.process.source_account == match source_token_sa {
                Some(account) => account.info.key,
                None => source_token_account.info.key,
            }
            &&& swap.process.destination_account == match destination_token_sa {
                Some(account) => account.info.key,
                None => destination_token_account.info.key,
            }
            &&& asks(Ok(swap.process.deposit), deposit)
        },
        Err(e) => match commission {
            Err(c) => e == c,
            Ok(_) => deposit == Err::<Option<TransferView>, Error>(e),
        },
    }
}

fn begin(
    payer: &AccountInfo,
    source_token_account: &TokenAccount,
    destination_token_account: &TokenAccount,
    source_mint: &Mint,
    source_token_sa: Option<TokenAccount>,
    destination_token_sa: Option<TokenAccount>,
    source_token_program: &Interface,
    args: SwapArgs,
    commission_rate: u16,
    commission_direction: bool,
    source_fits: bool,
    destination_fits: bool,
    order_id: u64,
) -> (r: Result<CommissionProxySwap, Error>)
    ensures
        begun(
            r,
            args,
            commission_rate,
            commission_direction,
            source_fits,
            destination_fits,
            *source_token_account,
            *destination_token_account,
            source_token_sa,
            destination_token_sa,
            deposit(
                payer,
                *source_token_account,
                source_token_sa,
                *source_mint,
                *source_token_program,
                args.amount_in,
            ),
        ),
{
    let commission_amount: u64 = check_commission(
        args.amount_in,
        commission_rate,
        commission_direction,
        source_fits,
        destination_fits,
    )?;
    let commission = Commission { commission_rate, commission_direction, commission_amount };
    let process = proxy_swap_process(
        payer.key,
        source_token_account,
        destination_token_account,
        match source_token_sa {
            Some(account) => Some(account.key()),
            None => None,
        },
        match destination_token_sa {
            Some(account) => Some(account.key()),
            None => None,
        },
        source_mint.key(),
        source_mint.decimals,
        source_token_program.key(),
        args,
        order_id,
    )?;
    Ok(CommissionProxySwap { process, commission })
}

/// Begins a proxied swap with a commission in the native asset. The asset on the side the
/// commission is charged on must be the wrapped native asset.
pub fn commission_sol_proxy_swap_handler(
    accounts: &CommissionSOLProxySwapAccounts,
    args: SwapArgs,
    commission_rate: u16,
    commission_direction: bool,
    order_id: u64,
) -> (r: Result<CommissionProxySwap, Error>)
    ensures
        begun(
            r,
            args,
            commission_rate,
            commission_direction,
            accounts.source_mint.info.key == address(WSOL_PROGRAM),
            accounts.destination_mint.info.key == address(WSOL_PROGRAM),
            accounts.source_token_account,
            accounts.destination_token_account,
            accounts.source_token_sa,
            accounts.destination_token_sa,
            deposit(
                accounts.payer,
                accounts.source_token_account,
                accounts.source_token_sa,
                accounts.source_mint,
                accounts.source_token_program,
                args.amount_in,
            ),
        ),
{
    let source_fits: bool = accounts.source_mint.key().is(WSOL_PROGRAM);
    let destination_fits: bool = accounts.destination_mint.key().is(WSOL_PROGRAM);
    begin(
        accounts.payer,
        &accounts.source_token_account,
        &accounts.destination_token_account,
        &accounts.source_mint,
        accounts.source_token_sa,
        accounts.destination_token_sa,
        &accounts.source_token_program,
        args,
        commission_rate,
        commission_direction,
        source_fits,
        destination_fits,
        order_id,
    )
}

/// Begins a proxied swap with a commission in the traded token. The commission's token
/// account must be of the asset on the side the commission is charged on.
pub fn commission_spl_proxy_swap_handler(
    accounts: &CommissionSPLProxySwapAccounts,
    args: SwapArgs,
    commission_rate: u16,
    commission_direction: bool,
    order_id: u64,
) -> (r: Result<CommissionProxySwap, Error>)
    ensures
        begun(
            r,
            args,
            commission_rate,
            commission_direction,
            accounts.commission_token_account.mint == accounts.source_mint.info.key,
            accounts.commission_token_account.mint == accounts.destination_mint.info.key,
            accounts.source_token_account,
            accounts.destination_token_account,
            accounts.source_token_sa,
            accounts.destination_token_sa,
            deposit(
                accounts.payer,
                accounts.source_token_account,
                accounts.source_token_sa,
                accounts.source_mint,
                accounts.source_token_program,
                args.amount_in,
            ),
        ),
{
    let source_fits: bool = accounts.commission_token_account.mint == accounts.source_mint.key();
    let destination_fits: bool = accounts.commission_token_account.mint
        == accounts.destination_mint.key();
    begin(
        accounts.payer,
        &accounts.source_token_account,
        &accounts.destination_token_account,
        &accounts.source_mint,
        accounts.source_token_sa,
        accounts.destination_token_sa,
        &accounts.source_token_program,
        args,
        commission_rate,
        commission_direction,
        source_fits,
        destination_fits,
        order_id,
    )
}

} // verus!
