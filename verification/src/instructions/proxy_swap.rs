//! The proxied swap: every hop runs under the program-derived authority.

use crate::account::{AccountInfo, Interface, Mint, Program, TokenAccount};
use crate::error::Error;
use crate::instructions::common::{proxy_swap_process, ProxySwapProcess, SwapArgs};
use crate::utils::token::{asks, token_transfer, TransferView};
use vstd::prelude::*;

verus! {

/// The accounts of a proxied swap: those of a swap, the program-derived authority, and
/// the authority's own token accounts for the two assets, where it has them.
#[derive(Clone, Copy, Debug)]
pub struct ProxySwapAccounts<'info> {
    pub payer: &'info AccountInfo,
    pub source_token_account: TokenAccount<'info>,
    pub destination_token_account: TokenAccount<'info>,
    pub source_mint: Mint<'info>,
    pub destination_mint: Mint<'info>,
    pub sa_authority: &'info AccountInfo,
    pub source_token_sa: Option<TokenAccount<'info>>,
    pub destination_token_sa: Option<TokenAccount<'info>>,
    pub source_token_program: Interface<'info>,
    pub destination_token_program: Interface<'info>,
    pub associated_token_program: Program<'info>,
    pub system_program: Program<'info>,
}

/// The deposit that a proxied swap with these accounts begins with: the whole input goes
/// from the caller's source account to the authority's, where the authority has one.
pub open spec fn deposit(accounts: ProxySwapAccounts, amount_in: u64) -> Result<
    Option<TransferView>,
    Error,
> {
    match accounts.source_token_sa {
        Some(source_token_sa) => token_transfer(
            accounts.payer.key,
            accounts.source_token_account.info.key,
            source_token_sa.info.key,
            accounts.source_mint.info.key,
            accounts.source_token_program.info.key,
            amount_in,
            accounts.source_mint.decimals,
            false,
        ),
        None => Ok(None),
    }
}

/// Begins a proxied swap between the caller's two token accounts.
pub fn proxy_swap_handler(accounts: &ProxySwapAccounts, args: SwapArgs, order_id: u64) -> (r:
    Result<ProxySwapProcess, Error>)
    ensures
        match r {
            Ok(process) => {
                &&& process.args == args
                &&& process.before_source_balance == accounts.source_token_account.amount
                &&& process.before_destination_balance
                    == accounts.destination_token_account.amount
                &&& process.proxy_swap == accounts.source_token_sa is Some
                &&& process.sweeps == accounts.destination_token_sa is Some
                &&& process.source_account == match accounts.source_token_sa {
                    Some(account) => account.info.key,
                    None => accounts.source_token_account.info.key,
                }
                &&& process.destination_account == match accounts.destination_token_sa {
                    Some(account) => account.info.key,
                    None => accounts.destination_token_account.info.key,
                }
                &&& asks(Ok(process.deposit), deposit(*accounts, args.amount_in))
            },
            Err(e) => deposit(*accounts, args.amount_in) == Err::<Option<TransferView>, Error>(e),
        },
{
    proxy_swap_process(
        accounts.payer.key,
        &accounts.source_token_account,
        &accounts.destination_token_account,
        match accounts.source_token_sa {
            Some(account) => Some(account.key()),
            None => None,
        },
        match accounts.destination_token_sa {
            Some(account) => Some(account.key()),
            None => None,
        },
        accounts.source_mint.key(),
        accounts.source_mint.decimals,
        accounts.source_token_program.key(),
        args,
        order_id,
    )
}

} // verus!
