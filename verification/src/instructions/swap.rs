//! The plain swap: the caller is the authority of the first hop.

use crate::account::{AccountInfo, Mint, TokenAccount};
use crate::error::Error;
use crate::instructions::common::{args_error, swap_process, SwapArgs, SwapProcess};
use vstd::prelude::*;

verus! {

/// The accounts of a swap: who pays, the token accounts the swap leads from and to, and
/// their mints.
#[derive(Clone, Copy, Debug)]
pub struct SwapAccounts<'info> {
    pub payer: &'info AccountInfo,
    pub source_token_account: TokenAccount<'info>,
    pub destination_token_account: TokenAccount<'info>,
    pub source_mint: Mint<'info>,
    pub destination_mint: Mint<'info>,
}

/// Begins a swap between the caller's two token accounts: a routing call that is not
/// proxied. The identifier of the order is for the record only.
pub fn swap_handler(accounts: &SwapAccounts, args: SwapArgs, order_id: u64) -> (r: Result<
    SwapProcess,
    Error,
>)
    ensures
        match r {
            Ok(process) => {
                &&& args_error(args) is None
                &&& process.wf()
                &&& process.args == args
                &&& !process.proxy_swap
                &&& process.source_token_account == accounts.source_token_account.info.key
                &&& process.destination_token_account
                    == accounts.destination_token_account.info.key
                &&& process.before_source_balance == accounts.source_token_account.amount
                &&& process.before_destination_balance
                    == accounts.destination_token_account.amount
                &&& process.offset == 0
            },
            Err(e) => args_error(args) matches Some(code) && e == Error::Router(code),
        },
{
    swap_process(&accounts.source_token_account, &accounts.destination_token_account, args, false)
}

} // verus!
