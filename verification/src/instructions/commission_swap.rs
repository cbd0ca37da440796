//! Swaps with a commission, paid in the native asset or in the traded token.

use crate::account::{address, AccountInfo, Interface, Mint, Program, Pubkey, TokenAccount};
use crate::constants::{COMMISSION_DENOMINATOR, COMMISSION_RATE_LIMIT, WSOL_PROGRAM};
use crate::error::{Error, ErrorCode};
use crate::instructions::common::{
    args_error, swap_process, CommissionSwapArgs, SwapArgs, SwapProcess,
};
use crate::utils::token::{
    asks, sol_transfer, token_transfer, transfer_sol_from_user, transfer_token_from_user,
    Transfer, TransferView,
};
use vstd::prelude::*;

verus! {

/// The accounts of a swap with a commission in the native asset.
#[derive(Clone, Copy, Debug)]
pub struct CommissionSOLAccounts<'info> {
    pub payer: &'info AccountInfo,
    pub source_token_account: TokenAccount<'info>,
    pub destination_token_account: TokenAccount<'info>,
    pub source_mint: Mint<'info>,
    pub destination_mint: Mint<'info>,
    pub commission_account: &'info AccountInfo,
    pub system_program: Program<'info>,
}

/// The accounts of a swap with a commission in the traded token.
#[derive(Clone, Copy, Debug)]
pub struct CommissionSPLAccounts<'info> {
    pub payer: &'info AccountInfo,
    pub source_token_account: TokenAccount<'info>,
    pub destination_token_account: TokenAccount<'info>,
    pub source_mint: Mint<'info>,
    pub destination_mint: Mint<'info>,
    pub commission_token_account: TokenAccount<'info>,
    pub token_program: Interface<'info>,
}

/// The commission on an input of `amount_in` at `commission_rate` basis points: the rate's
/// share of what the caller puts in, input and commission together.
pub open spec fn input_commission(amount_in: u64, commission_rate: u16) -> Result<u64, Error> {
    if amount_in * commission_rate > u64::MAX || commission_rate >= COMMISSION_DENOMINATOR {
        Err(Error::Router(ErrorCode::CalculationError))
    } else {
        Ok((amount_in * commission_rate / (COMMISSION_DENOMINATOR - commission_rate)) as u64)
    }
}

/// The commission on an output of `amount_out` at `commission_rate` basis points: the
/// rate's share of the output.
pub open spec fn output_commission(amount_out: u64, commission_rate: u16) -> Result<u64, Error> {
    if amount_out * commission_rate > u64::MAX {
        Err(Error::Router(ErrorCode::CalculationError))
    } else {
        Ok((amount_out * commission_rate / (COMMISSION_DENOMINATOR as int)) as u64)
    }
}

/// The commission that is fixed before the swap, or why the swap may not begin. The rate
/// must lie above zero and within the limit, and the asset on the side the commission is
/// charged on must be the commission's. A commission on the input is fixed now; one on the
/// output is fixed when the output is known, and is zero until then.
pub open spec fn commission_before(
    amount_in: u64,
    commission_rate: u16,
    commission_direction: bool,
    source_fits: bool,
    destination_fits: bool,
) -> Result<u64, Error> {
    if commission_rate == 0 || commission_rate > COMMISSION_RATE_LIMIT {
        Err(Error::Router(ErrorCode::InvalidCommissionRate))
    } else if commission_direction {
        if !source_fits {
            Err(Error::Router(ErrorCode::InvalidCommissionTokenAccount))
        } else {
            input_commission(amount_in, commission_rate)
        }
    } else if !destination_fits {
        Err(Error::Router(ErrorCode::InvalidCommissionTokenAccount))
    } else {
        Ok(0)
    }
}

/// The commission on an input of `amount_in`.
pub fn commission_on_input(amount_in: u64, commission_rate: u16) -> (r: Result<u64, Error>)
    ensures
        r == input_commission(amount_in, commission_rate),
{
    if commission_rate as u64 >= COMMISSION_DENOMINATOR {
        return Err(Error::Router(ErrorCode::CalculationError));
    }
    match amount_in.checked_mul(commission_rate as u64) {
        Some(product) => Ok(product / (COMMISSION_DENOMINATOR - commission_rate as u64)),
        None => Err(Error::Router(ErrorCode::CalculationError)),
    }
}

/// The commission on an output of `amount_out`.
pub fn commission_on_output(amount_out: u64, commission_rate: u16) -> (r: Result<u64, Error>)
    ensures
        r == output_commission(amount_out, commission_rate),
{
    match amount_out.checked_mul(commission_rate as u64) {
        Some(product) => Ok(product / COMMISSION_DENOMINATOR),
        None => Err(Error::Router(ErrorCode::CalculationError)),
    }
}

/// Holds a commission to its rules and fixes what can be fixed of it before the swap.
pub fn check_commission(
    amount_in: u64,
    commission_rate: u16,
    commission_direction: bool,
    source_fits: bool,
    destination_fits: bool,
) -> (r: Result<u64, Error>)
    ensures
        r == commission_before(
            amount_in,
            commission_rate,
            commission_direction,
            source_fits,
            destination_fits,
        ),
{
    // the rate must lie within its limit
    if !(commission_rate > 0 && commission_rate <= COMMISSION_RATE_LIMIT) {
        return Err(Error::Router(ErrorCode::InvalidCommissionRate));
    }
    if commission_direction {
        // charged on the input: the commission is paid in the source token
        if !source_fits {
            return Err(Error::Router(ErrorCode::InvalidCommissionTokenAccount));
        }
        commission_on_input(amount_in, commission_rate)
    } else {
        // charged on the output: the commission is paid in the destination token
        if !destination_fits {
            return Err(Error::Router(ErrorCode::InvalidCommissionTokenAccount));
        }
        Ok(0)
    }
}

/// A commission as it stands while the swap runs: its rate, the side it is charged on
/// (`true`: the input), and the amount, as far as it is fixed.
#[derive(Clone, Copy, Debug)]
pub struct Commission {
    pub commission_rate: u16,
    pub commission_direction: bool,
    pub commission_amount: u64,
}

impl Commission {
    /// The commission to collect once the swap gave `amount_out`: what was fixed before the
    /// swap where it is charged on the input, and the rate's share of the output else.
    pub open spec fn due(self, amount_out: u64) -> Result<u64, Error> {
        if self.commission_direction {
            Ok(self.commission_amount)
        } else {
            output_commission(amount_out, self.commission_rate)
        }
    }

    /// The commission to collect once the swap gave `amount_out`.
    pub fn amount_due(&self, amount_out: u64) -> (r: Result<u64, Error>)
        ensures
            r == self.due(amount_out),
    {
        if self.commission_direction {
            Ok(self.commission_amount)
        } else {
            commission_on_output(amount_out, self.commission_rate)
        }
    }

    /// The transfer of a commission in the native asset from `payer` to
    /// `commission_account`, once the swap gave `amount_out`.
    pub open spec fn sol_collection(
        self,
        payer: Pubkey,
        commission_account: Pubkey,
        amount_out: u64,
    ) -> Result<Option<TransferView>, Error> {
        match self.due(amount_out) {
            Err(e) => Err(e),
            Ok(commission_amount) => sol_transfer(payer, commission_account, commission_amount),
        }
    }

    /// Asks for a commission in the native asset to be paid, once the swap gave
    /// `amount_out`.
    pub fn collect_sol(&self, payer: Pubkey, commission_account: Pubkey, amount_out: u64) -> (r:
        Result<Option<Transfer>, Error>)
        ensures
            asks(r, self.sol_collection(payer, commission_account, amount_out)),
    {
        let commission_amount: u64 = self.amount_due(amount_out)?;
        transfer_sol_from_user(payer, commission_account, commission_amount)
    }

    /// The transfer of a commission in the traded token, once the swap gave `amount_out`:
    /// out of the caller's source account where it is charged on the input, and out of the
    /// caller's destination account else.
    pub open spec fn spl_collection(
        self,
        payer: Pubkey,
        source_token_account: Pubkey,
        destination_token_account: Pubkey,
        commission_token_account: Pubkey,
        source_mint: Mint,
        destination_mint: Mint,
        source_token_program: Pubkey,
        destination_token_program: Pubkey,
        amount_out: u64,
    ) -> Result<Option<TransferView>, Error> {
        if self.commission_direction {
            token_transfer(
                payer,
                source_token_account,
                commission_token_account,
                source_mint.info.key,
                source_token_program,
                self.commission_amount,
                source_mint.decimals,
                false,
            )
        } else {
            match output_commission(amount_out, self.commission_rate) {
                Err(e) => Err(e),
                Ok(commission_amount) => token_transfer(
                    payer,
                    destination_token_account,
                    commission_token_account,
                    destination_mint.info.key,
                    destination_token_program,
                    commission_amount,
                    destination_mint.decimals,
                    false,
                ),
            }
        }
    }

    /// Asks for a commission in the traded token to be paid, once the swap gave
    /// `amount_out`.
    pub fn collect_spl(
        &self,
        payer: Pubkey,
        source_token_account: Pubkey,
        destination_token_account: Pubkey,
        commission_token_account: Pubkey,
        source_mint: &Mint,
        destination_mint: &Mint,
        source_token_program: Pubkey,
        destination_token_program: Pubkey,
        amount_out: u64,
    ) -> (r: Result<Option<Transfer>, Error>)
        ensures
            asks(
                r,
                self.spl_collection(
                    payer,
                    source_token_account,
                    destination_token_account,
                    commission_token_account,
                    *source_mint,
                    *destination_mint,
                    source_token_program,
                    destination_token_program,
                    amount_out,
                ),
            ),
    {
        if self.commission_direction {
            transfer_token_from_user(
                payer,
                source_token_account,
                commission_token_account,
                source_mint.key(),
                source_token_program,
                self.commission_amount,
                source_mint.decimals,
            )
        } else {
            let commission_amount: u64 = commission_on_output(amount_out, self.commission_rate)?;
            transfer_token_from_user(
                payer,
                destination_token_account,
                commission_token_account,
                destination_mint.key(),
                destination_token_program,
                commission_amount,
                destination_mint.decimals,
            )
        }
    }
}

/// A swap with a commission, begun: the routing call and the commission.
#[derive(Debug)]
pub struct CommissionSwap {
    pub process: SwapProcess,
    pub commission: Commission,
}

/// The request of a swap with a commission, without the commission.
pub open spec fn swap_args_of(args: CommissionSwapArgs) -> SwapArgs {
    SwapArgs {
        amount_in: args.amount_in,
        expect_amount_out: args.expect_amount_out,
        min_return: args.min_return,
        amounts: args.amounts,
        routes: args.routes,
    }
}

/// What one of the two handlers of this module hands out: the commission is held to its
/// rules first, the request second.
pub open spec fn begun(
    r: Result<CommissionSwap, Error>,
    args: CommissionSwapArgs,
    source_token_account: TokenAccount,
    destination_token_account: TokenAccount,
    source_fits: bool,
    destination_fits: bool,
) -> bool {
    let commission = commission_before(
        args.amount_in,
        args.commission_rate,
        args.commission_direction,
        source_fits,
        destination_fits,
    );
    match r {
        Ok(swap) => {
            &&& commission == Ok::<u64, Error>(swap.commission.commission_amount)
            &&& swap.commission.commission_rate == args.commission_rate
            &&& swap.commission.commission_direction == args.commission_direction
            &&& args_error(swap_args_of(args)) is None
            &&& swap.process.wf()
            &&& swap.process.args == swap_args_of(args)
            &&& !swap.process.proxy_swap
            &&& swap.process.source_token_account == source_token_account.info.key
            &&& swap.process.destination_token_account == destination_token_account.info.key
            &&& swap.process.before_source_balance == source_token_account.amount
            &&& swap.process.before_destination_balance == destination_token_account.amount
            &&& swap.process.offset == 0
        },
        Err(e) => match commission {
            Err(c) => e == c,
            Ok(_) => args_error(swap_args_of(args)) matches Some(code) && e == Error::Router(code),
        },
    }
}

fn begin(
    args: CommissionSwapArgs,
    source_token_account: &TokenAccount,
    destination_token_account: &TokenAccount,
    source_fits: bool,
    destination_fits: bool,
) -> (r: Result<CommissionSwap, Error>)
    ensures
        begun(
            r,
            args,
            *source_token_account,
            *destination_token_account,
            source_fits,
            destination_fits,
        ),
{
    let commission_amount: u64 = check_commission(
        args.amount_in,
        args.commission_rate,
        args.commission_direction,
        source_fits,
        destination_fits,
    )?;
    let commission = Commission {
        commission_rate: args.commission_rate,
        commission_direction: args.commission_direction,
        commission_amount,
    };
    let swap_args = SwapArgs {
        amount_in: args.amount_in,
        expect_amount_out: args.expect_amount_out,
        min_return: args.min_return,
        amounts: args.amounts,
        routes: args.routes,
    };
    let process = swap_process(source_token_account, destination_token_account, swap_args, false)?;
    Ok(CommissionSwap { process, commission })
}

/// Begins a swap with a commission in the native asset. The asset on the side the
/// commission is charged on must be the wrapped native asset.
pub fn commission_sol_swap_handler(
    accounts: &CommissionSOLAccounts,
    args: CommissionSwapArgs,
    order_id: u64,
) -> (r: Result<CommissionSwap, Error>)
    ensures
        begun(
            r,
            args,
            accounts.source_token_account,
            accounts.destination_token_account,
            accounts.source_mint.info.key == address(WSOL_PROGRAM),
            accounts.destination_mint.info.key == address(WSOL_PROGRAM),
        ),
{
    let source_fits: bool = accounts.source_mint.key().is(WSOL_PROGRAM);
    let destination_fits: bool = accounts.destination_mint.key().is(WSOL_PROGRAM);
    begin(
        args,
        &accounts.source_token_account,
        &accounts.destination_token_account,
        source_fits,
        destination_fits,
    )
}

/// Begins a swap with a commission in the traded token. The commission's token account
/// must be of the asset on the side the commission is charged on.
pub fn commission_spl_swap_handler(
    accounts: &CommissionSPLAccounts,
    args: CommissionSwapArgs,
    order_id: u64,
) -> (r: Result<CommissionSwap, Error>)
    ensures
        begun(
            r,
            args,
            accounts.source_token_account,
            accounts.destination_token_account,
            accounts.commission_token_account.mint == accounts.source_mint.info.key,
            accounts.commission_token_account.mint == accounts.destination_mint.info.key,
        ),
{
    let source_fits: bool = accounts.commission_token_account.mint == accounts.source_mint.key();
    let destination_fits: bool = accounts.commission_token_account.mint
        == accounts.destination_mint.key();
    begin(
        args,
        &accounts.source_token_account,
        &accounts.destination_token_account,
        source_fits,
        destination_fits,
    )
}

} // verus!
