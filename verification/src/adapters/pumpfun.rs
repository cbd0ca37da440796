//! The pump.fun bonding curves.

use crate::account::{
    address, readonly, writable, AccountInfo, AccountMeta, Instruction, InstructionView, Mint,
    Program, ProgramKind, Pubkey, TokenAccount,
};
use crate::adapters::common::{
    account_ref, before_check, before_check_error, call_views, chained, continuity_error,
    invoke_process, no_call, no_calls, prepared, same_account, same_accounts, yields, AccountRef,
    Call, CallView, DexProcessor, Invocation, InvocationView,
};
use crate::bytes::{le_bytes, le_value, push_le, read_u64_le};
use crate::constants::{PUMPFUN_BUY_SELECTOR, PUMPFUN_PROGRAM, PUMPFUN_SELL_SELECTOR, ZERO_ADDRESS};
use crate::error::{Error, ErrorCode};
use crate::instructions::common::HopAccounts;
use crate::utils::token::{
    close_account_instruction, sync_native_instruction, system_transfer, token_close_account,
    token_sync_native, transfer_sol_from_user,
};
use vstd::prelude::*;

verus! {

/// Length of the venue's instruction payload.
pub const ARGS_LEN: usize = 24;

/// Number of accounts a purchase takes from the flat account list.
pub const BUY_ACCOUNTS_LEN: usize = 13;

/// Number of accounts a sale takes from the flat account list.
pub const SELL_ACCOUNTS_LEN: usize = 13;

/// The checks before a purchase on a bonding curve. They are the checks every venue
/// shares: the fork continues the hop chain, and the authority fits the hop's signing mode,
/// where a delegated hop wants the program-derived authority, whoever owns the source token
/// account.
pub fn pumpfun_before_check(
    swap_authority_pubkey: &AccountInfo,
    swap_source_token: Pubkey,
    swap_source_token_account: TokenAccount,
    swap_destination_token: Pubkey,
    hop_accounts: &HopAccounts,
    hop: usize,
    proxy_swap: bool,
) -> (r: Result<(), Error>)
    ensures
        match r {
            Ok(_) => before_check_error(
                swap_authority_pubkey,
                swap_source_token,
                swap_destination_token,
                *hop_accounts,
                hop,
                proxy_swap,
            ) is None,
            Err(e) => before_check_error(
                swap_authority_pubkey,
                swap_source_token,
                swap_destination_token,
                *hop_accounts,
                hop,
                proxy_swap,
            ) == Some(e),
        },
{
    before_check(
        swap_authority_pubkey,
        swap_source_token,
        swap_destination_token,
        hop_accounts,
        hop,
        proxy_swap,
    )
}

/// A purchase closes the source token account, a wrapped-native account, into the user's
/// own account before the venue is called, so that the venue can draw the native asset.
pub struct PumpfunBuyProcessor;

impl DexProcessor for PumpfunBuyProcessor {
    open spec fn calls_before(
        &self,
        account_infos: Seq<AccountRef>,
    ) -> Result<Seq<CallView>, Error> {
        if account_infos.len() < BUY_ACCOUNTS_LEN {
            Err(Error::Router(ErrorCode::InvalidAccountsLength))
        } else {
            match token_close_account(
                account_infos[8].key,
                account_infos[12].key,
                account_infos[6].key,
                account_infos[6].key,
                account_infos[6].key,
            ) {
                Err(code) => Err(Error::Program(code)),
                Ok(instruction) => Ok(
                    seq![
                        CallView {
                            instruction,
                            account_infos: seq![
                                account_infos[12],
                                account_infos[8],
                                account_infos[6],
                            ],
                            signed: false,
                            failure: None,
                        },
                    ],
                ),
            }
        }
    }

    open spec fn calls_after(
        &self,
        account_infos: Seq<AccountRef>,
    ) -> Result<Seq<CallView>, Error> {
        no_calls()
    }

    fn before_invoke(&self, account_infos: &Vec<AccountRef>) -> (r: Result<Vec<Call>, Error>) {
        if account_infos.len() < BUY_ACCOUNTS_LEN {
            return Err(Error::Router(ErrorCode::InvalidAccountsLength));
        }
        let source_token_account = account_infos[12];
        let token_program = account_infos[8];
        let user = account_infos[6];
        let instruction = match close_account_instruction(
            &token_program.key,
            &source_token_account.key,
            &user.key,
            &user.key,
            &user.key,
        ) {
            Ok(instruction) => instruction,
            Err(code) => {
                return Err(Error::Program(code));
            },
        };
        let call = Call {
            instruction,
            account_infos: vec![source_token_account, token_program, user],
            signed: false,
            failure: None,
        };
        let calls = vec![call];
        proof {
            assert(call_views(calls@) =~= seq![calls@[0]@]);
        }
        Ok(calls)
    }

    fn after_invoke(&self, account_infos: &Vec<AccountRef>) -> (r: Result<Vec<Call>, Error>) {
        no_call()
    }
}

/// A sale is paid in the native asset to the user's own account. After the venue is called
/// the least amount the sale may bring is moved on into the destination token account, a
/// wrapped-native account, whose balance is then brought in line.
pub struct PumpfunSellProcessor {
    pub amount: u64,
}

/// The call that moves `lamports` of the native asset from `user` to `destination`: none
/// where the amount is zero.
pub open spec fn forward_proceeds(user: AccountRef, destination: AccountRef, lamports: u64) -> Seq<
    CallView,
> {
    if lamports == 0 {
        Seq::empty()
    } else {
        seq![
            CallView {
                instruction: system_transfer(user.key, destination.key, lamports),
                account_infos: seq![user, destination],
                signed: false,
                failure: Some(ErrorCode::TransferSolFailed),
            },
        ]
    }
}

impl DexProcessor for PumpfunSellProcessor {
    open spec fn calls_before(
        &self,
        account_infos: Seq<AccountRef>,
    ) -> Result<Seq<CallView>, Error> {
        if account_infos.len() == 0 {
            Err(Error::Router(ErrorCode::InvalidAccountsLength))
        } else {
            no_calls()
        }
    }

    open spec fn calls_after(
        &self,
        account_infos: Seq<AccountRef>,
    ) -> Result<Seq<CallView>, Error> {
        if account_infos.len() < 10 {
            Err(Error::Router(ErrorCode::InvalidAccountsLength))
        } else {
            match token_sync_native(account_infos[9].key, account_infos.last().key) {
                Err(code) => Err(Error::Program(code)),
                Ok(instruction) => Ok(
                    forward_proceeds(account_infos[6], account_infos.last(), self.amount).push(
                        CallView {
                            instruction,
                            account_infos: seq![account_infos.last(), account_infos[9]],
                            signed: false,
                            failure: None,
                        },
                    ),
                ),
            }
        }
    }

    fn before_invoke(&self, account_infos: &Vec<AccountRef>) -> (r: Result<Vec<Call>, Error>) {
        if account_infos.len() == 0 {
            return Err(Error::Router(ErrorCode::InvalidAccountsLength));
        }
        no_call()
    }

    fn after_invoke(&self, account_infos: &Vec<AccountRef>) -> (r: Result<Vec<Call>, Error>) {
        if account_infos.len() < 10 {
            return Err(Error::Router(ErrorCode::InvalidAccountsLength));
        }
        let destination_token_account = account_infos[account_infos.len() - 1];
        let user = account_infos[6];
        let token_program = account_infos[9];
        let mut calls: Vec<Call> = Vec::new();
        match transfer_sol_from_user(user.key, destination_token_account.key, self.amount) {
            Ok(Some(transfer)) => {
                calls.push(
                    Call {
                        instruction: transfer.instruction,
                        account_infos: vec![user, destination_token_account],
                        signed: transfer.signed,
                        failure: Some(transfer.failure),
                    },
                );
            },
            Ok(None) => {},
            Err(e) => {
                return Err(e);
            },
        }
        proof {
            assert(call_views(calls@) =~= forward_proceeds(
                user,
                destination_token_account,
                self.amount,
            ));
        }
        let instruction = match sync_native_instruction(
            &token_program.key,
            &destination_token_account.key,
        ) {
            Ok(instruction) => instruction,
            Err(code) => {
                return Err(Error::Program(code));
            },
        };
        let ghost moved = calls@;
        calls.push(
            Call {
                instruction,
                account_infos: vec![destination_token_account, token_program],
                signed: false,
                failure: None,
            },
        );
        proof {
            assert(call_views(calls@) =~= call_views(moved).push(calls@[calls@.len() - 1]@));
        }
        Ok(calls)
    }
}

/// The accounts of one purchase on a bonding curve.
#[derive(Clone, Copy, Debug)]
pub struct PumpfunBuyAccounts<'info> {
    pub dex_program_id: &'info AccountInfo,
    pub swap_authority_pubkey: &'info AccountInfo,
    pub swap_source_token: TokenAccount<'info>,
    pub swap_destination_token: TokenAccount<'info>,
    pub global: &'info AccountInfo,
    pub fee_recipient: &'info AccountInfo,
    pub mint: Mint<'info>,
    pub bonding_curve: &'info AccountInfo,
    pub associated_bonding_curve: &'info AccountInfo,
    pub system_program: Program<'info>,
    pub token_program: Program<'info>,
    pub rent: &'info AccountInfo,
    pub event_authority: &'info AccountInfo,
}

/// The accounts of one sale on a bonding curve.
#[derive(Clone, Copy, Debug)]
pub struct PumpfunSellAccounts<'info> {
    pub dex_program_id: &'info AccountInfo,
    pub swap_authority_pubkey: &'info AccountInfo,
    pub swap_source_token: TokenAccount<'info>,
    pub swap_destination_token: TokenAccount<'info>,
    pub global: &'info AccountInfo,
    pub fee_recipient: &'info AccountInfo,
    pub mint: Mint<'info>,
    pub bonding_curve: &'info AccountInfo,
    pub associated_bonding_curve: &'info AccountInfo,
    pub system_program: Program<'info>,
    pub associated_token_program: Program<'info>,
    pub token_program: Program<'info>,
    pub event_authority: &'info AccountInfo,
}

impl<'info> PumpfunBuyAccounts<'info> {
    /// The accounts of `slice`, the venue's part of the flat list, each read as what its
    /// place asks for; or the failure of the first that is not that.
    pub open spec fn parsed(slice: Seq<AccountInfo>) -> Result<PumpfunBuyAccounts<'info>, Error> {
        let swap_source_token = TokenAccount::parsed(&slice[2]);
        let swap_destination_token = TokenAccount::parsed(&slice[3]);
        let mint = Mint::parsed(&slice[6]);
        let system_program = Program::parsed(&slice[9], ProgramKind::System);
        let token_program = Program::parsed(&slice[10], ProgramKind::Token);
        if swap_source_token is Err {
            Err(swap_source_token->Err_0)
        } else if swap_destination_token is Err {
            Err(swap_destination_token->Err_0)
        } else if mint is Err {
            Err(mint->Err_0)
        } else if system_program is Err {
            Err(system_program->Err_0)
        } else if token_program is Err {
            Err(token_program->Err_0)
        } else {
            Ok(
                PumpfunBuyAccounts {
                    dex_program_id: &slice[0],
                    swap_authority_pubkey: &slice[1],
                    swap_source_token: swap_source_token->Ok_0,
                    swap_destination_token: swap_destination_token->Ok_0,
                    global: &slice[4],
                    fee_recipient: &slice[5],
                    mint: mint->Ok_0,
                    bonding_curve: &slice[7],
                    associated_bonding_curve: &slice[8],
                    system_program: system_program->Ok_0,
                    token_program: token_program->Ok_0,
                    rent: &slice[11],
                    event_authority: &slice[12],
                },
            )
        }
    }

    fn parse_accounts(accounts: &'info [AccountInfo], offset: usize) -> (r: Result<
        PumpfunBuyAccounts<'info>,
        Error,
    >)
        requires
            offset + BUY_ACCOUNTS_LEN <= accounts@.len(),
        ensures
            r == Self::parsed(accounts@.subrange(offset as int, offset + BUY_ACCOUNTS_LEN)),
    {
        Ok(
            PumpfunBuyAccounts {
                dex_program_id: &accounts[offset],
                swap_authority_pubkey: &accounts[offset + 1],
                swap_source_token: TokenAccount::try_from(&accounts[offset + 2])?,
                swap_destination_token: TokenAccount::try_from(&accounts[offset + 3])?,
                global: &accounts[offset + 4],
                fee_recipient: &accounts[offset + 5],
                mint: Mint::try_from(&accounts[offset + 6])?,
                bonding_curve: &accounts[offset + 7],
                associated_bonding_curve: &accounts[offset + 8],
                system_program: Program::try_from(&accounts[offset + 9], ProgramKind::System)?,
                token_program: Program::try_from(&accounts[offset + 10], ProgramKind::Token)?,
                rent: &accounts[offset + 11],
                event_authority: &accounts[offset + 12],
            },
        )
    }
}

impl<'info> PumpfunSellAccounts<'info> {
    /// The accounts of `slice`, the venue's part of the flat list, each read as what its
    /// place asks for; or the failure of the first that is not that.
    pub open spec fn parsed(slice: Seq<AccountInfo>) -> Result<PumpfunSellAccounts<'info>, Error> {
        let swap_source_token = TokenAccount::parsed(&slice[2]);
        let swap_destination_token = TokenAccount::parsed(&slice[3]);
        let mint = Mint::parsed(&slice[6]);
        let system_program = Program::parsed(&slice[9], ProgramKind::System);
        let associated_token_program = Program::parsed(&slice[10], ProgramKind::AssociatedToken);
        let token_program = Program::parsed(&slice[11], ProgramKind::Token);
        if swap_source_token is Err {
            Err(swap_source_token->Err_0)
        } else if swap_destination_token is Err {
            Err(swap_destination_token->Err_0)
        } else if mint is Err {
            Err(mint->Err_0)
        } else if system_program is Err {
            Err(system_program->Err_0)
        } else if associated_token_program is Err {
            Err(associated_token_program->Err_0)
        } else if token_program is Err {
            Err(token_program->Err_0)
        } else {
            Ok(
                PumpfunSellAccounts {
                    dex_program_id: &slice[0],
                    swap_authority_pubkey: &slice[1],
                    swap_source_token: swap_source_token->Ok_0,
                    swap_destination_token: swap_destination_token->Ok_0,
                    global: &slice[4],
                    fee_recipient: &slice[5],
                    mint: mint->Ok_0,
                    bonding_curve: &slice[7],
                    associated_bonding_curve: &slice[8],
                    system_program: system_program->Ok_0,
                    associated_token_program: associated_token_program->Ok_0,
                    token_program: token_program->Ok_0,
                    event_authority: &slice[12],
                },
            )
        }
    }

    fn parse_accounts(accounts: &'info [AccountInfo], offset: usize) -> (r: Result<
        PumpfunSellAccounts<'info>,
        Error,
    >)
        requires
            offset + SELL_ACCOUNTS_LEN <= accounts@.len(),
        ensures
            r == Self::parsed(accounts@.subrange(offset as int, offset + SELL_ACCOUNTS_LEN)),
    {
        Ok(
            PumpfunSellAccounts {
                dex_program_id: &accounts[offset],
                swap_authority_pubkey: &accounts[offset + 1],
                swap_source_token: TokenAccount::try_from(&accounts[offset + 2])?,
                swap_destination_token: TokenAccount::try_from(&accounts[offset + 3])?,
                global: &accounts[offset + 4],
                fee_recipient: &accounts[offset + 5],
                mint: Mint::try_from(&accounts[offset + 6])?,
                bonding_curve: &accounts[offset + 7],
                associated_bonding_curve: &accounts[offset + 8],
                system_program: Program::try_from(&accounts[offset + 9], ProgramKind::System)?,
                associated_token_program: Program::try_from(
                    &accounts[offset + 10],
                    ProgramKind::AssociatedToken,
                )?,
                token_program: Program::try_from(&accounts[offset + 11], ProgramKind::Token)?,
                event_authority: &accounts[offset + 12],
            },
        )
    }
}

/// The payload of a purchase: the selector of the instruction, the tokens to buy and the most
/// of the native asset to pay for them.
pub open spec fn buy_data(token_amount_out: u64, max_amount_cost: u64) -> Seq<u8> {
    PUMPFUN_BUY_SELECTOR@
        + le_bytes(token_amount_out as nat, 8)
        + le_bytes(max_amount_cost as nat, 8)
}

/// The payload of a purchase: the selector of the instruction, the tokens to buy and the most
/// of the native asset to pay for them.
pub fn pack_buy_instruction(token_amount_out: u64, max_amount_cost: u64) -> (data: Vec<u8>)
    ensures
        data@ == buy_data(token_amount_out, max_amount_cost),
        data@.len() == ARGS_LEN,
{
    let mut data: Vec<u8> = Vec::with_capacity(ARGS_LEN);
    data.extend_from_slice(&PUMPFUN_BUY_SELECTOR);
    push_le(&mut data, token_amount_out as u128, 8);
    push_le(&mut data, max_amount_cost as u128, 8);
    data
}

/// The payload of a sale: the selector of the instruction, the tokens to sell and the least of
/// the native asset to take for them.
pub open spec fn sell_data(token_amount_in: u64, min_sol_amount_out: u64) -> Seq<u8> {
    PUMPFUN_SELL_SELECTOR@
        + le_bytes(token_amount_in as nat, 8)
        + le_bytes(min_sol_amount_out as nat, 8)
}

/// The payload of a sale: the selector of the instruction, the tokens to sell and the least of
/// the native asset to take for them.
pub fn pack_sell_instruction(token_amount_in: u64, min_sol_amount_out: u64) -> (data: Vec<u8>)
    ensures
        data@ == sell_data(token_amount_in, min_sol_amount_out),
        data@.len() == ARGS_LEN,
{
    let mut data: Vec<u8> = Vec::with_capacity(ARGS_LEN);
    data.extend_from_slice(&PUMPFUN_SELL_SELECTOR);
    push_le(&mut data, token_amount_in as u128, 8);
    push_le(&mut data, min_sol_amount_out as u128, 8);
    data
}

/// The virtual reserves of the token and of the native asset, as the bonding curve's
/// account holds them; none where the account is too short to hold them.
pub open spec fn reserves(curve_data: Seq<u8>) -> Result<(u64, u64), Error> {
    if curve_data.len() < 24 {
        Err(Error::MalformedAccountData)
    } else {
        Ok(
            (
                le_value(curve_data.subrange(8, 16)) as u64,
                le_value(curve_data.subrange(16, 24)) as u64,
            ),
        )
    }
}

fn read_reserves(bonding_curve: &AccountInfo) -> (r: Result<(u64, u64), Error>)
    ensures
        r == reserves(bonding_curve.data@),
{
    let data = bonding_curve.data.as_slice();
    if data.len() < 24 {
        return Err(Error::MalformedAccountData);
    }
    match (read_u64_le(data, 8), read_u64_le(data, 16)) {
        (Some(virtual_token_reserves), Some(virtual_sol_reserves)) => Ok(
            (virtual_token_reserves, virtual_sol_reserves),
        ),
        _ => Err(Error::MalformedAccountData),
    }
}

/// What is left of `amount` after the venue's fee: 980009 parts in a million, rounded
/// down; none where the product does not fit 64 bits.
pub open spec fn after_fee(amount: u64) -> Result<u64, Error> {
    if amount * 980009 > u64::MAX {
        Err(Error::Router(ErrorCode::CalculationError))
    } else {
        Ok((amount * 980009 / 1000000) as u64)
    }
}

fn take_fee(amount: u64) -> (r: Result<u64, Error>)
    ensures
        r == after_fee(amount),
{
    if amount > u64::MAX / 980009 {
        proof {
            assert(amount * 980009 > u64::MAX) by (nonlinear_arith)
                requires
                    amount > u64::MAX / 980009,
            ;
        }
        return Err(Error::Router(ErrorCode::CalculationError));
    }
    proof {
        assert(amount * 980009 <= u64::MAX) by (nonlinear_arith)
            requires
                amount <= u64::MAX / 980009,
        ;
    }
    Ok(amount * 980009 / 1000000)
}

/// The tokens that `amount_in` of the native asset buys on a curve with the given virtual
/// reserves: the token reserve less what is left of it when the product of the reserves
/// stays the same.
pub open spec fn tokens_bought(reserves: (u64, u64), amount_in: u64) -> Result<u64, Error> {
    if reserves.1 + amount_in == 0 {
        Err(Error::Router(ErrorCode::CalculationError))
    } else {
        Ok((reserves.0 - reserves.0 * reserves.1 / (reserves.1 + amount_in)) as u64)
    }
}

/// The native asset that `token_amount_in` tokens bring on a curve with the given virtual
/// reserves: what the native reserve grows to when the product of the reserves stays the
/// same, less the reserve, cut to its low 64 bits. The curve must hold more tokens than are
/// sold.
pub open spec fn proceeds(reserves: (u64, u64), token_amount_in: u64) -> Result<u64, Error> {
    if token_amount_in >= reserves.0 {
        Err(Error::Router(ErrorCode::CalculationError))
    } else {
        Ok(
            ((reserves.0 * reserves.1 / (reserves.0 - token_amount_in) - reserves.1)
                % 0x1_0000_0000_0000_0000) as u64,
        )
    }
}

impl<'info> PumpfunBuyAccounts<'info> {
    /// The tokens that `amount_in` of the native asset buys on the curve as its account
    /// stands.
    pub open spec fn token_amount_out(&self, amount_in: u64) -> Result<u64, Error> {
        match reserves(self.bonding_curve.data@) {
            Err(e) => Err(e),
            Ok(held) => tokens_bought(held, amount_in),
        }
    }

    fn cal_token_amount_out(&self, amount_in: u64) -> (r: Result<u64, Error>)
        ensures
            r == self.token_amount_out(amount_in),
    {
        let (virtual_token_reserves, virtual_sol_reserves) = read_reserves(self.bonding_curve)?;
        proof {
            lemma_product_fits(virtual_token_reserves as int, virtual_sol_reserves as int);
        }
        let numerator: u128 = virtual_token_reserves as u128 * virtual_sol_reserves as u128;
        let denominator: u128 = virtual_sol_reserves as u128 + amount_in as u128;
        if denominator == 0 {
            return Err(Error::Router(ErrorCode::CalculationError));
        }
        let left: u128 = numerator / denominator;
        proof {
            lemma_quotient_bound(
                virtual_token_reserves as int,
                virtual_sol_reserves as int,
                denominator as int,
            );
        }
        let amount_out: u128 = virtual_token_reserves as u128 - left;
        Ok(amount_out as u64)
    }
}

impl<'info> PumpfunSellAccounts<'info> {
    /// The native asset that `token_amount_in` tokens bring on the curve as its account
    /// stands.
    pub open spec fn sol_amount_out(&self, token_amount_in: u64) -> Result<u64, Error> {
        match reserves(self.bonding_curve.data@) {
            Err(e) => Err(e),
            Ok(held) => proceeds(held, token_amount_in),
        }
    }

    fn cal_sol_amount_out(&self, token_amount_in: u64) -> (r: Result<u64, Error>)
        ensures
            r == self.sol_amount_out(token_amount_in),
    {
        let (virtual_token_reserves, virtual_sol_reserves) = read_reserves(self.bonding_curve)?;
        if token_amount_in >= virtual_token_reserves {
            return Err(Error::Router(ErrorCode::CalculationError));
        }
        proof {
            lemma_product_fits(virtual_token_reserves as int, virtual_sol_reserves as int);
        }
        let numerator: u128 = virtual_token_reserves as u128 * virtual_sol_reserves as u128;
        let denominator: u128 = virtual_token_reserves as u128 - token_amount_in as u128;
        let grown: u128 = numerator / denominator;
        proof {
            lemma_quotient_grows(
                virtual_token_reserves as int,
                virtual_sol_reserves as int,
                denominator as int,
            );
        }
        let sol_amount_out: u128 = grown - virtual_sol_reserves as u128;
        Ok((sol_amount_out % 0x1_0000_0000_0000_0000) as u64)
    }
}

/// The product of two 64-bit numbers fits 128 bits.
proof fn lemma_product_fits(a: int, b: int)
    requires
        0 <= a <= u64::MAX,
        0 <= b <= u64::MAX,
    ensures
        0 <= a * b <= u128::MAX,
{
    assert(0 <= a * b <= 0xffff_ffff_ffff_ffff * 0xffff_ffff_ffff_ffff) by (nonlinear_arith)
        requires
            0 <= a <= 0xffff_ffff_ffff_ffff,
            0 <= b <= 0xffff_ffff_ffff_ffff,
    ;
}

/// A product divided by no less than one of its factors is no more than the other.
proof fn lemma_quotient_bound(a: int, b: int, d: int)
    requires
        0 <= a,
        0 <= b <= d,
        0 < d,
    ensures
        0 <= a * b / d <= a,
{
    assert(a * b <= a * d) by (nonlinear_arith)
        requires
            0 <= a,
            0 <= b <= d,
    ;
    assert(0 <= a * b) by (nonlinear_arith)
        requires
            0 <= a,
            0 <= b,
    ;
    vstd::arithmetic::div_mod::lemma_div_is_ordered(a * b, a * d, d);
    vstd::arithmetic::div_mod::lemma_div_multiples_vanish(a, d);
    vstd::arithmetic::div_mod::lemma_div_pos_is_pos(a * b, d);
    assert(a * d == d * a) by (nonlinear_arith);
}

/// A product divided by no more than one of its factors is no less than the other.
proof fn lemma_quotient_grows(a: int, b: int, d: int)
    requires
        0 <= b,
        0 < d <= a,
    ensures
        b <= a * b / d,
{
    assert(d * b <= a * b) by (nonlinear_arith)
        requires
            0 <= b,
            0 < d <= a,
    ;
    vstd::arithmetic::div_mod::lemma_div_is_ordered(d * b, a * b, d);
    vstd::arithmetic::div_mod::lemma_div_multiples_vanish(b, d);
}

impl<'info> PumpfunBuyAccounts<'info> {
    /// The accounts of the venue's instruction, in the order the venue wants them.
    pub open spec fn buy_metas(&self) -> Seq<AccountMeta> {
        seq![
            readonly(self.global.key, false),
            writable(self.fee_recipient.key, false),
            readonly(self.mint.info.key, false),
            writable(self.bonding_curve.key, false),
            writable(self.associated_bonding_curve.key, false),
            writable(self.swap_destination_token.info.key, false),
            writable(self.swap_authority_pubkey.key, true),
            readonly(self.system_program.info.key, false),
            readonly(self.token_program.info.key, false),
            readonly(self.rent.key, false),
            readonly(self.event_authority.key, false),
            readonly(self.dex_program_id.key, false),
        ]
    }

    /// The accounts handed to the call.
    pub open spec fn buy_infos(&self, offset: usize) -> Seq<AccountRef> {
        seq![
            account_ref(self.global.key, offset, 4),
            account_ref(self.fee_recipient.key, offset, 5),
            account_ref(self.mint.info.key, offset, 6),
            account_ref(self.bonding_curve.key, offset, 7),
            account_ref(self.associated_bonding_curve.key, offset, 8),
            account_ref(self.swap_destination_token.info.key, offset, 3),
            account_ref(self.swap_authority_pubkey.key, offset, 1),
            account_ref(self.system_program.info.key, offset, 9),
            account_ref(self.token_program.info.key, offset, 10),
            account_ref(self.rent.key, offset, 11),
            account_ref(self.event_authority.key, offset, 12),
            account_ref(self.dex_program_id.key, offset, 0),
            account_ref(self.swap_source_token.info.key, offset, 2),
        ]
    }

    /// The call these accounts make for `amount_in` in the given hop, or why none is made.
    pub open spec fn buy(
        &self,
        amount_in: u64,
        offset: usize,
        hop_accounts: HopAccounts,
        hop: usize,
        proxy_swap: bool,
    ) -> Result<InvocationView, Error> {
        if self.dex_program_id.key != address(PUMPFUN_PROGRAM) {
            Err(Error::Router(ErrorCode::InvalidProgramId))
        } else {
            match before_check_error(
                self.swap_authority_pubkey,
                self.swap_source_token.info.key,
                self.swap_destination_token.info.key,
                hop_accounts,
                hop,
                proxy_swap,
            ) {
                Some(e) => Err(e),
                None => {
                    match after_fee(amount_in) {
                        Err(e) => Err(e),
                        Ok(real_amount_in) => {
                            match self.token_amount_out(real_amount_in) {
                                Err(e) => Err(e),
                                Ok(amount_out) => {
                                    prepared(
                                        &PumpfunBuyProcessor,
                                        self.buy_infos(offset),
                                        self.swap_source_token.info.key,
                                        self.swap_destination_token,
                                        (offset + 3) as usize,
                                        InstructionView {
                                            program_id: self.dex_program_id.key,
                                            accounts: self.buy_metas(),
                                            data: buy_data(amount_out, amount_in),
                                        },
                                        hop,
                                        offset,
                                        BUY_ACCOUNTS_LEN,
                                        proxy_swap,
                                    )
                                },
                            }
                        },
                    }
                },
            }
        }
    }
}

impl<'info> PumpfunSellAccounts<'info> {
    /// The accounts of the venue's instruction, in the order the venue wants them.
    pub open spec fn sell_metas(&self) -> Seq<AccountMeta> {
        seq![
            readonly(self.global.key, false),
            writable(self.fee_recipient.key, false),
            readonly(self.mint.info.key, false),
            writable(self.bonding_curve.key, false),
            writable(self.associated_bonding_curve.key, false),
            writable(self.swap_source_token.info.key, false),
            writable(self.swap_authority_pubkey.key, true),
            readonly(self.system_program.info.key, false),
            readonly(self.associated_token_program.info.key, false),
            readonly(self.token_program.info.key, false),
            readonly(self.event_authority.key, false),
            readonly(self.dex_program_id.key, false),
        ]
    }

    /// The accounts handed to the call.
    pub open spec fn sell_infos(&self, offset: usize) -> Seq<AccountRef> {
        seq![
            account_ref(self.global.key, offset, 4),
            account_ref(self.fee_recipient.key, offset, 5),
            account_ref(self.mint.info.key, offset, 6),
            account_ref(self.bonding_curve.key, offset, 7),
            account_ref(self.associated_bonding_curve.key, offset, 8),
            account_ref(self.swap_source_token.info.key, offset, 2),
            account_ref(self.swap_authority_pubkey.key, offset, 1),
            account_ref(self.system_program.info.key, offset, 9),
            account_ref(self.associated_token_program.info.key, offset, 10),
            account_ref(self.token_program.info.key, offset, 11),
            account_ref(self.event_authority.key, offset, 12),
            account_ref(self.dex_program_id.key, offset, 0),
            account_ref(self.swap_destination_token.info.key, offset, 3),
        ]
    }

    /// The call these accounts make for `amount_in` in the given hop, or why none is made.
    pub open spec fn sell(
        &self,
        amount_in: u64,
        offset: usize,
        hop_accounts: HopAccounts,
        hop: usize,
        proxy_swap: bool,
    ) -> Result<InvocationView, Error> {
        if self.dex_program_id.key != address(PUMPFUN_PROGRAM) {
            Err(Error::Router(ErrorCode::InvalidProgramId))
        } else {
            match before_check_error(
                self.swap_authority_pubkey,
                self.swap_source_token.info.key,
                self.swap_destination_token.info.key,
                hop_accounts,
                hop,
                proxy_swap,
            ) {
                Some(e) => Err(e),
                None => {
                    match self.sol_amount_out(amount_in) {
                        Err(e) => Err(e),
                        Ok(sol_amount_out) => {
                            match after_fee(sol_amount_out) {
                                Err(e) => Err(e),
                                Ok(min_sol_amount_out) => {
                                    prepared(
                                        &(PumpfunSellProcessor { amount: min_sol_amount_out }),
                                        self.sell_infos(offset),
                                        self.swap_source_token.info.key,
                                        self.swap_destination_token,
                                        (offset + 3) as usize,
                                        InstructionView {
                                            program_id: self.dex_program_id.key,
                                            accounts: self.sell_metas(),
                                            data: sell_data(amount_in, min_sol_amount_out),
                                        },
                                        hop,
                                        offset,
                                        SELL_ACCOUNTS_LEN,
                                        proxy_swap,
                                    )
                                },
                            }
                        },
                    }
                },
            }
        }
    }
}

/// What `buy` makes of the accounts at the cursor: the call, or the reason why none is made. It
/// reads no account outside the venue's part of the list.
pub open spec fn buy_call(
    remaining_accounts: Seq<AccountInfo>,
    amount_in: u64,
    offset: usize,
    hop_accounts: HopAccounts,
    hop: usize,
    proxy_swap: bool,
) -> Result<InvocationView, Error> {
    if remaining_accounts.len() < offset + BUY_ACCOUNTS_LEN {
        Err(Error::Router(ErrorCode::InvalidAccountsLength))
    } else {
        match PumpfunBuyAccounts::parsed(
            remaining_accounts.subrange(offset as int, offset + BUY_ACCOUNTS_LEN),
        ) {
            Err(e) => Err(e),
            Ok(swap_accounts) => swap_accounts.buy(
                amount_in,
                offset,
                hop_accounts,
                hop,
                proxy_swap,
            ),
        }
    }
}

/// What `buy` makes of the venue's accounts once they are read.
pub fn handle_buy(
    swap_accounts: &PumpfunBuyAccounts,
    amount_in: u64,
    offset: usize,
    hop_accounts: &HopAccounts,
    hop: usize,
    proxy_swap: bool,
) -> (r: Result<Invocation, Error>)
    requires
        offset + BUY_ACCOUNTS_LEN <= usize::MAX,
    ensures
        yields(r, swap_accounts.buy(amount_in, offset, *hop_accounts, hop, proxy_swap)),
{
    if !swap_accounts.dex_program_id.key.is(PUMPFUN_PROGRAM) {
        return Err(Error::Router(ErrorCode::InvalidProgramId));
    }

    // check hop accounts & swap authority
    let swap_source_token = swap_accounts.swap_source_token.key();
    let swap_destination_token = swap_accounts.swap_destination_token.key();
    pumpfun_before_check(
        swap_accounts.swap_authority_pubkey,
        swap_source_token,
        swap_accounts.swap_source_token,
        swap_destination_token,
        hop_accounts,
        hop,
        proxy_swap,
    )?;

    let real_amount_in: u64 = take_fee(amount_in)?;
    let amount_out: u64 = swap_accounts.cal_token_amount_out(real_amount_in)?;
    let data = pack_buy_instruction(amount_out, amount_in);

    let accounts = vec![
        AccountMeta::new_readonly(swap_accounts.global.key, false),
        AccountMeta::new(swap_accounts.fee_recipient.key, false),
        AccountMeta::new_readonly(swap_accounts.mint.info.key, false),
        AccountMeta::new(swap_accounts.bonding_curve.key, false),
        AccountMeta::new(swap_accounts.associated_bonding_curve.key, false),
        AccountMeta::new(swap_accounts.swap_destination_token.info.key, false),
        AccountMeta::new(swap_accounts.swap_authority_pubkey.key, true),
        AccountMeta::new_readonly(swap_accounts.system_program.info.key, false),
        AccountMeta::new_readonly(swap_accounts.token_program.info.key, false),
        AccountMeta::new_readonly(swap_accounts.rent.key, false),
        AccountMeta::new_readonly(swap_accounts.event_authority.key, false),
        AccountMeta::new_readonly(swap_accounts.dex_program_id.key, false),
    ];

    let account_infos = vec![
        AccountRef { place: offset + 4, key: swap_accounts.global.key },
        AccountRef { place: offset + 5, key: swap_accounts.fee_recipient.key },
        AccountRef { place: offset + 6, key: swap_accounts.mint.info.key },
        AccountRef { place: offset + 7, key: swap_accounts.bonding_curve.key },
        AccountRef { place: offset + 8, key: swap_accounts.associated_bonding_curve.key },
        AccountRef { place: offset + 3, key: swap_accounts.swap_destination_token.info.key },
        AccountRef { place: offset + 1, key: swap_accounts.swap_authority_pubkey.key },
        AccountRef { place: offset + 9, key: swap_accounts.system_program.info.key },
        AccountRef { place: offset + 10, key: swap_accounts.token_program.info.key },
        AccountRef { place: offset + 11, key: swap_accounts.rent.key },
        AccountRef { place: offset + 12, key: swap_accounts.event_authority.key },
        AccountRef { place: offset, key: swap_accounts.dex_program_id.key },
        AccountRef { place: offset + 2, key: swap_accounts.swap_source_token.info.key },
    ];
    proof {
        assert(accounts@ =~= swap_accounts.buy_metas());
        assert(account_infos@ =~= swap_accounts.buy_infos(offset));
    }

    let instruction = Instruction {
        program_id: swap_accounts.dex_program_id.key,
        accounts,
        data,
    };

    invoke_process(
        &PumpfunBuyProcessor,
        account_infos,
        swap_source_token,
        &swap_accounts.swap_destination_token,
        offset + 3,
        instruction,
        hop,
        offset,
        BUY_ACCOUNTS_LEN,
        proxy_swap,
    )
}

/// Prepares a purchase on a bonding curve for `amount_in` of the native asset. The tokens to
/// buy are what the curve gives for the amount less the venue's fee; the amount itself is the
/// most to pay.
pub fn buy<'info>(
    remaining_accounts: &'info [AccountInfo],
    amount_in: u64,
    offset: usize,
    hop_accounts: &HopAccounts,
    hop: usize,
    proxy_swap: bool,
) -> (r: Result<Invocation, Error>)
    ensures
        yields(
            r,
            buy_call(remaining_accounts@, amount_in, offset, *hop_accounts, hop, proxy_swap),
        ),
{
    if remaining_accounts.len() < BUY_ACCOUNTS_LEN || offset > remaining_accounts.len()
        - BUY_ACCOUNTS_LEN {
        return Err(Error::Router(ErrorCode::InvalidAccountsLength));
    }
    let swap_accounts = PumpfunBuyAccounts::parse_accounts(remaining_accounts, offset)?;
    handle_buy(&swap_accounts, amount_in, offset, hop_accounts, hop, proxy_swap)
}

/// Every call that `buy` hands out continues the hop chain, draws on the venue's own
/// accounts, and leaves the cursor right behind them.
pub proof fn lemma_buy_call(
    remaining_accounts: Seq<AccountInfo>,
    amount_in: u64,
    offset: usize,
    hop_accounts: HopAccounts,
    hop: usize,
    proxy_swap: bool,
)
    requires
        remaining_accounts.len() <= usize::MAX,
    ensures
        buy_call(
            remaining_accounts,
            amount_in,
            offset,
            hop_accounts,
            hop,
            proxy_swap,
        ) matches Ok(invocation) ==> {
            &&& continuity_error(
                invocation.swap_source_token,
                invocation.swap_destination_token,
                hop_accounts,
            ) is None
            &&& invocation.next_offset == offset + BUY_ACCOUNTS_LEN
            &&& invocation.next_offset <= remaining_accounts.len()
            &&& offset <= invocation.destination < invocation.next_offset
        },
{
}

/// A call that `buy` hands out is made of the venue's part of the account list alone:
/// any list with the same accounts in that part gives the same call.
pub proof fn lemma_buy_call_local(
    first: Seq<AccountInfo>,
    second: Seq<AccountInfo>,
    amount_in: u64,
    offset: usize,
    hop_accounts: HopAccounts,
    hop: usize,
    proxy_swap: bool,
)
    requires
        first.len() <= usize::MAX,
        buy_call(
            first,
            amount_in,
            offset,
            hop_accounts,
            hop,
            proxy_swap,
        ) matches Ok(invocation) && second.len()
            >= invocation.next_offset && first.subrange(
            offset as int,
            invocation.next_offset as int,
        ) == second.subrange(offset as int, invocation.next_offset as int),
    ensures
        buy_call(
            second,
            amount_in,
            offset,
            hop_accounts,
            hop,
            proxy_swap,
        ) == buy_call(first, amount_in, offset, hop_accounts, hop, proxy_swap),
{
}

/// What `buy` makes of the accounts depends on what they hold and on nothing else: two
/// lists of accounts that hold the same give the same call, or the same failure.
pub proof fn lemma_buy_call_same(
    first: Seq<AccountInfo>,
    second: Seq<AccountInfo>,
    amount_in: u64,
    offset: usize,
    hop_accounts: HopAccounts,
    hop: usize,
    proxy_swap: bool,
)
    requires
        same_accounts(first, second),
    ensures
        buy_call(
            second,
            amount_in,
            offset,
            hop_accounts,
            hop,
            proxy_swap,
        ) == buy_call(first, amount_in, offset, hop_accounts, hop, proxy_swap),
{
    if first.len() >= offset + BUY_ACCOUNTS_LEN {
        let taken = offset + BUY_ACCOUNTS_LEN;
        let ours = first.subrange(offset as int, taken);
        let theirs = second.subrange(offset as int, taken);
        assert forall|i: int| 0 <= i < BUY_ACCOUNTS_LEN implies same_account(
            &#[trigger] ours[i],
            &theirs[i],
        ) by {
            assert(same_account(&first[offset + i], &second[offset + i]));
        }
    }
}

/// `buy` holds a call to the hop chain before it looks at anything else that the chain
/// bears on. A call that it would hand out at the start of a chain is handed out
/// unchanged where it continues the chain it is given, and is refused for the break
/// where it does not.
pub proof fn lemma_buy_call_chained(
    remaining_accounts: Seq<AccountInfo>,
    amount_in: u64,
    offset: usize,
    hop_accounts: HopAccounts,
    hop: usize,
    proxy_swap: bool,
)
    ensures
        buy_call(
            remaining_accounts,
            amount_in,
            offset,
            HopAccounts::fresh(address(ZERO_ADDRESS)),
            hop,
            proxy_swap,
        ) matches Ok(invocation) ==> buy_call(
            remaining_accounts,
            amount_in,
            offset,
            hop_accounts,
            hop,
            proxy_swap,
        ) == chained(invocation, hop_accounts),
{
}

/// What `sell` makes of the accounts at the cursor: the call, or the reason why none is made.
/// It reads no account outside the venue's part of the list.
pub open spec fn sell_call(
    remaining_accounts: Seq<AccountInfo>,
    amount_in: u64,
    offset: usize,
    hop_accounts: HopAccounts,
    hop: usize,
    proxy_swap: bool,
) -> Result<InvocationView, Error> {
    if remaining_accounts.len() < offset + SELL_ACCOUNTS_LEN {
        Err(Error::Router(ErrorCode::InvalidAccountsLength))
    } else {
        match PumpfunSellAccounts::parsed(
            remaining_accounts.subrange(offset as int, offset + SELL_ACCOUNTS_LEN),
        ) {
            Err(e) => Err(e),
            Ok(swap_accounts) => swap_accounts.sell(
                amount_in,
                offset,
                hop_accounts,
                hop,
                proxy_swap,
            ),
        }
    }
}

/// What `sell` makes of the venue's accounts once they are read.
pub fn handle_sell(
    swap_accounts: &PumpfunSellAccounts,
    amount_in: u64,
    offset: usize,
    hop_accounts: &HopAccounts,
    hop: usize,
    proxy_swap: bool,
) -> (r: Result<Invocation, Error>)
    requires
        offset + SELL_ACCOUNTS_LEN <= usize::MAX,
    ensures
        yields(r, swap_accounts.sell(amount_in, offset, *hop_accounts, hop, proxy_swap)),
{
    if !swap_accounts.dex_program_id.key.is(PUMPFUN_PROGRAM) {
        return Err(Error::Router(ErrorCode::InvalidProgramId));
    }

    // check hop accounts & swap authority
    let swap_source_token = swap_accounts.swap_source_token.key();
    let swap_destination_token = swap_accounts.swap_destination_token.key();
    before_check(
        swap_accounts.swap_authority_pubkey,
        swap_source_token,
        swap_destination_token,
        hop_accounts,
        hop,
        proxy_swap,
    )?;

    let sol_amount_out: u64 = swap_accounts.cal_sol_amount_out(amount_in)?;
    let min_sol_amount_out: u64 = take_fee(sol_amount_out)?;
    let data = pack_sell_instruction(amount_in, min_sol_amount_out);

    let accounts = vec![
        AccountMeta::new_readonly(swap_accounts.global.key, false),
        AccountMeta::new(swap_accounts.fee_recipient.key, false),
        AccountMeta::new_readonly(swap_accounts.mint.info.key, false),
        AccountMeta::new(swap_accounts.bonding_curve.key, false),
        AccountMeta::new(swap_accounts.associated_bonding_curve.key, false),
        AccountMeta::new(swap_accounts.swap_source_token.info.key, false),
        AccountMeta::new(swap_accounts.swap_authority_pubkey.key, true),
        AccountMeta::new_readonly(swap_accounts.system_program.info.key, false),
        AccountMeta::new_readonly(swap_accounts.associated_token_program.info.key, false),
        AccountMeta::new_readonly(swap_accounts.token_program.info.key, false),
        AccountMeta::new_readonly(swap_accounts.event_authority.key, false),
        AccountMeta::new_readonly(swap_accounts.dex_program_id.key, false),
    ];

    let account_infos = vec![
        AccountRef { place: offset + 4, key: swap_accounts.global.key },
        AccountRef { place: offset + 5, key: swap_accounts.fee_recipient.key },
        AccountRef { place: offset + 6, key: swap_accounts.mint.info.key },
        AccountRef { place: offset + 7, key: swap_accounts.bonding_curve.key },
        AccountRef { place: offset + 8, key: swap_accounts.associated_bonding_curve.key },
        AccountRef { place: offset + 2, key: swap_accounts.swap_source_token.info.key },
        AccountRef { place: offset + 1, key: swap_accounts.swap_authority_pubkey.key },
        AccountRef { place: offset + 9, key: swap_accounts.system_program.info.key },
        AccountRef { place: offset + 10, key: swap_accounts.associated_token_program.info.key },
        AccountRef { place: offset + 11, key: swap_accounts.token_program.info.key },
        AccountRef { place: offset + 12, key: swap_accounts.event_authority.key },
        AccountRef { place: offset, key: swap_accounts.dex_program_id.key },
        AccountRef { place: offset + 3, key: swap_accounts.swap_destination_token.info.key },
    ];
    proof {
        assert(accounts@ =~= swap_accounts.sell_metas());
        assert(account_infos@ =~= swap_accounts.sell_infos(offset));
    }

    let instruction = Instruction {
        program_id: swap_accounts.dex_program_id.key,
        accounts,
        data,
    };

    invoke_process(
        &(PumpfunSellProcessor { amount: min_sol_amount_out }),
        account_infos,
        swap_source_token,
        &swap_accounts.swap_destination_token,
        offset + 3,
        instruction,
        hop,
        offset,
        SELL_ACCOUNTS_LEN,
        proxy_swap,
    )
}

/// Prepares a sale on a bonding curve of `amount_in` tokens. The least to take is what the
/// curve gives for them less the venue's fee; that amount is moved on into the destination
/// after the call.
pub fn sell<'info>(
    remaining_accounts: &'info [AccountInfo],
    amount_in: u64,
    offset: usize,
    hop_accounts: &HopAccounts,
    hop: usize,
    proxy_swap: bool,
) -> (r: Result<Invocation, Error>)
    ensures
        yields(
            r,
            sell_call(remaining_accounts@, amount_in, offset, *hop_accounts, hop, proxy_swap),
        ),
{
    if remaining_accounts.len() < SELL_ACCOUNTS_LEN || offset > remaining_accounts.len()
        - SELL_ACCOUNTS_LEN {
        return Err(Error::Router(ErrorCode::InvalidAccountsLength));
    }
    let swap_accounts = PumpfunSellAccounts::parse_accounts(remaining_accounts, offset)?;
    handle_sell(&swap_accounts, amount_in, offset, hop_accounts, hop, proxy_swap)
}

/// Every call that `sell` hands out continues the hop chain, draws on the venue's own
/// accounts, and leaves the cursor right behind them.
pub proof fn lemma_sell_call(
    remaining_accounts: Seq<AccountInfo>,
    amount_in: u64,
    offset: usize,
    hop_accounts: HopAccounts,
    hop: usize,
    proxy_swap: bool,
)
    requires
        remaining_accounts.len() <= usize::MAX,
    ensures
        sell_call(
            remaining_accounts,
            amount_in,
            offset,
            hop_accounts,
            hop,
            proxy_swap,
        ) matches Ok(invocation) ==> {
            &&& continuity_error(
                invocation.swap_source_token,
                invocation.swap_destination_token,
                hop_accounts,
            ) is None
            &&& invocation.next_offset == offset + SELL_ACCOUNTS_LEN
            &&& invocation.next_offset <= remaining_accounts.len()
            &&& offset <= invocation.destination < invocation.next_offset
        },
{
}

/// A call that `sell` hands out is made of the venue's part of the account list alone:
/// any list with the same accounts in that part gives the same call.
pub proof fn lemma_sell_call_local(
    first: Seq<AccountInfo>,
    second: Seq<AccountInfo>,
    amount_in: u64,
    offset: usize,
    hop_accounts: HopAccounts,
    hop: usize,
    proxy_swap: bool,
)
    requires
        first.len() <= usize::MAX,
        sell_call(
            first,
            amount_in,
            offset,
            hop_accounts,
            hop,
            proxy_swap,
        ) matches Ok(invocation) && second.len()
            >= invocation.next_offset && first.subrange(
            offset as int,
            invocation.next_offset as int,
        ) == second.subrange(offset as int, invocation.next_offset as int),
    ensures
        sell_call(
            second,
            amount_in,
            offset,
            hop_accounts,
            hop,
            proxy_swap,
        ) == sell_call(first, amount_in, offset, hop_accounts, hop, proxy_swap),
{
}

/// What `sell` makes of the accounts depends on what they hold and on nothing else: two
/// lists of accounts that hold the same give the same call, or the same failure.
pub proof fn lemma_sell_call_same(
    first: Seq<AccountInfo>,
    second: Seq<AccountInfo>,
    amount_in: u64,
    offset: usize,
    hop_accounts: HopAccounts,
    hop: usize,
    proxy_swap: bool,
)
    requires
        same_accounts(first, second),
    ensures
        sell_call(
            second,
            amount_in,
            offset,
            hop_accounts,
            hop,
            proxy_swap,
        ) == sell_call(first, amount_in, offset, hop_accounts, hop, proxy_swap),
{
    if first.len() >= offset + SELL_ACCOUNTS_LEN {
        let taken = offset + SELL_ACCOUNTS_LEN;
        let ours = first.subrange(offset as int, taken);
        let theirs = second.subrange(offset as int, taken);
        assert forall|i: int| 0 <= i < SELL_ACCOUNTS_LEN implies same_account(
            &#[trigger] ours[i],
            &theirs[i],
        ) by {
            assert(same_account(&first[offset + i], &second[offset + i]));
        }
    }
}

/// `sell` holds a call to the hop chain before it looks at anything else that the chain
/// bears on. A call that it would hand out at the start of a chain is handed out
/// unchanged where it continues the chain it is given, and is refused for the break
/// where it does not.
pub proof fn lemma_sell_call_chained(
    remaining_accounts: Seq<AccountInfo>,
    amount_in: u64,
    offset: usize,
    hop_accounts: HopAccounts,
    hop: usize,
    proxy_swap: bool,
)
    ensures
        sell_call(
            remaining_accounts,
            amount_in,
            offset,
            HopAccounts::fresh(address(ZERO_ADDRESS)),
            hop,
            proxy_swap,
        ) matches Ok(invocation) ==> sell_call(
            remaining_accounts,
            amount_in,
            offset,
            hop_accounts,
            hop,
            proxy_swap,
        ) == chained(invocation, hop_accounts),
{
}

} // verus!
