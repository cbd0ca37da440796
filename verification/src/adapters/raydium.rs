//! Raydium's pools: constant-product, stable, concentrated-liquidity.

use crate::account::{
    address, readonly, writable, AccountInfo, AccountMeta, Instruction, InstructionView, Interface,
    Mint, Program, ProgramKind, TokenAccount,
};
use crate::adapters::common::{
    account_ref, before_check, before_check_error, chained, continuity_error, invoke_process,
    no_call, no_calls, optional_meta, optional_ref, prepared, same_account, same_accounts, yields,
    AccountRef, Call, CallView, DexProcessor, Invocation, InvocationView,
};
use crate::bytes::{le_bytes, push_le};
use crate::constants::{
    CPSWAP_SELECTOR, RAYDIUM_CLMM_PROGRAM, RAYDIUM_CPMM_PROGRAM, RAYDIUM_STABLE_PROGRAM,
    RAYDIUM_SWAP_PROGRAM, SWAP_SELECTOR, SWAP_V2_SELECTOR, ZERO_ADDRESS,
};
use crate::error::{Error, ErrorCode};
use crate::instructions::common::HopAccounts;
use vstd::prelude::*;

verus! {

/// Length of the venue's instruction payload.
pub const ARGS_LEN: usize = 17;

/// Length of the payload for a concentrated-liquidity pool.
pub const ARGS_CLMM_LEN: usize = 41;

/// Length of the payload for a pool without an order book.
pub const ARGS_CPMM_LEN: usize = 24;

/// Number of accounts the venue takes from the flat account list.
pub const ACCOUNTS_LEN: usize = 19;

/// Number of accounts a stable pool takes.
pub const STABLE_ACCOUNTS_LEN: usize = 19;

/// Number of accounts a concentrated-liquidity pool takes.
pub const CLMM_ACCOUNTS_LEN: usize = 14;

/// Number of accounts a concentrated-liquidity pool of either token program takes.
pub const CLMM_V2_ACCOUNTS_LEN: usize = 18;

/// Number of accounts a pool without an order book takes.
pub const CPMM_ACCOUNTS_LEN: usize = 14;

/// Raydium's pools add nothing around their call.
pub struct RaydiumSwapProcessor;

impl DexProcessor for RaydiumSwapProcessor {
    open spec fn calls_before(
        &self,
        account_infos: Seq<AccountRef>,
    ) -> Result<Seq<CallView>, Error> {
        no_calls()
    }

    open spec fn calls_after(
        &self,
        account_infos: Seq<AccountRef>,
    ) -> Result<Seq<CallView>, Error> {
        no_calls()
    }

    fn before_invoke(&self, account_infos: &Vec<AccountRef>) -> (r: Result<Vec<Call>, Error>) {
        no_call()
    }

    fn after_invoke(&self, account_infos: &Vec<AccountRef>) -> (r: Result<Vec<Call>, Error>) {
        no_call()
    }
}

/// The accounts of one exchange on a constant-product pool.
#[derive(Clone, Copy, Debug)]
pub struct RaydiumSwapAccounts<'info> {
    pub dex_program_id: &'info AccountInfo,
    pub swap_authority_pubkey: &'info AccountInfo,
    pub swap_source_token: TokenAccount<'info>,
    pub swap_destination_token: TokenAccount<'info>,
    pub token_program: Program<'info>,
    pub amm_id: &'info AccountInfo,
    pub amm_authority: &'info AccountInfo,
    pub amm_open_orders: &'info AccountInfo,
    pub amm_target_orders: &'info AccountInfo,
    pub pool_coin_token_account: TokenAccount<'info>,
    pub pool_pc_token_account: TokenAccount<'info>,
    pub serum_program_id: &'info AccountInfo,
    pub serum_market: &'info AccountInfo,
    pub serum_bids: &'info AccountInfo,
    pub serum_asks: &'info AccountInfo,
    pub serum_event_queue: &'info AccountInfo,
    pub serum_coin_vault_account: TokenAccount<'info>,
    pub serum_pc_vault_account: TokenAccount<'info>,
    pub serum_vault_signer: &'info AccountInfo,
}

/// The accounts of one exchange on a stable pool.
#[derive(Clone, Copy, Debug)]
pub struct RaydiumStableAccounts<'info> {
    pub dex_program_id: &'info AccountInfo,
    pub swap_authority_pubkey: &'info AccountInfo,
    pub swap_source_token: TokenAccount<'info>,
    pub swap_destination_token: TokenAccount<'info>,
    pub token_program: Program<'info>,
    pub amm_id: &'info AccountInfo,
    pub amm_authority: &'info AccountInfo,
    pub amm_open_orders: &'info AccountInfo,
    pub pool_coin_token_account: TokenAccount<'info>,
    pub pool_pc_token_account: TokenAccount<'info>,
    pub model_data_account: &'info AccountInfo,
    pub serum_program_id: &'info AccountInfo,
    pub serum_market: &'info AccountInfo,
    pub serum_bids: &'info AccountInfo,
    pub serum_asks: &'info AccountInfo,
    pub serum_event_queue: &'info AccountInfo,
    pub serum_coin_vault_account: TokenAccount<'info>,
    pub serum_pc_vault_account: TokenAccount<'info>,
    pub serum_vault_signer: &'info AccountInfo,
}

/// The accounts of one exchange on a concentrated-liquidity pool. The last two tick
/// arrays are optional: the address of zeros stands for none.
#[derive(Clone, Copy, Debug)]
pub struct RaydiumClmmAccounts<'info> {
    pub dex_program_id: &'info AccountInfo,
    pub swap_authority_pubkey: &'info AccountInfo,
    pub swap_source_token: TokenAccount<'info>,
    pub swap_destination_token: TokenAccount<'info>,
    pub amm_config_id: &'info AccountInfo,
    pub pool_id: &'info AccountInfo,
    pub input_vault: &'info AccountInfo,
    pub output_vault: &'info AccountInfo,
    pub observation_id: &'info AccountInfo,
    pub tick_array0: &'info AccountInfo,
    pub ex_bitmap: &'info AccountInfo,
    pub tick_array1: &'info AccountInfo,
    pub tick_array2: &'info AccountInfo,
    pub token_program: Program<'info>,
}

/// The accounts of one exchange on a concentrated-liquidity pool that may hold tokens of
/// either token program. The last two tick arrays are optional: the address of zeros
/// stands for none.
#[derive(Clone, Copy, Debug)]
pub struct RaydiumClmmV2Accounts<'info> {
    pub dex_program_id: &'info AccountInfo,
    pub swap_authority_pubkey: &'info AccountInfo,
    pub swap_source_token: TokenAccount<'info>,
    pub swap_destination_token: TokenAccount<'info>,
    pub amm_config_id: &'info AccountInfo,
    pub pool_id: &'info AccountInfo,
    pub input_vault: TokenAccount<'info>,
    pub output_vault: TokenAccount<'info>,
    pub observation_id: &'info AccountInfo,
    pub token_program: Program<'info>,
    pub token_program_2022: Program<'info>,
    pub memo_program: &'info AccountInfo,
    pub input_vault_mint: Mint<'info>,
    pub output_vault_mint: Mint<'info>,
    pub ex_bitmap: &'info AccountInfo,
    pub tick_array0: &'info AccountInfo,
    pub tick_array1: &'info AccountInfo,
    pub tick_array2: &'info AccountInfo,
}

/// The accounts of one exchange on a constant-product pool without an order book.
#[derive(Clone, Copy, Debug)]
pub struct RaydiumCpmmAccounts<'info> {
    pub dex_program_id: &'info AccountInfo,
    pub swap_authority_pubkey: &'info AccountInfo,
    pub swap_source_token: TokenAccount<'info>,
    pub swap_destination_token: TokenAccount<'info>,
    pub authority: &'info AccountInfo,
    pub amm_config: &'info AccountInfo,
    pub pool_state: &'info AccountInfo,
    pub input_vault: TokenAccount<'info>,
    pub output_vault: TokenAccount<'info>,
    pub input_token_program: Interface<'info>,
    pub output_token_program: Interface<'info>,
    pub input_token_mint: Mint<'info>,
    pub output_token_mint: Mint<'info>,
    pub observation_state: &'info AccountInfo,
}

impl<'info> RaydiumSwapAccounts<'info> {
    /// The accounts of `slice`, the venue's part of the flat list, each read as what its
    /// place asks for; or the failure of the first that is not that.
    pub open spec fn parsed(slice: Seq<AccountInfo>) -> Result<RaydiumSwapAccounts<'info>, Error> {
        let swap_source_token = TokenAccount::parsed(&slice[2]);
        let swap_destination_token = TokenAccount::parsed(&slice[3]);
        let token_program = Program::parsed(&slice[4], ProgramKind::Token);
        let pool_coin_token_account = TokenAccount::parsed(&slice[9]);
        let pool_pc_token_account = TokenAccount::parsed(&slice[10]);
        let serum_coin_vault_account = TokenAccount::parsed(&slice[16]);
        let serum_pc_vault_account = TokenAccount::parsed(&slice[17]);
        if swap_source_token is Err {
            Err(swap_source_token->Err_0)
        } else if swap_destination_token is Err {
            Err(swap_destination_token->Err_0)
        } else if token_program is Err {
            Err(token_program->Err_0)
        } else if pool_coin_token_account is Err {
            Err(pool_coin_token_account->Err_0)
        } else if pool_pc_token_account is Err {
            Err(pool_pc_token_account->Err_0)
        } else if serum_coin_vault_account is Err {
            Err(serum_coin_vault_account->Err_0)
        } else if serum_pc_vault_account is Err {
            Err(serum_pc_vault_account->Err_0)
        } else {
            Ok(
                RaydiumSwapAccounts {
                    dex_program_id: &slice[0],
                    swap_authority_pubkey: &slice[1],
                    swap_source_token: swap_source_token->Ok_0,
                    swap_destination_token: swap_destination_token->Ok_0,
                    token_program: token_program->Ok_0,
                    amm_id: &slice[5],
                    amm_authority: &slice[6],
                    amm_open_orders: &slice[7],
                    amm_target_orders: &slice[8],
                    pool_coin_token_account: pool_coin_token_account->Ok_0,
                    pool_pc_token_account: pool_pc_token_account->Ok_0,
                    serum_program_id: &slice[11],
                    serum_market: &slice[12],
                    serum_bids: &slice[13],
                    serum_asks: &slice[14],
                    serum_event_queue: &slice[15],
                    serum_coin_vault_account: serum_coin_vault_account->Ok_0,
                    serum_pc_vault_account: serum_pc_vault_account->Ok_0,
                    serum_vault_signer: &slice[18],
                },
            )
        }
    }

    fn parse_accounts(accounts: &'info [AccountInfo], offset: usize) -> (r: Result<
        RaydiumSwapAccounts<'info>,
        Error,
    >)
        requires
            offset + ACCOUNTS_LEN <= accounts@.len(),
        ensures
            r == Self::parsed(accounts@.subrange(offset as int, offset + ACCOUNTS_LEN)),
    {
        Ok(
            RaydiumSwapAccounts {
                dex_program_id: &accounts[offset],
                swap_authority_pubkey: &accounts[offset + 1],
                swap_source_token: TokenAccount::try_from(&accounts[offset + 2])?,
                swap_destination_token: TokenAccount::try_from(&accounts[offset + 3])?,
                token_program: Program::try_from(&accounts[offset + 4], ProgramKind::Token)?,
                amm_id: &accounts[offset + 5],
                amm_authority: &accounts[offset + 6],
                amm_open_orders: &accounts[offset + 7],
                amm_target_orders: &accounts[offset + 8],
                pool_coin_token_account: TokenAccount::try_from(&accounts[offset + 9])?,
                pool_pc_token_account: TokenAccount::try_from(&accounts[offset + 10])?,
                serum_program_id: &accounts[offset + 11],
                serum_market: &accounts[offset + 12],
                serum_bids: &accounts[offset + 13],
                serum_asks: &accounts[offset + 14],
                serum_event_queue: &accounts[offset + 15],
                serum_coin_vault_account: TokenAccount::try_from(&accounts[offset + 16])?,
                serum_pc_vault_account: TokenAccount::try_from(&accounts[offset + 17])?,
                serum_vault_signer: &accounts[offset + 18],
            },
        )
    }
}

impl<'info> RaydiumStableAccounts<'info> {
    /// The accounts of `slice`, the venue's part of the flat list, each read as what its
    /// place asks for; or the failure of the first that is not that.
    pub open spec fn parsed(
        slice: Seq<AccountInfo>,
    ) -> Result<RaydiumStableAccounts<'info>, Error> {
        let swap_source_token = TokenAccount::parsed(&slice[2]);
        let swap_destination_token = TokenAccount::parsed(&slice[3]);
        let token_program = Program::parsed(&slice[4], ProgramKind::Token);
        let pool_coin_token_account = TokenAccount::parsed(&slice[8]);
        let pool_pc_token_account = TokenAccount::parsed(&slice[9]);
        let serum_coin_vault_account = TokenAccount::parsed(&slice[16]);
        let serum_pc_vault_account = TokenAccount::parsed(&slice[17]);
        if swap_source_token is Err {
            Err(swap_source_token->Err_0)
        } else if swap_destination_token is Err {
            Err(swap_destination_token->Err_0)
        } else if token_program is Err {
            Err(token_program->Err_0)
        } else if pool_coin_token_account is Err {
            Err(pool_coin_token_account->Err_0)
        } else if pool_pc_token_account is Err {
            Err(pool_pc_token_account->Err_0)
        } else if serum_coin_vault_account is Err {
            Err(serum_coin_vault_account->Err_0)
        } else if serum_pc_vault_account is Err {
            Err(serum_pc_vault_account->Err_0)
        } else {
            Ok(
                RaydiumStableAccounts {
                    dex_program_id: &slice[0],
                    swap_authority_pubkey: &slice[1],
                    swap_source_token: swap_source_token->Ok_0,
                    swap_destination_token: swap_destination_token->Ok_0,
                    token_program: token_program->Ok_0,
                    amm_id: &slice[5],
                    amm_authority: &slice[6],
                    amm_open_orders: &slice[7],
                    pool_coin_token_account: pool_coin_token_account->Ok_0,
                    pool_pc_token_account: pool_pc_token_account->Ok_0,
                    model_data_account: &slice[10],
                    serum_program_id: &slice[11],
                    serum_market: &slice[12],
                    serum_bids: &slice[13],
                    serum_asks: &slice[14],
                    serum_event_queue: &slice[15],
                    serum_coin_vault_account: serum_coin_vault_account->Ok_0,
                    serum_pc_vault_account: serum_pc_vault_account->Ok_0,
                    serum_vault_signer: &slice[18],
                },
            )
        }
    }

    fn parse_accounts(accounts: &'info [AccountInfo], offset: usize) -> (r: Result<
        RaydiumStableAccounts<'info>,
        Error,
    >)
        requires
            offset + STABLE_ACCOUNTS_LEN <= accounts@.len(),
        ensures
            r == Self::parsed(accounts@.subrange(offset as int, offset + STABLE_ACCOUNTS_LEN)),
    {
        Ok(
            RaydiumStableAccounts {
                dex_program_id: &accounts[offset],
                swap_authority_pubkey: &accounts[offset + 1],
                swap_source_token: TokenAccount::try_from(&accounts[offset + 2])?,
                swap_destination_token: TokenAccount::try_from(&accounts[offset + 3])?,
                token_program: Program::try_from(&accounts[offset + 4], ProgramKind::Token)?,
                amm_id: &accounts[offset + 5],
                amm_authority: &accounts[offset + 6],
                amm_open_orders: &accounts[offset + 7],
                pool_coin_token_account: TokenAccount::try_from(&accounts[offset + 8])?,
                pool_pc_token_account: TokenAccount::try_from(&accounts[offset + 9])?,
                model_data_account: &accounts[offset + 10],
                serum_program_id: &accounts[offset + 11],
                serum_market: &accounts[offset + 12],
                serum_bids: &accounts[offset + 13],
                serum_asks: &accounts[offset + 14],
                serum_event_queue: &accounts[offset + 15],
                serum_coin_vault_account: TokenAccount::try_from(&accounts[offset + 16])?,
                serum_pc_vault_account: TokenAccount::try_from(&accounts[offset + 17])?,
                serum_vault_signer: &accounts[offset + 18],
            },
        )
    }
}

impl<'info> RaydiumClmmAccounts<'info> {
    /// The accounts of `slice`, the venue's part of the flat list, each read as what its
    /// place asks for; or the failure of the first that is not that.
    pub open spec fn parsed(slice: Seq<AccountInfo>) -> Result<RaydiumClmmAccounts<'info>, Error> {
        let swap_source_token = TokenAccount::parsed(&slice[2]);
        let swap_destination_token = TokenAccount::parsed(&slice[3]);
        let token_program = Program::parsed(&slice[13], ProgramKind::Token);
        if swap_source_token is Err {
            Err(swap_source_token->Err_0)
        } else if swap_destination_token is Err {
            Err(swap_destination_token->Err_0)
        } else if token_program is Err {
            Err(token_program->Err_0)
        } else {
            Ok(
                RaydiumClmmAccounts {
                    dex_program_id: &slice[0],
                    swap_authority_pubkey: &slice[1],
                    swap_source_token: swap_source_token->Ok_0,
                    swap_destination_token: swap_destination_token->Ok_0,
                    amm_config_id: &slice[4],
                    pool_id: &slice[5],
                    input_vault: &slice[6],
                    output_vault: &slice[7],
                    observation_id: &slice[8],
                    tick_array0: &slice[9],
                    ex_bitmap: &slice[10],
                    tick_array1: &slice[11],
                    tick_array2: &slice[12],
                    token_program: token_program->Ok_0,
                },
            )
        }
    }

    fn parse_accounts(accounts: &'info [AccountInfo], offset: usize) -> (r: Result<
        RaydiumClmmAccounts<'info>,
        Error,
    >)
        requires
            offset + CLMM_ACCOUNTS_LEN <= accounts@.len(),
        ensures
            r == Self::parsed(accounts@.subrange(offset as int, offset + CLMM_ACCOUNTS_LEN)),
    {
        Ok(
            RaydiumClmmAccounts {
                dex_program_id: &accounts[offset],
                swap_authority_pubkey: &accounts[offset + 1],
                swap_source_token: TokenAccount::try_from(&accounts[offset + 2])?,
                swap_destination_token: TokenAccount::try_from(&accounts[offset + 3])?,
                amm_config_id: &accounts[offset + 4],
                pool_id: &accounts[offset + 5],
                input_vault: &accounts[offset + 6],
                output_vault: &accounts[offset + 7],
                observation_id: &accounts[offset + 8],
                tick_array0: &accounts[offset + 9],
                ex_bitmap: &accounts[offset + 10],
                tick_array1: &accounts[offset + 11],
                tick_array2: &accounts[offset + 12],
                token_program: Program::try_from(&accounts[offset + 13], ProgramKind::Token)?,
            },
        )
    }
}

impl<'info> RaydiumClmmV2Accounts<'info> {
    /// The accounts of `slice`, the venue's part of the flat list, each read as what its
    /// place asks for; or the failure of the first that is not that.
    pub open spec fn parsed(
        slice: Seq<AccountInfo>,
    ) -> Result<RaydiumClmmV2Accounts<'info>, Error> {
        let swap_source_token = TokenAccount::parsed(&slice[2]);
        let swap_destination_token = TokenAccount::parsed(&slice[3]);
        let input_vault = TokenAccount::parsed(&slice[6]);
        let output_vault = TokenAccount::parsed(&slice[7]);
        let token_program = Program::parsed(&slice[9], ProgramKind::Token);
        let token_program_2022 = Program::parsed(&slice[10], ProgramKind::Token2022);
        let input_vault_mint = Mint::parsed(&slice[12]);
        let output_vault_mint = Mint::parsed(&slice[13]);
        if swap_source_token is Err {
            Err(swap_source_token->Err_0)
        } else if swap_destination_token is Err {
            Err(swap_destination_token->Err_0)
        } else if input_vault is Err {
            Err(input_vault->Err_0)
        } else if output_vault is Err {
            Err(output_vault->Err_0)
        } else if token_program is Err {
            Err(token_program->Err_0)
        } else if token_program_2022 is Err {
            Err(token_program_2022->Err_0)
        } else if input_vault_mint is Err {
            Err(input_vault_mint->Err_0)
        } else if output_vault_mint is Err {
            Err(output_vault_mint->Err_0)
        } else {
            Ok(
                RaydiumClmmV2Accounts {
                    dex_program_id: &slice[0],
                    swap_authority_pubkey: &slice[1],
                    swap_source_token: swap_source_token->Ok_0,
                    swap_destination_token: swap_destination_token->Ok_0,
                    amm_config_id: &slice[4],
                    pool_id: &slice[5],
                    input_vault: input_vault->Ok_0,
                    output_vault: output_vault->Ok_0,
                    observation_id: &slice[8],
                    token_program: token_program->Ok_0,
                    token_program_2022: token_program_2022->Ok_0,
                    memo_program: &slice[11],
                    input_vault_mint: input_vault_mint->Ok_0,
                    output_vault_mint: output_vault_mint->Ok_0,
                    ex_bitmap: &slice[14],
                    tick_array0: &slice[15],
                    tick_array1: &slice[16],
                    tick_array2: &slice[17],
                },
            )
        }
    }

    fn parse_accounts(accounts: &'info [AccountInfo], offset: usize) -> (r: Result<
        RaydiumClmmV2Accounts<'info>,
        Error,
    >)
        requires
            offset + CLMM_V2_ACCOUNTS_LEN <= accounts@.len(),
        ensures
            r == Self::parsed(accounts@.subrange(offset as int, offset + CLMM_V2_ACCOUNTS_LEN)),
    {
        Ok(
            RaydiumClmmV2Accounts {
                dex_program_id: &accounts[offset],
                swap_authority_pubkey: &accounts[offset + 1],
                swap_source_token: TokenAccount::try_from(&accounts[offset + 2])?,
                swap_destination_token: TokenAccount::try_from(&accounts[offset + 3])?,
                amm_config_id: &accounts[offset + 4],
                pool_id: &accounts[offset + 5],
                input_vault: TokenAccount::try_from(&accounts[offset + 6])?,
                output_vault: TokenAccount::try_from(&accounts[offset + 7])?,
                observation_id: &accounts[offset + 8],
                token_program: Program::try_from(&accounts[offset + 9], ProgramKind::Token)?,
                token_program_2022: Program::try_from(
                    &accounts[offset + 10],
                    ProgramKind::Token2022,
                )?,
                memo_program: &accounts[offset + 11],
                input_vault_mint: Mint::try_from(&accounts[offset + 12])?,
                output_vault_mint: Mint::try_from(&accounts[offset + 13])?,
                ex_bitmap: &accounts[offset + 14],
                tick_array0: &accounts[offset + 15],
                tick_array1: &accounts[offset + 16],
                tick_array2: &accounts[offset + 17],
            },
        )
    }
}

impl<'info> RaydiumCpmmAccounts<'info> {
    /// The accounts of `slice`, the venue's part of the flat list, each read as what its
    /// place asks for; or the failure of the first that is not that.
    pub open spec fn parsed(slice: Seq<AccountInfo>) -> Result<RaydiumCpmmAccounts<'info>, Error> {
        let swap_source_token = TokenAccount::parsed(&slice[2]);
        let swap_destination_token = TokenAccount::parsed(&slice[3]);
        let input_vault = TokenAccount::parsed(&slice[7]);
        let output_vault = TokenAccount::parsed(&slice[8]);
        let input_token_program = Interface::parsed(&slice[9]);
        let output_token_program = Interface::parsed(&slice[10]);
        let input_token_mint = Mint::parsed(&slice[11]);
        let output_token_mint = Mint::parsed(&slice[12]);
        if swap_source_token is Err {
            Err(swap_source_token->Err_0)
        } else if swap_destination_token is Err {
            Err(swap_destination_token->Err_0)
        } else if input_vault is Err {
            Err(input_vault->Err_0)
        } else if output_vault is Err {
            Err(output_vault->Err_0)
        } else if input_token_program is Err {
            Err(input_token_program->Err_0)
        } else if output_token_program is Err {
            Err(output_token_program->Err_0)
        } else if input_token_mint is Err {
            Err(input_token_mint->Err_0)
        } else if output_token_mint is Err {
            Err(output_token_mint->Err_0)
        } else {
            Ok(
                RaydiumCpmmAccounts {
                    dex_program_id: &slice[0],
                    swap_authority_pubkey: &slice[1],
                    swap_source_token: swap_source_token->Ok_0,
                    swap_destination_token: swap_destination_token->Ok_0,
                    authority: &slice[4],
                    amm_config: &slice[5],
                    pool_state: &slice[6],
                    input_vault: input_vault->Ok_0,
                    output_vault: output_vault->Ok_0,
                    input_token_program: input_token_program->Ok_0,
                    output_token_program: output_token_program->Ok_0,
                    input_token_mint: input_token_mint->Ok_0,
                    output_token_mint: output_token_mint->Ok_0,
                    observation_state: &slice[13],
                },
            )
        }
    }

    fn parse_accounts(accounts: &'info [AccountInfo], offset: usize) -> (r: Result<
        RaydiumCpmmAccounts<'info>,
        Error,
    >)
        requires
            offset + CPMM_ACCOUNTS_LEN <= accounts@.len(),
        ensures
            r == Self::parsed(accounts@.subrange(offset as int, offset + CPMM_ACCOUNTS_LEN)),
    {
        Ok(
            RaydiumCpmmAccounts {
                dex_program_id: &accounts[offset],
                swap_authority_pubkey: &accounts[offset + 1],
                swap_source_token: TokenAccount::try_from(&accounts[offset + 2])?,
                swap_destination_token: TokenAccount::try_from(&accounts[offset + 3])?,
                authority: &accounts[offset + 4],
                amm_config: &accounts[offset + 5],
                pool_state: &accounts[offset + 6],
                input_vault: TokenAccount::try_from(&accounts[offset + 7])?,
                output_vault: TokenAccount::try_from(&accounts[offset + 8])?,
                input_token_program: Interface::try_from(&accounts[offset + 9])?,
                output_token_program: Interface::try_from(&accounts[offset + 10])?,
                input_token_mint: Mint::try_from(&accounts[offset + 11])?,
                output_token_mint: Mint::try_from(&accounts[offset + 12])?,
                observation_state: &accounts[offset + 13],
            },
        )
    }
}

/// The payload of an exchange: the tag of the instruction, the amount to sell and the least
/// amount to take for it.
pub open spec fn swap_data(amount_in: u64, minimum_amount_out: u64) -> Seq<u8> {
    seq![9u8] + le_bytes(amount_in as nat, 8) + le_bytes(minimum_amount_out as nat, 8)
}

/// The payload of an exchange: the tag of the instruction, the amount to sell and the least
/// amount to take for it.
pub fn pack_swap_instruction(amount_in: u64, minimum_amount_out: u64) -> (data: Vec<u8>)
    ensures
        data@ == swap_data(amount_in, minimum_amount_out),
        data@.len() == ARGS_LEN,
{
    let mut data: Vec<u8> = Vec::with_capacity(ARGS_LEN);
    data.push(9u8);
    push_le(&mut data, amount_in as u128, 8);
    push_le(&mut data, minimum_amount_out as u128, 8);
    data
}

/// The payload of an exchange on a concentrated-liquidity pool: the selector of the
/// instruction, the amount, the threshold for the other amount, the limit of the square-root
/// price, and whether the amount is the one to sell.
pub open spec fn clmm_data(
    selector: [u8; 8],
    amount: u64,
    other_amount_threshold: u64,
    sqrt_price_limit_x64: u128,
    is_base_input: bool,
) -> Seq<u8> {
    selector@
        + le_bytes(amount as nat, 8)
        + le_bytes(other_amount_threshold as nat, 8)
        + le_bytes(sqrt_price_limit_x64 as nat, 16)
        + seq![if is_base_input { 1u8 } else { 0u8 }]
}

/// The payload of an exchange on a concentrated-liquidity pool: the selector of the
/// instruction, the amount, the threshold for the other amount, the limit of the square-root
/// price, and whether the amount is the one to sell.
pub fn pack_clmm_instruction(
    selector: [u8; 8],
    amount: u64,
    other_amount_threshold: u64,
    sqrt_price_limit_x64: u128,
    is_base_input: bool,
) -> (data: Vec<u8>)
    ensures
        data@ == clmm_data(
            selector,
            amount,
            other_amount_threshold,
            sqrt_price_limit_x64,
            is_base_input,
        ),
        data@.len() == ARGS_CLMM_LEN,
{
    let mut data: Vec<u8> = Vec::with_capacity(ARGS_CLMM_LEN);
    data.extend_from_slice(&selector);
    push_le(&mut data, amount as u128, 8);
    push_le(&mut data, other_amount_threshold as u128, 8);
    push_le(&mut data, sqrt_price_limit_x64, 16);
    data.push(if is_base_input { 1u8 } else { 0u8 });
    data
}

/// The payload of an exchange on a pool without an order book: the selector of the instruction,
/// the amount to sell and the least amount to take for it.
pub open spec fn cpmm_data(amount_in: u64, minimum_amount_out: u64) -> Seq<u8> {
    CPSWAP_SELECTOR@ + le_bytes(amount_in as nat, 8) + le_bytes(minimum_amount_out as nat, 8)
}

/// The payload of an exchange on a pool without an order book: the selector of the instruction,
/// the amount to sell and the least amount to take for it.
pub fn pack_cpmm_instruction(amount_in: u64, minimum_amount_out: u64) -> (data: Vec<u8>)
    ensures
        data@ == cpmm_data(amount_in, minimum_amount_out),
        data@.len() == ARGS_CPMM_LEN,
{
    let mut data: Vec<u8> = Vec::with_capacity(ARGS_CPMM_LEN);
    data.extend_from_slice(&CPSWAP_SELECTOR);
    push_le(&mut data, amount_in as u128, 8);
    push_le(&mut data, minimum_amount_out as u128, 8);
    data
}

impl<'info> RaydiumSwapAccounts<'info> {
    /// The accounts of the venue's instruction, in the order the venue wants them.
    pub open spec fn swap_metas(&self) -> Seq<AccountMeta> {
        seq![
            readonly(self.token_program.info.key, false),
            writable(self.amm_id.key, false),
            readonly(self.amm_authority.key, false),
            writable(self.amm_open_orders.key, false),
            writable(self.amm_target_orders.key, false),
            writable(self.pool_coin_token_account.info.key, false),
            writable(self.pool_pc_token_account.info.key, false),
            readonly(self.serum_program_id.key, false),
            writable(self.serum_market.key, false),
            writable(self.serum_bids.key, false),
            writable(self.serum_asks.key, false),
            writable(self.serum_event_queue.key, false),
            writable(self.serum_coin_vault_account.info.key, false),
            writable(self.serum_pc_vault_account.info.key, false),
            readonly(self.serum_vault_signer.key, false),
            writable(self.swap_source_token.info.key, false),
            writable(self.swap_destination_token.info.key, false),
            readonly(self.swap_authority_pubkey.key, true),
        ]
    }

    /// The accounts handed to the call.
    pub open spec fn swap_infos(&self, offset: usize) -> Seq<AccountRef> {
        seq![
            account_ref(self.token_program.info.key, offset, 4),
            account_ref(self.amm_id.key, offset, 5),
            account_ref(self.amm_authority.key, offset, 6),
            account_ref(self.amm_open_orders.key, offset, 7),
            account_ref(self.amm_target_orders.key, offset, 8),
            account_ref(self.pool_coin_token_account.info.key, offset, 9),
            account_ref(self.pool_pc_token_account.info.key, offset, 10),
            account_ref(self.serum_program_id.key, offset, 11),
            account_ref(self.serum_market.key, offset, 12),
            account_ref(self.serum_bids.key, offset, 13),
            account_ref(self.serum_asks.key, offset, 14),
            account_ref(self.serum_event_queue.key, offset, 15),
            account_ref(self.serum_coin_vault_account.info.key, offset, 16),
            account_ref(self.serum_pc_vault_account.info.key, offset, 17),
            account_ref(self.serum_vault_signer.key, offset, 18),
            account_ref(self.swap_source_token.info.key, offset, 2),
            account_ref(self.swap_destination_token.info.key, offset, 3),
            account_ref(self.swap_authority_pubkey.key, offset, 1),
        ]
    }

    /// The call these accounts make for `amount_in` in the given hop, or why none is made.
    pub open spec fn swap(
        &self,
        amount_in: u64,
        offset: usize,
        hop_accounts: HopAccounts,
        hop: usize,
        proxy_swap: bool,
    ) -> Result<InvocationView, Error> {
        if self.dex_program_id.key != address(RAYDIUM_SWAP_PROGRAM) {
            Err(Error::Router(ErrorCode::InvalidProgramId))
        } else {
            match before_check_error(
                self.swap_authority_pubkey,
                self.swap_source_token.info.key,
                self.swap_destination_token.info.key,
                hop_accounts,
                hop,
                proxy_swap,
            ) {
                Some(e) => Err(e),
                None => {
                    prepared(
                        &RaydiumSwapProcessor,
                        self.swap_infos(offset),
                        self.swap_source_token.info.key,
                        self.swap_destination_token,
                        (offset + 3) as usize,
                        InstructionView {
                            program_id: self.dex_program_id.key,
                            accounts: self.swap_metas(),
                            data: swap_data(amount_in, 1u64),
                        },
                        hop,
                        offset,
                        ACCOUNTS_LEN,
                        proxy_swap,
                    )
                },
            }
        }
    }
}

impl<'info> RaydiumStableAccounts<'info> {
    /// The accounts of the venue's instruction, in the order the venue wants them.
    pub open spec fn swap_stable_metas(&self) -> Seq<AccountMeta> {
        seq![
            readonly(self.token_program.info.key, false),
            writable(self.amm_id.key, false),
            readonly(self.amm_authority.key, false),
            writable(self.amm_open_orders.key, false),
            writable(self.pool_coin_token_account.info.key, false),
            writable(self.pool_pc_token_account.info.key, false),
            writable(self.model_data_account.key, false),
            readonly(self.serum_program_id.key, false),
            writable(self.serum_market.key, false),
            writable(self.serum_bids.key, false),
            writable(self.serum_asks.key, false),
            writable(self.serum_event_queue.key, false),
            writable(self.serum_coin_vault_account.info.key, false),
            writable(self.serum_pc_vault_account.info.key, false),
            readonly(self.serum_vault_signer.key, false),
            writable(self.swap_source_token.info.key, false),
            writable(self.swap_destination_token.info.key, false),
            readonly(self.swap_authority_pubkey.key, true),
        ]
    }

    /// The accounts handed to the call.
    pub open spec fn swap_stable_infos(&self, offset: usize) -> Seq<AccountRef> {
        seq![
            account_ref(self.token_program.info.key, offset, 4),
            account_ref(self.amm_id.key, offset, 5),
            account_ref(self.amm_authority.key, offset, 6),
            account_ref(self.amm_open_orders.key, offset, 7),
            account_ref(self.pool_coin_token_account.info.key, offset, 8),
            account_ref(self.pool_pc_token_account.info.key, offset, 9),
            account_ref(self.model_data_account.key, offset, 10),
            account_ref(self.serum_program_id.key, offset, 11),
            account_ref(self.serum_market.key, offset, 12),
            account_ref(self.serum_bids.key, offset, 13),
            account_ref(self.serum_asks.key, offset, 14),
            account_ref(self.serum_event_queue.key, offset, 15),
            account_ref(self.serum_coin_vault_account.info.key, offset, 16),
            account_ref(self.serum_pc_vault_account.info.key, offset, 17),
            account_ref(self.serum_vault_signer.key, offset, 18),
            account_ref(self.swap_source_token.info.key, offset, 2),
            account_ref(self.swap_destination_token.info.key, offset, 3),
            account_ref(self.swap_authority_pubkey.key, offset, 1),
        ]
    }

    /// The call these accounts make for `amount_in` in the given hop, or why none is made.
    pub open spec fn swap_stable(
        &self,
        amount_in: u64,
        offset: usize,
        hop_accounts: HopAccounts,
        hop: usize,
        proxy_swap: bool,
    ) -> Result<InvocationView, Error> {
        if self.dex_program_id.key != address(RAYDIUM_STABLE_PROGRAM) {
            Err(Error::Router(ErrorCode::InvalidProgramId))
        } else {
            match before_check_error(
                self.swap_authority_pubkey,
                self.swap_source_token.info.key,
                self.swap_destination_token.info.key,
                hop_accounts,
                hop,
                proxy_swap,
            ) {
                Some(e) => Err(e),
                None => {
                    prepared(
                        &RaydiumSwapProcessor,
                        self.swap_stable_infos(offset),
                        self.swap_source_token.info.key,
                        self.swap_destination_token,
                        (offset + 3) as usize,
                        InstructionView {
                            program_id: self.dex_program_id.key,
                            accounts: self.swap_stable_metas(),
                            data: swap_data(amount_in, 1u64),
                        },
                        hop,
                        offset,
                        STABLE_ACCOUNTS_LEN,
                        proxy_swap,
                    )
                },
            }
        }
    }
}

impl<'info> RaydiumClmmAccounts<'info> {
    /// The accounts of the venue's instruction, in the order the venue wants them.
    pub open spec fn swap_clmm_metas(&self) -> Seq<AccountMeta> {
        seq![
            writable(self.swap_authority_pubkey.key, true),
            readonly(self.amm_config_id.key, false),
            writable(self.pool_id.key, false),
            writable(self.swap_source_token.info.key, false),
            writable(self.swap_destination_token.info.key, false),
            writable(self.input_vault.key, false),
            writable(self.output_vault.key, false),
            writable(self.observation_id.key, false),
            readonly(self.token_program.info.key, false),
            writable(self.tick_array0.key, false),
            writable(self.ex_bitmap.key, false),
        ]
            + optional_meta(self.tick_array1.key)
            + optional_meta(self.tick_array2.key)
    }

    /// The accounts handed to the call.
    pub open spec fn swap_clmm_infos(&self, offset: usize) -> Seq<AccountRef> {
        seq![
            account_ref(self.swap_authority_pubkey.key, offset, 1),
            account_ref(self.amm_config_id.key, offset, 4),
            account_ref(self.pool_id.key, offset, 5),
            account_ref(self.swap_source_token.info.key, offset, 2),
            account_ref(self.swap_destination_token.info.key, offset, 3),
            account_ref(self.input_vault.key, offset, 6),
            account_ref(self.output_vault.key, offset, 7),
            account_ref(self.observation_id.key, offset, 8),
            account_ref(self.token_program.info.key, offset, 13),
            account_ref(self.tick_array0.key, offset, 9),
            account_ref(self.ex_bitmap.key, offset, 10),
        ]
            + optional_ref(account_ref(self.tick_array1.key, offset, 11))
            + optional_ref(account_ref(self.tick_array2.key, offset, 12))
    }

    /// The call these accounts make for `amount_in` in the given hop, or why none is made.
    pub open spec fn swap_clmm(
        &self,
        amount_in: u64,
        offset: usize,
        hop_accounts: HopAccounts,
        hop: usize,
        proxy_swap: bool,
    ) -> Result<InvocationView, Error> {
        if self.dex_program_id.key != address(RAYDIUM_CLMM_PROGRAM) {
            Err(Error::Router(ErrorCode::InvalidProgramId))
        } else {
            match before_check_error(
                self.swap_authority_pubkey,
                self.swap_source_token.info.key,
                self.swap_destination_token.info.key,
                hop_accounts,
                hop,
                proxy_swap,
            ) {
                Some(e) => Err(e),
                None => {
                    prepared(
                        &RaydiumSwapProcessor,
                        self.swap_clmm_infos(offset),
                        self.swap_source_token.info.key,
                        self.swap_destination_token,
                        (offset + 3) as usize,
                        InstructionView {
                            program_id: self.dex_program_id.key,
                            accounts: self.swap_clmm_metas(),
                            data: clmm_data(SWAP_SELECTOR, amount_in, 1u64, 0u128, true),
                        },
                        hop,
                        offset,
                        CLMM_ACCOUNTS_LEN,
                        proxy_swap,
                    )
                },
            }
        }
    }
}

impl<'info> RaydiumClmmV2Accounts<'info> {
    /// The accounts of the venue's instruction, in the order the venue wants them.
    pub open spec fn swap_clmm_v2_metas(&self) -> Seq<AccountMeta> {
        seq![
            writable(self.swap_authority_pubkey.key, true),
            readonly(self.amm_config_id.key, false),
            writable(self.pool_id.key, false),
            writable(self.swap_source_token.info.key, false),
            writable(self.swap_destination_token.info.key, false),
            writable(self.input_vault.info.key, false),
            writable(self.output_vault.info.key, false),
            writable(self.observation_id.key, false),
            readonly(self.token_program.info.key, false),
            readonly(self.token_program_2022.info.key, false),
            readonly(self.memo_program.key, false),
            readonly(self.input_vault_mint.info.key, false),
            readonly(self.output_vault_mint.info.key, false),
            writable(self.ex_bitmap.key, false),
            writable(self.tick_array0.key, false),
        ]
            + optional_meta(self.tick_array1.key)
            + optional_meta(self.tick_array2.key)
    }

    /// The accounts handed to the call.
    pub open spec fn swap_clmm_v2_infos(&self, offset: usize) -> Seq<AccountRef> {
        seq![
            account_ref(self.swap_authority_pubkey.key, offset, 1),
            account_ref(self.amm_config_id.key, offset, 4),
            account_ref(self.pool_id.key, offset, 5),
            account_ref(self.swap_source_token.info.key, offset, 2),
            account_ref(self.swap_destination_token.info.key, offset, 3),
            account_ref(self.input_vault.info.key, offset, 6),
            account_ref(self.output_vault.info.key, offset, 7),
            account_ref(self.observation_id.key, offset, 8),
            account_ref(self.token_program.info.key, offset, 9),
            account_ref(self.token_program_2022.info.key, offset, 10),
            account_ref(self.memo_program.key, offset, 11),
            account_ref(self.input_vault_mint.info.key, offset, 12),
            account_ref(self.output_vault_mint.info.key, offset, 13),
            account_ref(self.ex_bitmap.key, offset, 14),
            account_ref(self.tick_array0.key, offset, 15),
        ]
            + optional_ref(account_ref(self.tick_array1.key, offset, 16))
            + optional_ref(account_ref(self.tick_array2.key, offset, 17))
    }

    /// The call these accounts make for `amount_in` in the given hop, or why none is made.
    pub open spec fn swap_clmm_v2(
        &self,
        amount_in: u64,
        offset: usize,
        hop_accounts: HopAccounts,
        hop: usize,
        proxy_swap: bool,
    ) -> Result<InvocationView, Error> {
        if self.dex_program_id.key != address(RAYDIUM_CLMM_PROGRAM) {
            Err(Error::Router(ErrorCode::InvalidProgramId))
        } else {
            match before_check_error(
                self.swap_authority_pubkey,
                self.swap_source_token.info.key,
                self.swap_destination_token.info.key,
                hop_accounts,
                hop,
                proxy_swap,
            ) {
                Some(e) => Err(e),
                None => {
                    prepared(
                        &RaydiumSwapProcessor,
                        self.swap_clmm_v2_infos(offset),
                        self.swap_source_token.info.key,
                        self.swap_destination_token,
                        (offset + 3) as usize,
                        InstructionView {
                            program_id: self.dex_program_id.key,
                            accounts: self.swap_clmm_v2_metas(),
                            data: clmm_data(SWAP_V2_SELECTOR, amount_in, 1u64, 0u128, true),
                        },
                        hop,
                        offset,
                        CLMM_V2_ACCOUNTS_LEN,
                        proxy_swap,
                    )
                },
            }
        }
    }
}

impl<'info> RaydiumCpmmAccounts<'info> {
    /// The accounts of the venue's instruction, in the order the venue wants them.
    pub open spec fn swap_cpmm_metas(&self) -> Seq<AccountMeta> {
        seq![
            writable(self.swap_authority_pubkey.key, true),
            readonly(self.authority.key, false),
            readonly(self.amm_config.key, false),
            writable(self.pool_state.key, false),
            writable(self.swap_source_token.info.key, false),
            writable(self.swap_destination_token.info.key, false),
            writable(self.input_vault.info.key, false),
            writable(self.output_vault.info.key, false),
            readonly(self.input_token_program.info.key, false),
            readonly(self.output_token_program.info.key, false),
            readonly(self.input_token_mint.info.key, false),
            readonly(self.output_token_mint.info.key, false),
            writable(self.observation_state.key, false),
        ]
    }

    /// The accounts handed to the call.
    pub open spec fn swap_cpmm_infos(&self, offset: usize) -> Seq<AccountRef> {
        seq![
            account_ref(self.swap_authority_pubkey.key, offset, 1),
            account_ref(self.authority.key, offset, 4),
            account_ref(self.amm_config.key, offset, 5),
            account_ref(self.pool_state.key, offset, 6),
            account_ref(self.swap_source_token.info.key, offset, 2),
            account_ref(self.swap_destination_token.info.key, offset, 3),
            account_ref(self.input_vault.info.key, offset, 7),
            account_ref(self.output_vault.info.key, offset, 8),
            account_ref(self.input_token_program.info.key, offset, 9),
            account_ref(self.output_token_program.info.key, offset, 10),
            account_ref(self.input_token_mint.info.key, offset, 11),
            account_ref(self.output_token_mint.info.key, offset, 12),
            account_ref(self.observation_state.key, offset, 13),
        ]
    }

    /// The call these accounts make for `amount_in` in the given hop, or why none is made.
    pub open spec fn swap_cpmm(
        &self,
        amount_in: u64,
        offset: usize,
        hop_accounts: HopAccounts,
        hop: usize,
        proxy_swap: bool,
    ) -> Result<InvocationView, Error> {
        if self.dex_program_id.key != address(RAYDIUM_CPMM_PROGRAM) {
            Err(Error::Router(ErrorCode::InvalidProgramId))
        } else {
            match before_check_error(
                self.swap_authority_pubkey,
                self.swap_source_token.info.key,
                self.swap_destination_token.info.key,
                hop_accounts,
                hop,
                proxy_swap,
            ) {
                Some(e) => Err(e),
                None => {
                    prepared(
                        &RaydiumSwapProcessor,
                        self.swap_cpmm_infos(offset),
                        self.swap_source_token.info.key,
                        self.swap_destination_token,
                        (offset + 3) as usize,
                        InstructionView {
                            program_id: self.dex_program_id.key,
                            accounts: self.swap_cpmm_metas(),
                            data: cpmm_data(amount_in, 1u64),
                        },
                        hop,
                        offset,
                        CPMM_ACCOUNTS_LEN,
                        proxy_swap,
                    )
                },
            }
        }
    }
}

/// What `swap` makes of the accounts at the cursor: the call, or the reason why none is made.
/// It reads no account outside the venue's part of the list.
pub open spec fn swap_call(
    remaining_accounts: Seq<AccountInfo>,
    amount_in: u64,
    offset: usize,
    hop_accounts: HopAccounts,
    hop: usize,
    proxy_swap: bool,
) -> Result<InvocationView, Error> {
    if remaining_accounts.len() < offset + ACCOUNTS_LEN {
        Err(Error::Router(ErrorCode::InvalidAccountsLength))
    } else {
        match RaydiumSwapAccounts::parsed(
            remaining_accounts.subrange(offset as int, offset + ACCOUNTS_LEN),
        ) {
            Err(e) => Err(e),
            Ok(swap_accounts) => swap_accounts.swap(
                amount_in,
                offset,
                hop_accounts,
                hop,
                proxy_swap,
            ),
        }
    }
}

/// What `swap` makes of the venue's accounts once they are read.
pub fn handle_swap(
    swap_accounts: &RaydiumSwapAccounts,
    amount_in: u64,
    offset: usize,
    hop_accounts: &HopAccounts,
    hop: usize,
    proxy_swap: bool,
) -> (r: Result<Invocation, Error>)
    requires
        offset + ACCOUNTS_LEN <= usize::MAX,
    ensures
        yields(r, swap_accounts.swap(amount_in, offset, *hop_accounts, hop, proxy_swap)),
{
    if !swap_accounts.dex_program_id.key.is(RAYDIUM_SWAP_PROGRAM) {
        return Err(Error::Router(ErrorCode::InvalidProgramId));
    }

    // check hop accounts & swap authority
    let swap_source_token = swap_accounts.swap_source_token.key();
    let swap_destination_token = swap_accounts.swap_destination_token.key();
    before_check(
        swap_accounts.swap_authority_pubkey,
        swap_source_token,
        swap_destination_token,
        hop_accounts,
        hop,
        proxy_swap,
    )?;

    let data = pack_swap_instruction(amount_in, 1u64);

    let accounts = vec![
        AccountMeta::new_readonly(swap_accounts.token_program.info.key, false),
        AccountMeta::new(swap_accounts.amm_id.key, false),
        AccountMeta::new_readonly(swap_accounts.amm_authority.key, false),
        AccountMeta::new(swap_accounts.amm_open_orders.key, false),
        AccountMeta::new(swap_accounts.amm_target_orders.key, false),
        AccountMeta::new(swap_accounts.pool_coin_token_account.info.key, false),
        AccountMeta::new(swap_accounts.pool_pc_token_account.info.key, false),
        AccountMeta::new_readonly(swap_accounts.serum_program_id.key, false),
        AccountMeta::new(swap_accounts.serum_market.key, false),
        AccountMeta::new(swap_accounts.serum_bids.key, false),
        AccountMeta::new(swap_accounts.serum_asks.key, false),
        AccountMeta::new(swap_accounts.serum_event_queue.key, false),
        AccountMeta::new(swap_accounts.serum_coin_vault_account.info.key, false),
        AccountMeta::new(swap_accounts.serum_pc_vault_account.info.key, false),
        AccountMeta::new_readonly(swap_accounts.serum_vault_signer.key, false),
        AccountMeta::new(swap_accounts.swap_source_token.info.key, false),
        AccountMeta::new(swap_accounts.swap_destination_token.info.key, false),
        AccountMeta::new_readonly(swap_accounts.swap_authority_pubkey.key, true),
    ];

    let account_infos = vec![
        AccountRef { place: offset + 4, key: swap_accounts.token_program.info.key },
        AccountRef { place: offset + 5, key: swap_accounts.amm_id.key },
        AccountRef { place: offset + 6, key: swap_accounts.amm_authority.key },
        AccountRef { place: offset + 7, key: swap_accounts.amm_open_orders.key },
        AccountRef { place: offset + 8, key: swap_accounts.amm_target_orders.key },
        AccountRef { place: offset + 9, key: swap_accounts.pool_coin_token_account.info.key },
        AccountRef { place: offset + 10, key: swap_accounts.pool_pc_token_account.info.key },
        AccountRef { place: offset + 11, key: swap_accounts.serum_program_id.key },
        AccountRef { place: offset + 12, key: swap_accounts.serum_market.key },
        AccountRef { place: offset + 13, key: swap_accounts.serum_bids.key },
        AccountRef { place: offset + 14, key: swap_accounts.serum_asks.key },
        AccountRef { place: offset + 15, key: swap_accounts.serum_event_queue.key },
        AccountRef { place: offset + 16, key: swap_accounts.serum_coin_vault_account.info.key },
        AccountRef { place: offset + 17, key: swap_accounts.serum_pc_vault_account.info.key },
        AccountRef { place: offset + 18, key: swap_accounts.serum_vault_signer.key },
        AccountRef { place: offset + 2, key: swap_accounts.swap_source_token.info.key },
        AccountRef { place: offset + 3, key: swap_accounts.swap_destination_token.info.key },
        AccountRef { place: offset + 1, key: swap_accounts.swap_authority_pubkey.key },
    ];
    proof {
        assert(accounts@ =~= swap_accounts.swap_metas());
        assert(account_infos@ =~= swap_accounts.swap_infos(offset));
    }

    let instruction = Instruction {
        program_id: swap_accounts.dex_program_id.key,
        accounts,
        data,
    };

    invoke_process(
        &RaydiumSwapProcessor,
        account_infos,
        swap_source_token,
        &swap_accounts.swap_destination_token,
        offset + 3,
        instruction,
        hop,
        offset,
        ACCOUNTS_LEN,
        proxy_swap,
    )
}

/// Prepares an exchange on a constant-product pool.
pub fn swap<'info>(
    remaining_accounts: &'info [AccountInfo],
    amount_in: u64,
    offset: usize,
    hop_accounts: &HopAccounts,
    hop: usize,
    proxy_swap: bool,
) -> (r: Result<Invocation, Error>)
    ensures
        yields(
            r,
            swap_call(remaining_accounts@, amount_in, offset, *hop_accounts, hop, proxy_swap),
        ),
{
    if remaining_accounts.len() < ACCOUNTS_LEN || offset > remaining_accounts.len()
        - ACCOUNTS_LEN {
        return Err(Error::Router(ErrorCode::InvalidAccountsLength));
    }
    let swap_accounts = RaydiumSwapAccounts::parse_accounts(remaining_accounts, offset)?;
    handle_swap(&swap_accounts, amount_in, offset, hop_accounts, hop, proxy_swap)
}

/// Every call that `swap` hands out continues the hop chain, draws on the venue's own
/// accounts, and leaves the cursor right behind them.
pub proof fn lemma_swap_call(
    remaining_accounts: Seq<AccountInfo>,
    amount_in: u64,
    offset: usize,
    hop_accounts: HopAccounts,
    hop: usize,
    proxy_swap: bool,
)
    requires
        remaining_accounts.len() <= usize::MAX,
    ensures
        swap_call(
            remaining_accounts,
            amount_in,
            offset,
            hop_accounts,
            hop,
            proxy_swap,
        ) matches Ok(invocation) ==> {
            &&& continuity_error(
                invocation.swap_source_token,
                invocation.swap_destination_token,
                hop_accounts,
            ) is None
            &&& invocation.next_offset == offset + ACCOUNTS_LEN
            &&& invocation.next_offset <= remaining_accounts.len()
            &&& offset <= invocation.destination < invocation.next_offset
        },
{
}

/// A call that `swap` hands out is made of the venue's part of the account list alone:
/// any list with the same accounts in that part gives the same call.
pub proof fn lemma_swap_call_local(
    first: Seq<AccountInfo>,
    second: Seq<AccountInfo>,
    amount_in: u64,
    offset: usize,
    hop_accounts: HopAccounts,
    hop: usize,
    proxy_swap: bool,
)
    requires
        first.len() <= usize::MAX,
        swap_call(
            first,
            amount_in,
            offset,
            hop_accounts,
            hop,
            proxy_swap,
        ) matches Ok(invocation) && second.len()
            >= invocation.next_offset && first.subrange(
            offset as int,
            invocation.next_offset as int,
        ) == second.subrange(offset as int, invocation.next_offset as int),
    ensures
        swap_call(
            second,
            amount_in,
            offset,
            hop_accounts,
            hop,
            proxy_swap,
        ) == swap_call(first, amount_in, offset, hop_accounts, hop, proxy_swap),
{
}

/// What `swap` makes of the accounts depends on what they hold and on nothing else: two
/// lists of accounts that hold the same give the same call, or the same failure.
pub proof fn lemma_swap_call_same(
    first: Seq<AccountInfo>,
    second: Seq<AccountInfo>,
    amount_in: u64,
    offset: usize,
    hop_accounts: HopAccounts,
    hop: usize,
    proxy_swap: bool,
)
    requires
        same_accounts(first, second),
    ensures
        swap_call(
            second,
            amount_in,
            offset,
            hop_accounts,
            hop,
            proxy_swap,
        ) == swap_call(first, amount_in, offset, hop_accounts, hop, proxy_swap),
{
    if first.len() >= offset + ACCOUNTS_LEN {
        let taken = offset + ACCOUNTS_LEN;
        let ours = first.subrange(offset as int, taken);
        let theirs = second.subrange(offset as int, taken);
        assert forall|i: int| 0 <= i < ACCOUNTS_LEN implies same_account(
            &#[trigger] ours[i],
            &theirs[i],
        ) by {
            assert(same_account(&first[offset + i], &second[offset + i]));
        }
    }
}

/// `swap` holds a call to the hop chain before it looks at anything else that the chain
/// bears on. A call that it would hand out at the start of a chain is handed out
/// unchanged where it continues the chain it is given, and is refused for the break
/// where it does not.
pub proof fn lemma_swap_call_chained(
    remaining_accounts: Seq<AccountInfo>,
    amount_in: u64,
    offset: usize,
    hop_accounts: HopAccounts,
    hop: usize,
    proxy_swap: bool,
)
    ensures
        swap_call(
            remaining_accounts,
            amount_in,
            offset,
            HopAccounts::fresh(address(ZERO_ADDRESS)),
            hop,
            proxy_swap,
        ) matches Ok(invocation) ==> swap_call(
            remaining_accounts,
            amount_in,
            offset,
            hop_accounts,
            hop,
            proxy_swap,
        ) == chained(invocation, hop_accounts),
{
}

/// What `swap_stable` makes of the accounts at the cursor: the call, or the reason why none is
/// made. It reads no account outside the venue's part of the list.
pub open spec fn swap_stable_call(
    remaining_accounts: Seq<AccountInfo>,
    amount_in: u64,
    offset: usize,
    hop_accounts: HopAccounts,
    hop: usize,
    proxy_swap: bool,
) -> Result<InvocationView, Error> {
    if remaining_accounts.len() < offset + STABLE_ACCOUNTS_LEN {
        Err(Error::Router(ErrorCode::InvalidAccountsLength))
    } else {
        match RaydiumStableAccounts::parsed(
            remaining_accounts.subrange(offset as int, offset + STABLE_ACCOUNTS_LEN),
        ) {
            Err(e) => Err(e),
            Ok(swap_accounts) => swap_accounts.swap_stable(
                amount_in,
                offset,
                hop_accounts,
                hop,
                proxy_swap,
            ),
        }
    }
}

/// What `swap_stable` makes of the venue's accounts once they are read.
pub fn handle_swap_stable(
    swap_accounts: &RaydiumStableAccounts,
    amount_in: u64,
    offset: usize,
    hop_accounts: &HopAccounts,
    hop: usize,
    proxy_swap: bool,
) -> (r: Result<Invocation, Error>)
    requires
        offset + STABLE_ACCOUNTS_LEN <= usize::MAX,
    ensures
        yields(r, swap_accounts.swap_stable(amount_in, offset, *hop_accounts, hop, proxy_swap)),
{
    if !swap_accounts.dex_program_id.key.is(RAYDIUM_STABLE_PROGRAM) {
        return Err(Error::Router(ErrorCode::InvalidProgramId));
    }

    // check hop accounts & swap authority
    let swap_source_token = swap_accounts.swap_source_token.key();
    let swap_destination_token = swap_accounts.swap_destination_token.key();
    before_check(
        swap_accounts.swap_authority_pubkey,
        swap_source_token,
        swap_destination_token,
        hop_accounts,
        hop,
        proxy_swap,
    )?;

    let data = pack_swap_instruction(amount_in, 1u64);

    let accounts = vec![
        AccountMeta::new_readonly(swap_accounts.token_program.info.key, false),
        AccountMeta::new(swap_accounts.amm_id.key, false),
        AccountMeta::new_readonly(swap_accounts.amm_authority.key, false),
        AccountMeta::new(swap_accounts.amm_open_orders.key, false),
        AccountMeta::new(swap_accounts.pool_coin_token_account.info.key, false),
        AccountMeta::new(swap_accounts.pool_pc_token_account.info.key, false),
        AccountMeta::new(swap_accounts.model_data_account.key, false),
        AccountMeta::new_readonly(swap_accounts.serum_program_id.key, false),
        AccountMeta::new(swap_accounts.serum_market.key, false),
        AccountMeta::new(swap_accounts.serum_bids.key, false),
        AccountMeta::new(swap_accounts.serum_asks.key, false),
        AccountMeta::new(swap_accounts.serum_event_queue.key, false),
        AccountMeta::new(swap_accounts.serum_coin_vault_account.info.key, false),
        AccountMeta::new(swap_accounts.serum_pc_vault_account.info.key, false),
        AccountMeta::new_readonly(swap_accounts.serum_vault_signer.key, false),
        AccountMeta::new(swap_accounts.swap_source_token.info.key, false),
        AccountMeta::new(swap_accounts.swap_destination_token.info.key, false),
        AccountMeta::new_readonly(swap_accounts.swap_authority_pubkey.key, true),
    ];

    let account_infos = vec![
        AccountRef { place: offset + 4, key: swap_accounts.token_program.info.key },
        AccountRef { place: offset + 5, key: swap_accounts.amm_id.key },
        AccountRef { place: offset + 6, key: swap_accounts.amm_authority.key },
        AccountRef { place: offset + 7, key: swap_accounts.amm_open_orders.key },
        AccountRef { place: offset + 8, key: swap_accounts.pool_coin_token_account.info.key },
        AccountRef { place: offset + 9, key: swap_accounts.pool_pc_token_account.info.key },
        AccountRef { place: offset + 10, key: swap_accounts.model_data_account.key },
        AccountRef { place: offset + 11, key: swap_accounts.serum_program_id.key },
        AccountRef { place: offset + 12, key: swap_accounts.serum_market.key },
        AccountRef { place: offset + 13, key: swap_accounts.serum_bids.key },
        AccountRef { place: offset + 14, key: swap_accounts.serum_asks.key },
        AccountRef { place: offset + 15, key: swap_accounts.serum_event_queue.key },
        AccountRef { place: offset + 16, key: swap_accounts.serum_coin_vault_account.info.key },
        AccountRef { place: offset + 17, key: swap_accounts.serum_pc_vault_account.info.key },
        AccountRef { place: offset + 18, key: swap_accounts.serum_vault_signer.key },
        AccountRef { place: offset + 2, key: swap_accounts.swap_source_token.info.key },
        AccountRef { place: offset + 3, key: swap_accounts.swap_destination_token.info.key },
        AccountRef { place: offset + 1, key: swap_accounts.swap_authority_pubkey.key },
    ];
    proof {
        assert(accounts@ =~= swap_accounts.swap_stable_metas());
        assert(account_infos@ =~= swap_accounts.swap_stable_infos(offset));
    }

    let instruction = Instruction {
        program_id: swap_accounts.dex_program_id.key,
        accounts,
        data,
    };

    invoke_process(
        &RaydiumSwapProcessor,
        account_infos,
        swap_source_token,
        &swap_accounts.swap_destination_token,
        offset + 3,
        instruction,
        hop,
        offset,
        STABLE_ACCOUNTS_LEN,
        proxy_swap,
    )
}

/// Prepares an exchange on a stable pool.
pub fn swap_stable<'info>(
    remaining_accounts: &'info [AccountInfo],
    amount_in: u64,
    offset: usize,
    hop_accounts: &HopAccounts,
    hop: usize,
    proxy_swap: bool,
) -> (r: Result<Invocation, Error>)
    ensures
        yields(
            r,
            swap_stable_call(
                remaining_accounts@,
                amount_in,
                offset,
                *hop_accounts,
                hop,
                proxy_swap,
            ),
        ),
{
    if remaining_accounts.len() < STABLE_ACCOUNTS_LEN || offset > remaining_accounts.len()
        - STABLE_ACCOUNTS_LEN {
        return Err(Error::Router(ErrorCode::InvalidAccountsLength));
    }
    let swap_accounts = RaydiumStableAccounts::parse_accounts(remaining_accounts, offset)?;
    handle_swap_stable(&swap_accounts, amount_in, offset, hop_accounts, hop, proxy_swap)
}

/// Every call that `swap_stable` hands out continues the hop chain, draws on the venue's own
/// accounts, and leaves the cursor right behind them.
pub proof fn lemma_swap_stable_call(
    remaining_accounts: Seq<AccountInfo>,
    amount_in: u64,
    offset: usize,
    hop_accounts: HopAccounts,
    hop: usize,
    proxy_swap: bool,
)
    requires
        remaining_accounts.len() <= usize::MAX,
    ensures
        swap_stable_call(
            remaining_accounts,
            amount_in,
            offset,
            hop_accounts,
            hop,
            proxy_swap,
        ) matches Ok(invocation) ==> {
            &&& continuity_error(
                invocation.swap_source_token,
                invocation.swap_destination_token,
                hop_accounts,
            ) is None
            &&& invocation.next_offset == offset + STABLE_ACCOUNTS_LEN
            &&& invocation.next_offset <= remaining_accounts.len()
            &&& offset <= invocation.destination < invocation.next_offset
        },
{
}

/// A call that `swap_stable` hands out is made of the venue's part of the account list alone:
/// any list with the same accounts in that part gives the same call.
pub proof fn lemma_swap_stable_call_local(
    first: Seq<AccountInfo>,
    second: Seq<AccountInfo>,
    amount_in: u64,
    offset: usize,
    hop_accounts: HopAccounts,
    hop: usize,
    proxy_swap: bool,
)
    requires
        first.len() <= usize::MAX,
        swap_stable_call(
            first,
            amount_in,
            offset,
            hop_accounts,
            hop,
            proxy_swap,
        ) matches Ok(invocation) && second.len()
            >= invocation.next_offset && first.subrange(
            offset as int,
            invocation.next_offset as int,
        ) == second.subrange(offset as int, invocation.next_offset as int),
    ensures
        swap_stable_call(
            second,
            amount_in,
            offset,
            hop_accounts,
            hop,
            proxy_swap,
        ) == swap_stable_call(first, amount_in, offset, hop_accounts, hop, proxy_swap),
{
}

/// What `swap_stable` makes of the accounts depends on what they hold and on nothing else: two
/// lists of accounts that hold the same give the same call, or the same failure.
pub proof fn lemma_swap_stable_call_same(
    first: Seq<AccountInfo>,
    second: Seq<AccountInfo>,
    amount_in: u64,
    offset: usize,
    hop_accounts: HopAccounts,
    hop: usize,
    proxy_swap: bool,
)
    requires
        same_accounts(first, second),
    ensures
        swap_stable_call(
            second,
            amount_in,
            offset,
            hop_accounts,
            hop,
            proxy_swap,
        ) == swap_stable_call(first, amount_in, offset, hop_accounts, hop, proxy_swap),
{
    if first.len() >= offset + STABLE_ACCOUNTS_LEN {
        let taken = offset + STABLE_ACCOUNTS_LEN;
        let ours = first.subrange(offset as int, taken);
        let theirs = second.subrange(offset as int, taken);
        assert forall|i: int| 0 <= i < STABLE_ACCOUNTS_LEN implies same_account(
            &#[trigger] ours[i],
            &theirs[i],
        ) by {
            assert(same_account(&first[offset + i], &second[offset + i]));
        }
    }
}

/// `swap_stable` holds a call to the hop chain before it looks at anything else that the chain
/// bears on. A call that it would hand out at the start of a chain is handed out
/// unchanged where it continues the chain it is given, and is refused for the break
/// where it does not.
pub proof fn lemma_swap_stable_call_chained(
    remaining_accounts: Seq<AccountInfo>,
    amount_in: u64,
    offset: usize,
    hop_accounts: HopAccounts,
    hop: usize,
    proxy_swap: bool,
)
    ensures
        swap_stable_call(
            remaining_accounts,
            amount_in,
            offset,
            HopAccounts::fresh(address(ZERO_ADDRESS)),
            hop,
            proxy_swap,
        ) matches Ok(invocation) ==> swap_stable_call(
            remaining_accounts,
            amount_in,
            offset,
            hop_accounts,
            hop,
            proxy_swap,
        ) == chained(invocation, hop_accounts),
{
}

/// What `swap_clmm` makes of the accounts at the cursor: the call, or the reason why none is
/// made. It reads no account outside the venue's part of the list.
pub open spec fn swap_clmm_call(
    remaining_accounts: Seq<AccountInfo>,
    amount_in: u64,
    offset: usize,
    hop_accounts: HopAccounts,
    hop: usize,
    proxy_swap: bool,
) -> Result<InvocationView, Error> {
    if remaining_accounts.len() < offset + CLMM_ACCOUNTS_LEN {
        Err(Error::Router(ErrorCode::InvalidAccountsLength))
    } else {
        match RaydiumClmmAccounts::parsed(
            remaining_accounts.subrange(offset as int, offset + CLMM_ACCOUNTS_LEN),
        ) {
            Err(e) => Err(e),
            Ok(swap_accounts) => swap_accounts.swap_clmm(
                amount_in,
                offset,
                hop_accounts,
                hop,
                proxy_swap,
            ),
        }
    }
}

/// What `swap_clmm` makes of the venue's accounts once they are read.
pub fn handle_swap_clmm(
    swap_accounts: &RaydiumClmmAccounts,
    amount_in: u64,
    offset: usize,
    hop_accounts: &HopAccounts,
    hop: usize,
    proxy_swap: bool,
) -> (r: Result<Invocation, Error>)
    requires
        offset + CLMM_ACCOUNTS_LEN <= usize::MAX,
    ensures
        yields(r, swap_accounts.swap_clmm(amount_in, offset, *hop_accounts, hop, proxy_swap)),
{
    if !swap_accounts.dex_program_id.key.is(RAYDIUM_CLMM_PROGRAM) {
        return Err(Error::Router(ErrorCode::InvalidProgramId));
    }

    // check hop accounts & swap authority
    let swap_source_token = swap_accounts.swap_source_token.key();
    let swap_destination_token = swap_accounts.swap_destination_token.key();
    before_check(
        swap_accounts.swap_authority_pubkey,
        swap_source_token,
        swap_destination_token,
        hop_accounts,
        hop,
        proxy_swap,
    )?;

    let data = pack_clmm_instruction(SWAP_SELECTOR, amount_in, 1u64, 0u128, true);

    let mut accounts = vec![
        AccountMeta::new(swap_accounts.swap_authority_pubkey.key, true),
        AccountMeta::new_readonly(swap_accounts.amm_config_id.key, false),
        AccountMeta::new(swap_accounts.pool_id.key, false),
        AccountMeta::new(swap_accounts.swap_source_token.info.key, false),
        AccountMeta::new(swap_accounts.swap_destination_token.info.key, false),
        AccountMeta::new(swap_accounts.input_vault.key, false),
        AccountMeta::new(swap_accounts.output_vault.key, false),
        AccountMeta::new(swap_accounts.observation_id.key, false),
        AccountMeta::new_readonly(swap_accounts.token_program.info.key, false),
        AccountMeta::new(swap_accounts.tick_array0.key, false),
        AccountMeta::new(swap_accounts.ex_bitmap.key, false),
    ];

    let mut account_infos = vec![
        AccountRef { place: offset + 1, key: swap_accounts.swap_authority_pubkey.key },
        AccountRef { place: offset + 4, key: swap_accounts.amm_config_id.key },
        AccountRef { place: offset + 5, key: swap_accounts.pool_id.key },
        AccountRef { place: offset + 2, key: swap_accounts.swap_source_token.info.key },
        AccountRef { place: offset + 3, key: swap_accounts.swap_destination_token.info.key },
        AccountRef { place: offset + 6, key: swap_accounts.input_vault.key },
        AccountRef { place: offset + 7, key: swap_accounts.output_vault.key },
        AccountRef { place: offset + 8, key: swap_accounts.observation_id.key },
        AccountRef { place: offset + 13, key: swap_accounts.token_program.info.key },
        AccountRef { place: offset + 9, key: swap_accounts.tick_array0.key },
        AccountRef { place: offset + 10, key: swap_accounts.ex_bitmap.key },
    ];

    if !swap_accounts.tick_array1.key.is(ZERO_ADDRESS) {
        accounts.push(AccountMeta::new(swap_accounts.tick_array1.key, false));
        account_infos.push(AccountRef { place: offset + 11, key: swap_accounts.tick_array1.key });
    }
    if !swap_accounts.tick_array2.key.is(ZERO_ADDRESS) {
        accounts.push(AccountMeta::new(swap_accounts.tick_array2.key, false));
        account_infos.push(AccountRef { place: offset + 12, key: swap_accounts.tick_array2.key });
    }
    proof {
        assert(accounts@ =~= swap_accounts.swap_clmm_metas());
        assert(account_infos@ =~= swap_accounts.swap_clmm_infos(offset));
    }

    let instruction = Instruction {
        program_id: swap_accounts.dex_program_id.key,
        accounts,
        data,
    };

    invoke_process(
        &RaydiumSwapProcessor,
        account_infos,
        swap_source_token,
        &swap_accounts.swap_destination_token,
        offset + 3,
        instruction,
        hop,
        offset,
        CLMM_ACCOUNTS_LEN,
        proxy_swap,
    )
}

/// Prepares an exchange on a concentrated-liquidity pool. The optional tick arrays go into the
/// instruction and into the accounts handed to the call together, or not at all.
pub fn swap_clmm<'info>(
    remaining_accounts: &'info [AccountInfo],
    amount_in: u64,
    offset: usize,
    hop_accounts: &HopAccounts,
    hop: usize,
    proxy_swap: bool,
) -> (r: Result<Invocation, Error>)
    ensures
        yields(
            r,
            swap_clmm_call(remaining_accounts@, amount_in, offset, *hop_accounts, hop, proxy_swap),
        ),
{
    if remaining_accounts.len() < CLMM_ACCOUNTS_LEN || offset > remaining_accounts.len()
        - CLMM_ACCOUNTS_LEN {
        return Err(Error::Router(ErrorCode::InvalidAccountsLength));
    }
    let swap_accounts = RaydiumClmmAccounts::parse_accounts(remaining_accounts, offset)?;
    handle_swap_clmm(&swap_accounts, amount_in, offset, hop_accounts, hop, proxy_swap)
}

/// Every call that `swap_clmm` hands out continues the hop chain, draws on the venue's own
/// accounts, and leaves the cursor right behind them.
pub proof fn lemma_swap_clmm_call(
    remaining_accounts: Seq<AccountInfo>,
    amount_in: u64,
    offset: usize,
    hop_accounts: HopAccounts,
    hop: usize,
    proxy_swap: bool,
)
    requires
        remaining_accounts.len() <= usize::MAX,
    ensures
        swap_clmm_call(
            remaining_accounts,
            amount_in,
            offset,
            hop_accounts,
            hop,
            proxy_swap,
        ) matches Ok(invocation) ==> {
            &&& continuity_error(
                invocation.swap_source_token,
                invocation.swap_destination_token,
                hop_accounts,
            ) is None
            &&& invocation.next_offset == offset + CLMM_ACCOUNTS_LEN
            &&& invocation.next_offset <= remaining_accounts.len()
            &&& offset <= invocation.destination < invocation.next_offset
        },
{
}

/// A call that `swap_clmm` hands out is made of the venue's part of the account list alone:
/// any list with the same accounts in that part gives the same call.
pub proof fn lemma_swap_clmm_call_local(
    first: Seq<AccountInfo>,
    second: Seq<AccountInfo>,
    amount_in: u64,
    offset: usize,
    hop_accounts: HopAccounts,
    hop: usize,
    proxy_swap: bool,
)
    requires
        first.len() <= usize::MAX,
        swap_clmm_call(
            first,
            amount_in,
            offset,
            hop_accounts,
            hop,
            proxy_swap,
        ) matches Ok(invocation) && second.len()
            >= invocation.next_offset && first.subrange(
            offset as int,
            invocation.next_offset as int,
        ) == second.subrange(offset as int, invocation.next_offset as int),
    ensures
        swap_clmm_call(
            second,
            amount_in,
            offset,
            hop_accounts,
            hop,
            proxy_swap,
        ) == swap_clmm_call(first, amount_in, offset, hop_accounts, hop, proxy_swap),
{
}

/// What `swap_clmm` makes of the accounts depends on what they hold and on nothing else: two
/// lists of accounts that hold the same give the same call, or the same failure.
pub proof fn lemma_swap_clmm_call_same(
    first: Seq<AccountInfo>,
    second: Seq<AccountInfo>,
    amount_in: u64,
    offset: usize,
    hop_accounts: HopAccounts,
    hop: usize,
    proxy_swap: bool,
)
    requires
        same_accounts(first, second),
    ensures
        swap_clmm_call(
            second,
            amount_in,
            offset,
            hop_accounts,
            hop,
            proxy_swap,
        ) == swap_clmm_call(first, amount_in, offset, hop_accounts, hop, proxy_swap),
{
    if first.len() >= offset + CLMM_ACCOUNTS_LEN {
        let taken = offset + CLMM_ACCOUNTS_LEN;
        let ours = first.subrange(offset as int, taken);
        let theirs = second.subrange(offset as int, taken);
        assert forall|i: int| 0 <= i < CLMM_ACCOUNTS_LEN implies same_account(
            &#[trigger] ours[i],
            &theirs[i],
        ) by {
            assert(same_account(&first[offset + i], &second[offset + i]));
        }
    }
}

/// `swap_clmm` holds a call to the hop chain before it looks at anything else that the chain
/// bears on. A call that it would hand out at the start of a chain is handed out
/// unchanged where it continues the chain it is given, and is refused for the break
/// where it does not.
pub proof fn lemma_swap_clmm_call_chained(
    remaining_accounts: Seq<AccountInfo>,
    amount_in: u64,
    offset: usize,
    hop_accounts: HopAccounts,
    hop: usize,
    proxy_swap: bool,
)
    ensures
        swap_clmm_call(
            remaining_accounts,
            amount_in,
            offset,
            HopAccounts::fresh(address(ZERO_ADDRESS)),
            hop,
            proxy_swap,
        ) matches Ok(invocation) ==> swap_clmm_call(
            remaining_accounts,
            amount_in,
            offset,
            hop_accounts,
            hop,
            proxy_swap,
        ) == chained(invocation, hop_accounts),
{
}

/// What `swap_clmm_v2` makes of the accounts at the cursor: the call, or the reason why none is
/// made. It reads no account outside the venue's part of the list.
pub open spec fn swap_clmm_v2_call(
    remaining_accounts: Seq<AccountInfo>,
    amount_in: u64,
    offset: usize,
    hop_accounts: HopAccounts,
    hop: usize,
    proxy_swap: bool,
) -> Result<InvocationView, Error> {
    if remaining_accounts.len() < offset + CLMM_V2_ACCOUNTS_LEN {
        Err(Error::Router(ErrorCode::InvalidAccountsLength))
    } else {
        match RaydiumClmmV2Accounts::parsed(
            remaining_accounts.subrange(offset as int, offset + CLMM_V2_ACCOUNTS_LEN),
        ) {
            Err(e) => Err(e),
            Ok(swap_accounts) => swap_accounts.swap_clmm_v2(
                amount_in,
                offset,
                hop_accounts,
                hop,
                proxy_swap,
            ),
        }
    }
}

/// What `swap_clmm_v2` makes of the venue's accounts once they are read.
pub fn handle_swap_clmm_v2(
    swap_accounts: &RaydiumClmmV2Accounts,
    amount_in: u64,
    offset: usize,
    hop_accounts: &HopAccounts,
    hop: usize,
    proxy_swap: bool,
) -> (r: Result<Invocation, Error>)
    requires
        offset + CLMM_V2_ACCOUNTS_LEN <= usize::MAX,
    ensures
        yields(r, swap_accounts.swap_clmm_v2(amount_in, offset, *hop_accounts, hop, proxy_swap)),
{
    if !swap_accounts.dex_program_id.key.is(RAYDIUM_CLMM_PROGRAM) {
        return Err(Error::Router(ErrorCode::InvalidProgramId));
    }

    // check hop accounts & swap authority
    let swap_source_token = swap_accounts.swap_source_token.key();
    let swap_destination_token = swap_accounts.swap_destination_token.key();
    before_check(
        swap_accounts.swap_authority_pubkey,
        swap_source_token,
        swap_destination_token,
        hop_accounts,
        hop,
        proxy_swap,
    )?;

    let data = pack_clmm_instruction(SWAP_V2_SELECTOR, amount_in, 1u64, 0u128, true);

    let mut accounts = vec![
        AccountMeta::new(swap_accounts.swap_authority_pubkey.key, true),
        AccountMeta::new_readonly(swap_accounts.amm_config_id.key, false),
        AccountMeta::new(swap_accounts.pool_id.key, false),
        AccountMeta::new(swap_accounts.swap_source_token.info.key, false),
        AccountMeta::new(swap_accounts.swap_destination_token.info.key, false),
        AccountMeta::new(swap_accounts.input_vault.info.key, false),
        AccountMeta::new(swap_accounts.output_vault.info.key, false),
        AccountMeta::new(swap_accounts.observation_id.key, false),
        AccountMeta::new_readonly(swap_accounts.token_program.info.key, false),
        AccountMeta::new_readonly(swap_accounts.token_program_2022.info.key, false),
        AccountMeta::new_readonly(swap_accounts.memo_program.key, false),
        AccountMeta::new_readonly(swap_accounts.input_vault_mint.info.key, false),
        AccountMeta::new_readonly(swap_accounts.output_vault_mint.info.key, false),
        AccountMeta::new(swap_accounts.ex_bitmap.key, false),
        AccountMeta::new(swap_accounts.tick_array0.key, false),
    ];

    let mut account_infos = vec![
        AccountRef { place: offset + 1, key: swap_accounts.swap_authority_pubkey.key },
        AccountRef { place: offset + 4, key: swap_accounts.amm_config_id.key },
        AccountRef { place: offset + 5, key: swap_accounts.pool_id.key },
        AccountRef { place: offset + 2, key: swap_accounts.swap_source_token.info.key },
        AccountRef { place: offset + 3, key: swap_accounts.swap_destination_token.info.key },
        AccountRef { place: offset + 6, key: swap_accounts.input_vault.info.key },
        AccountRef { place: offset + 7, key: swap_accounts.output_vault.info.key },
        AccountRef { place: offset + 8, key: swap_accounts.observation_id.key },
        AccountRef { place: offset + 9, key: swap_accounts.token_program.info.key },
        AccountRef { place: offset + 10, key: swap_accounts.token_program_2022.info.key },
        AccountRef { place: offset + 11, key: swap_accounts.memo_program.key },
        AccountRef { place: offset + 12, key: swap_accounts.input_vault_mint.info.key },
        AccountRef { place: offset + 13, key: swap_accounts.output_vault_mint.info.key },
        AccountRef { place: offset + 14, key: swap_accounts.ex_bitmap.key },
        AccountRef { place: offset + 15, key: swap_accounts.tick_array0.key },
    ];

    if !swap_accounts.tick_array1.key.is(ZERO_ADDRESS) {
        accounts.push(AccountMeta::new(swap_accounts.tick_array1.key, false));
        account_infos.push(AccountRef { place: offset + 16, key: swap_accounts.tick_array1.key });
    }
    if !swap_accounts.tick_array2.key.is(ZERO_ADDRESS) {
        accounts.push(AccountMeta::new(swap_accounts.tick_array2.key, false));
        account_infos.push(AccountRef { place: offset + 17, key: swap_accounts.tick_array2.key });
    }
    proof {
        assert(accounts@ =~= swap_accounts.swap_clmm_v2_metas());
        assert(account_infos@ =~= swap_accounts.swap_clmm_v2_infos(offset));
    }

    let instruction = Instruction {
        program_id: swap_accounts.dex_program_id.key,
        accounts,
        data,
    };

    invoke_process(
        &RaydiumSwapProcessor,
        account_infos,
        swap_source_token,
        &swap_accounts.swap_destination_token,
        offset + 3,
        instruction,
        hop,
        offset,
        CLMM_V2_ACCOUNTS_LEN,
        proxy_swap,
    )
}

/// Prepares an exchange on a concentrated-liquidity pool that may hold tokens of either token
/// program. The optional tick arrays go into the instruction and into the accounts handed to
/// the call together, or not at all.
pub fn swap_clmm_v2<'info>(
    remaining_accounts: &'info [AccountInfo],
    amount_in: u64,
    offset: usize,
    hop_accounts: &HopAccounts,
    hop: usize,
    proxy_swap: bool,
) -> (r: Result<Invocation, Error>)
    ensures
        yields(
            r,
            swap_clmm_v2_call(
                remaining_accounts@,
                amount_in,
                offset,
                *hop_accounts,
                hop,
                proxy_swap,
            ),
        ),
{
    if remaining_accounts.len() < CLMM_V2_ACCOUNTS_LEN || offset > remaining_accounts.len()
        - CLMM_V2_ACCOUNTS_LEN {
        return Err(Error::Router(ErrorCode::InvalidAccountsLength));
    }
    let swap_accounts = RaydiumClmmV2Accounts::parse_accounts(remaining_accounts, offset)?;
    handle_swap_clmm_v2(&swap_accounts, amount_in, offset, hop_accounts, hop, proxy_swap)
}

/// Every call that `swap_clmm_v2` hands out continues the hop chain, draws on the venue's own
/// accounts, and leaves the cursor right behind them.
pub proof fn lemma_swap_clmm_v2_call(
    remaining_accounts: Seq<AccountInfo>,
    amount_in: u64,
    offset: usize,
    hop_accounts: HopAccounts,
    hop: usize,
    proxy_swap: bool,
)
    requires
        remaining_accounts.len() <= usize::MAX,
    ensures
        swap_clmm_v2_call(
            remaining_accounts,
            amount_in,
            offset,
            hop_accounts,
            hop,
            proxy_swap,
        ) matches Ok(invocation) ==> {
            &&& continuity_error(
                invocation.swap_source_token,
                invocation.swap_destination_token,
                hop_accounts,
            ) is None
            &&& invocation.next_offset == offset + CLMM_V2_ACCOUNTS_LEN
            &&& invocation.next_offset <= remaining_accounts.len()
            &&& offset <= invocation.destination < invocation.next_offset
        },
{
}

/// A call that `swap_clmm_v2` hands out is made of the venue's part of the account list alone:
/// any list with the same accounts in that part gives the same call.
pub proof fn lemma_swap_clmm_v2_call_local(
    first: Seq<AccountInfo>,
    second: Seq<AccountInfo>,
    amount_in: u64,
    offset: usize,
    hop_accounts: HopAccounts,
    hop: usize,
    proxy_swap: bool,
)
    requires
        first.len() <= usize::MAX,
        swap_clmm_v2_call(
            first,
            amount_in,
            offset,
            hop_accounts,
            hop,
            proxy_swap,
        ) matches Ok(invocation) && second.len()
            >= invocation.next_offset && first.subrange(
            offset as int,
            invocation.next_offset as int,
        ) == second.subrange(offset as int, invocation.next_offset as int),
    ensures
        swap_clmm_v2_call(
            second,
            amount_in,
            offset,
            hop_accounts,
            hop,
            proxy_swap,
        ) == swap_clmm_v2_call(first, amount_in, offset, hop_accounts, hop, proxy_swap),
{
}

/// What `swap_clmm_v2` makes of the accounts depends on what they hold and on nothing else: two
/// lists of accounts that hold the same give the same call, or the same failure.
pub proof fn lemma_swap_clmm_v2_call_same(
    first: Seq<AccountInfo>,
    second: Seq<AccountInfo>,
    amount_in: u64,
    offset: usize,
    hop_accounts: HopAccounts,
    hop: usize,
    proxy_swap: bool,
)
    requires
        same_accounts(first, second),
    ensures
        swap_clmm_v2_call(
            second,
            amount_in,
            offset,
            hop_accounts,
            hop,
            proxy_swap,
        ) == swap_clmm_v2_call(first, amount_in, offset, hop_accounts, hop, proxy_swap),
{
    if first.len() >= offset + CLMM_V2_ACCOUNTS_LEN {
        let taken = offset + CLMM_V2_ACCOUNTS_LEN;
        let ours = first.subrange(offset as int, taken);
        let theirs = second.subrange(offset as int, taken);
        assert forall|i: int| 0 <= i < CLMM_V2_ACCOUNTS_LEN implies same_account(
            &#[trigger] ours[i],
            &theirs[i],
        ) by {
            assert(same_account(&first[offset + i], &second[offset + i]));
        }
    }
}

/// `swap_clmm_v2` holds a call to the hop chain before it looks at anything else that the chain
/// bears on. A call that it would hand out at the start of a chain is handed out
/// unchanged where it continues the chain it is given, and is refused for the break
/// where it does not.
pub proof fn lemma_swap_clmm_v2_call_chained(
    remaining_accounts: Seq<AccountInfo>,
    amount_in: u64,
    offset: usize,
    hop_accounts: HopAccounts,
    hop: usize,
    proxy_swap: bool,
)
    ensures
        swap_clmm_v2_call(
            remaining_accounts,
            amount_in,
            offset,
            HopAccounts::fresh(address(ZERO_ADDRESS)),
            hop,
            proxy_swap,
        ) matches Ok(invocation) ==> swap_clmm_v2_call(
            remaining_accounts,
            amount_in,
            offset,
            hop_accounts,
            hop,
            proxy_swap,
        ) == chained(invocation, hop_accounts),
{
}

/// What `swap_cpmm` makes of the accounts at the cursor: the call, or the reason why none is
/// made. It reads no account outside the venue's part of the list.
pub open spec fn swap_cpmm_call(
    remaining_accounts: Seq<AccountInfo>,
    amount_in: u64,
    offset: usize,
    hop_accounts: HopAccounts,
    hop: usize,
    proxy_swap: bool,
) -> Result<InvocationView, Error> {
    if remaining_accounts.len() < offset + CPMM_ACCOUNTS_LEN {
        Err(Error::Router(ErrorCode::InvalidAccountsLength))
    } else {
        match RaydiumCpmmAccounts::parsed(
            remaining_accounts.subrange(offset as int, offset + CPMM_ACCOUNTS_LEN),
        ) {
            Err(e) => Err(e),
            Ok(swap_accounts) => swap_accounts.swap_cpmm(
                amount_in,
                offset,
                hop_accounts,
                hop,
                proxy_swap,
            ),
        }
    }
}

/// What `swap_cpmm` makes of the venue's accounts once they are read.
pub fn handle_swap_cpmm(
    swap_accounts: &RaydiumCpmmAccounts,
    amount_in: u64,
    offset: usize,
    hop_accounts: &HopAccounts,
    hop: usize,
    proxy_swap: bool,
) -> (r: Result<Invocation, Error>)
    requires
        offset + CPMM_ACCOUNTS_LEN <= usize::MAX,
    ensures
        yields(r, swap_accounts.swap_cpmm(amount_in, offset, *hop_accounts, hop, proxy_swap)),
{
    if !swap_accounts.dex_program_id.key.is(RAYDIUM_CPMM_PROGRAM) {
        return Err(Error::Router(ErrorCode::InvalidProgramId));
    }

    // check hop accounts & swap authority
    let swap_source_token = swap_accounts.swap_source_token.key();
    let swap_destination_token = swap_accounts.swap_destination_token.key();
    before_check(
        swap_accounts.swap_authority_pubkey,
        swap_source_token,
        swap_destination_token,
        hop_accounts,
        hop,
        proxy_swap,
    )?;

    let data = pack_cpmm_instruction(amount_in, 1u64);

    let accounts = vec![
        AccountMeta::new(swap_accounts.swap_authority_pubkey.key, true),
        AccountMeta::new_readonly(swap_accounts.authority.key, false),
        AccountMeta::new_readonly(swap_accounts.amm_config.key, false),
        AccountMeta::new(swap_accounts.pool_state.key, false),
        AccountMeta::new(swap_accounts.swap_source_token.info.key, false),
        AccountMeta::new(swap_accounts.swap_destination_token.info.key, false),
        AccountMeta::new(swap_accounts.input_vault.info.key, false),
        AccountMeta::new(swap_accounts.output_vault.info.key, false),
        AccountMeta::new_readonly(swap_accounts.input_token_program.info.key, false),
        AccountMeta::new_readonly(swap_accounts.output_token_program.info.key, false),
        AccountMeta::new_readonly(swap_accounts.input_token_mint.info.key, false),
        AccountMeta::new_readonly(swap_accounts.output_token_mint.info.key, false),
        AccountMeta::new(swap_accounts.observation_state.key, false),
    ];

    let account_infos = vec![
        AccountRef { place: offset + 1, key: swap_accounts.swap_authority_pubkey.key },
        AccountRef { place: offset + 4, key: swap_accounts.authority.key },
        AccountRef { place: offset + 5, key: swap_accounts.amm_config.key },
        AccountRef { place: offset + 6, key: swap_accounts.pool_state.key },
        AccountRef { place: offset + 2, key: swap_accounts.swap_source_token.info.key },
        AccountRef { place: offset + 3, key: swap_accounts.swap_destination_token.info.key },
        AccountRef { place: offset + 7, key: swap_accounts.input_vault.info.key },
        AccountRef { place: offset + 8, key: swap_accounts.output_vault.info.key },
        AccountRef { place: offset + 9, key: swap_accounts.input_token_program.info.key },
        AccountRef { place: offset + 10, key: swap_accounts.output_token_program.info.key },
        AccountRef { place: offset + 11, key: swap_accounts.input_token_mint.info.key },
        AccountRef { place: offset + 12, key: swap_accounts.output_token_mint.info.key },
        AccountRef { place: offset + 13, key: swap_accounts.observation_state.key },
    ];
    proof {
        assert(accounts@ =~= swap_accounts.swap_cpmm_metas());
        assert(account_infos@ =~= swap_accounts.swap_cpmm_infos(offset));
    }

    let instruction = Instruction {
        program_id: swap_accounts.dex_program_id.key,
        accounts,
        data,
    };

    invoke_process(
        &RaydiumSwapProcessor,
        account_infos,
        swap_source_token,
        &swap_accounts.swap_destination_token,
        offset + 3,
        instruction,
        hop,
        offset,
        CPMM_ACCOUNTS_LEN,
        proxy_swap,
    )
}

/// Prepares an exchange on a constant-product pool without an order book.
pub fn swap_cpmm<'info>(
    remaining_accounts: &'info [AccountInfo],
    amount_in: u64,
    offset: usize,
    hop_accounts: &HopAccounts,
    hop: usize,
    proxy_swap: bool,
) -> (r: Result<Invocation, Error>)
    ensures
        yields(
            r,
            swap_cpmm_call(remaining_accounts@, amount_in, offset, *hop_accounts, hop, proxy_swap),
        ),
{
    if remaining_accounts.len() < CPMM_ACCOUNTS_LEN || offset > remaining_accounts.len()
        - CPMM_ACCOUNTS_LEN {
        return Err(Error::Router(ErrorCode::InvalidAccountsLength));
    }
    let swap_accounts = RaydiumCpmmAccounts::parse_accounts(remaining_accounts, offset)?;
    handle_swap_cpmm(&swap_accounts, amount_in, offset, hop_accounts, hop, proxy_swap)
}

/// Every call that `swap_cpmm` hands out continues the hop chain, draws on the venue's own
/// accounts, and leaves the cursor right behind them.
pub proof fn lemma_swap_cpmm_call(
    remaining_accounts: Seq<AccountInfo>,
    amount_in: u64,
    offset: usize,
    hop_accounts: HopAccounts,
    hop: usize,
    proxy_swap: bool,
)
    requires
        remaining_accounts.len() <= usize::MAX,
    ensures
        swap_cpmm_call(
            remaining_accounts,
            amount_in,
            offset,
            hop_accounts,
            hop,
            proxy_swap,
        ) matches Ok(invocation) ==> {
            &&& continuity_error(
                invocation.swap_source_token,
                invocation.swap_destination_token,
                hop_accounts,
            ) is None
            &&& invocation.next_offset == offset + CPMM_ACCOUNTS_LEN
            &&& invocation.next_offset <= remaining_accounts.len()
            &&& offset <= invocation.destination < invocation.next_offset
        },
{
}

/// A call that `swap_cpmm` hands out is made of the venue's part of the account list alone:
/// any list with the same accounts in that part gives the same call.
pub proof fn lemma_swap_cpmm_call_local(
    first: Seq<AccountInfo>,
    second: Seq<AccountInfo>,
    amount_in: u64,
    offset: usize,
    hop_accounts: HopAccounts,
    hop: usize,
    proxy_swap: bool,
)
    requires
        first.len() <= usize::MAX,
        swap_cpmm_call(
            first,
            amount_in,
            offset,
            hop_accounts,
            hop,
            proxy_swap,
        ) matches Ok(invocation) && second.len()
            >= invocation.next_offset && first.subrange(
            offset as int,
            invocation.next_offset as int,
        ) == second.subrange(offset as int, invocation.next_offset as int),
    ensures
        swap_cpmm_call(
            second,
            amount_in,
            offset,
            hop_accounts,
            hop,
            proxy_swap,
        ) == swap_cpmm_call(first, amount_in, offset, hop_accounts, hop, proxy_swap),
{
}

/// What `swap_cpmm` makes of the accounts depends on what they hold and on nothing else: two
/// lists of accounts that hold the same give the same call, or the same failure.
pub proof fn lemma_swap_cpmm_call_same(
    first: Seq<AccountInfo>,
    second: Seq<AccountInfo>,
    amount_in: u64,
    offset: usize,
    hop_accounts: HopAccounts,
    hop: usize,
    proxy_swap: bool,
)
    requires
        same_accounts(first, second),
    ensures
        swap_cpmm_call(
            second,
            amount_in,
            offset,
            hop_accounts,
            hop,
            proxy_swap,
        ) == swap_cpmm_call(first, amount_in, offset, hop_accounts, hop, proxy_swap),
{
    if first.len() >= offset + CPMM_ACCOUNTS_LEN {
        let taken = offset + CPMM_ACCOUNTS_LEN;
        let ours = first.subrange(offset as int, taken);
        let theirs = second.subrange(offset as int, taken);
        assert forall|i: int| 0 <= i < CPMM_ACCOUNTS_LEN implies same_account(
            &#[trigger] ours[i],
            &theirs[i],
        ) by {
            assert(same_account(&first[offset + i], &second[offset + i]));
        }
    }
}

/// `swap_cpmm` holds a call to the hop chain before it looks at anything else that the chain
/// bears on. A call that it would hand out at the start of a chain is handed out
/// unchanged where it continues the chain it is given, and is refused for the break
/// where it does not.
pub proof fn lemma_swap_cpmm_call_chained(
    remaining_accounts: Seq<AccountInfo>,
    amount_in: u64,
    offset: usize,
    hop_accounts: HopAccounts,
    hop: usize,
    proxy_swap: bool,
)
    ensures
        swap_cpmm_call(
            remaining_accounts,
            amount_in,
            offset,
            HopAccounts::fresh(address(ZERO_ADDRESS)),
            hop,
            proxy_swap,
        ) matches Ok(invocation) ==> swap_cpmm_call(
            remaining_accounts,
            amount_in,
            offset,
            hop_accounts,
            hop,
            proxy_swap,
        ) == chained(invocation, hop_accounts),
{
}

} // verus!
