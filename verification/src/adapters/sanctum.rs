//! Sanctum's pool of liquid-stake tokens.

use crate::account::{
    address, readonly, writable, AccountInfo, AccountMeta, Instruction, InstructionView, Mint,
    Program, ProgramKind, Pubkey, TokenAccount,
};
use crate::adapters::common::{
    account_ref, before_check, before_check_error, chained, continuity_error, invoke_process,
    no_call, no_calls, prepared, same_account, same_accounts, yields, AccountRef, Call, CallView,
    DexProcessor, Invocation, InvocationView,
};
use crate::bytes::{le_bytes, le_value, push_le, read_u64_le};
use crate::constants::{SANCTUM_PROGRAM, WSOL_PROGRAM, ZERO_ADDRESS};
use crate::error::{Error, ErrorCode};
use crate::instructions::common::HopAccounts;
use vstd::prelude::*;

verus! {

/// Number of accounts that putting a liquid-stake token in takes.
pub const ADD_LST_LIQ_ACCOUNTS_LEN: usize = 18;

/// Number of accounts that putting the wrapped native asset in takes.
pub const ADD_WSOL_LIQ_ACCOUNTS_LEN: usize = 14;

/// Length of the payload of putting liquidity in or taking it out.
pub const ADD_REMOVE_LIQ_ARGS_LEN: usize = 22;

/// Length of the payload of an exchange.
pub const SWAP_EXACT_IN_ARGS_LEN: usize = 27;

/// Number of accounts that taking a liquid-stake token out takes.
pub const REMOVE_LST_LIQ_ACCOUNTS_LEN: usize = 19;

/// Number of accounts that taking the wrapped native asset out takes.
pub const REMOVE_WSOL_LIQ_ACCOUNTS_LEN: usize = 15;

/// Number of accounts that an exchange with the wrapped native asset takes.
pub const SWAP_LST_SOL_ACCOUNTS_LEN: usize = 22;

/// Number of accounts that an exchange between two liquid-stake tokens takes.
pub const SWAP_LST_LST_ACCOUNTS_LEN: usize = 26;

/// One entry of the pool's list of liquid-stake tokens.
#[derive(Clone, Copy, Debug)]
pub struct LstState {
    pub is_input_disabled: u8,
    pub pool_reserves_bump: u8,
    pub protocol_fee_accumulator_bump: u8,
    pub padding: [u8; 5],
    pub sol_value: u64,
    pub mint: Pubkey,
    pub sol_value_calculator: Pubkey,
}

/// Length of one entry of the pool's list of liquid-stake tokens.
pub const LST_STATE_LEN: usize = 80;

/// Whether `state` is what the 80 bytes `entry` hold.
pub open spec fn is_lst_state(state: LstState, entry: Seq<u8>) -> bool {
    &&& state.is_input_disabled == entry[0]
    &&& state.pool_reserves_bump == entry[1]
    &&& state.protocol_fee_accumulator_bump == entry[2]
    &&& state.padding@ == entry.subrange(3, 8)
    &&& state.sol_value == le_value(entry.subrange(8, 16))
    &&& state.mint.bytes@ == entry.subrange(16, 48)
    &&& state.sol_value_calculator.bytes@ == entry.subrange(48, 80)
}

/// The bytes of entry `i` of a list.
pub open spec fn lst_entry(data: Seq<u8>, i: int) -> Seq<u8> {
    data.subrange(i * LST_STATE_LEN, (i + 1) * LST_STATE_LEN)
}

/// Whether `list` is the list of liquid-stake tokens that `data` holds: `data` is made of
/// whole entries, and `list` has them in order.
pub open spec fn is_lst_state_list(list: Seq<LstState>, data: Seq<u8>) -> bool {
    &&& data.len() % LST_STATE_LEN as nat == 0
    &&& list.len() == data.len() / LST_STATE_LEN as nat
    &&& forall|i: int| 0 <= i < list.len() ==> is_lst_state(#[trigger] list[i], lst_entry(data, i))
}

/// The mint of entry `i` of a list.
pub open spec fn lst_mint_at(data: Seq<u8>, i: int) -> Seq<u8> {
    data.subrange(i * LST_STATE_LEN + 16, i * LST_STATE_LEN + 48)
}

/// The place of the first entry from `from` on, among the first `count`, whose mint is
/// `lst_mint`.
pub open spec fn lst_position(data: Seq<u8>, lst_mint: Pubkey, from: int, count: int) -> Option<
    int,
>
    decreases count - from,
{
    if from >= count {
        None
    } else if lst_mint_at(data, from) == lst_mint.bytes@ {
        Some(from)
    } else {
        lst_position(data, lst_mint, from + 1, count)
    }
}

/// The index of the liquid-stake token `lst_mint` in the list that `data` holds: the place
/// of its first entry, cut to 32 bits.
pub open spec fn lst_index(lst_mint: Pubkey, data: Seq<u8>) -> Result<u32, Error> {
    if data.len() % LST_STATE_LEN as nat != 0 {
        Err(Error::Router(ErrorCode::InvalidSanctumLstStateListData))
    } else {
        match lst_position(data, lst_mint, 0, data.len() as int / LST_STATE_LEN as int) {
            Some(i) => Ok((i % 0x1_0000_0000) as u32),
            None => Err(Error::Router(ErrorCode::InvalidSanctumLstStateListIndex)),
        }
    }
}

fn read_lst_state(data: &[u8], i: usize) -> (state: LstState)
    requires
        (i + 1) * LST_STATE_LEN <= data@.len(),
    ensures
        is_lst_state(state, lst_entry(data@, i as int)),
{
    let len: usize = data.len();
    let at: usize = i * LST_STATE_LEN;
    let ghost entry = lst_entry(data@, i as int);
    let mut padding: [u8; 5] = [0u8; 5];
    padding[0] = data[at + 3];
    padding[1] = data[at + 4];
    padding[2] = data[at + 5];
    padding[3] = data[at + 6];
    padding[4] = data[at + 7];
    let sol_value: u64 = match read_u64_le(data, at + 8) {
        Some(v) => v,
        None => 0,
    };
    let state = LstState {
        is_input_disabled: data[at],
        pool_reserves_bump: data[at + 1],
        protocol_fee_accumulator_bump: data[at + 2],
        padding,
        sol_value,
        mint: Pubkey::from_slice(data, at + 16),
        sol_value_calculator: Pubkey::from_slice(data, at + 48),
    };
    proof {
        assert(state.padding@ =~= entry.subrange(3, 8));
        assert(data@.subrange(at + 8, at + 8 + 8) =~= entry.subrange(8, 16));
        assert(data@.subrange(at + 16, at + 16 + 32) =~= entry.subrange(16, 48));
        assert(data@.subrange(at + 48, at + 48 + 32) =~= entry.subrange(48, 80));
    }
    state
}

/// Reads account data as the pool's list of liquid-stake tokens. The data must be made of
/// whole entries, with nothing before or after them.
pub fn try_lst_state_list(lst_state_list_acc_data: &[u8]) -> (r: Result<Vec<LstState>, Error>)
    ensures
        match r {
            Ok(list) => is_lst_state_list(list@, lst_state_list_acc_data@),
            Err(e) => e == Error::Router(ErrorCode::InvalidSanctumLstStateListData)
                && lst_state_list_acc_data@.len() % LST_STATE_LEN as nat != 0,
        },
{
    let data = lst_state_list_acc_data;
    if data.len() % LST_STATE_LEN != 0 {
        return Err(Error::Router(ErrorCode::InvalidSanctumLstStateListData));
    }
    let count: usize = data.len() / LST_STATE_LEN;
    let mut list: Vec<LstState> = Vec::with_capacity(count);
    let mut i: usize = 0;
    while i < count
        invariant
            i <= count,
            count * LST_STATE_LEN == data@.len(),
            list@.len() == i,
            forall|j: int| 0 <= j < i ==> is_lst_state(#[trigger] list@[j], lst_entry(data@, j)),
        decreases count - i,
    {
        let state = read_lst_state(data, i);
        list.push(state);
        i = i + 1;
    }
    Ok(list)
}

fn try_get_lst_index(lst_mint: Pubkey, lst_states_acc: &AccountInfo) -> (r: Result<u32, Error>)
    ensures
        r == lst_index(lst_mint, lst_states_acc.data@),
{
    let lst_states_list = try_lst_state_list(lst_states_acc.data.as_slice())?;
    let ghost data = lst_states_acc.data@;
    let count: usize = lst_states_list.len();
    let mut index: usize = 0;
    while index < count
        invariant
            index <= count,
            count == lst_states_list@.len(),
            data == lst_states_acc.data@,
            is_lst_state_list(lst_states_list@, data),
            lst_position(data, lst_mint, 0, count as int) == lst_position(
                data,
                lst_mint,
                index as int,
                count as int,
            ),
        decreases count - index,
    {
        let state = lst_states_list[index];
        proof {
            assert(is_lst_state(lst_states_list@[index as int], lst_entry(data, index as int)));
            assert(lst_entry(data, index as int).subrange(16, 48) =~= lst_mint_at(
                data,
                index as int,
            ));
            assert(state.mint == lst_mint <==> state.mint.bytes@ == lst_mint.bytes@) by {
                if state.mint.bytes@ == lst_mint.bytes@ {
                    assert(state.mint.bytes =~= lst_mint.bytes);
                }
            }
        }
        if state.mint == lst_mint {
            proof {
                assert(lst_position(data, lst_mint, index as int, count as int) == Some(
                    index as int,
                ));
                assert(count as int == data.len() as int / LST_STATE_LEN as int);
            }
            return Ok(((index as u64) % 0x1_0000_0000) as u32);
        }
        index = index + 1;
    }
    Err(Error::Router(ErrorCode::InvalidSanctumLstStateListIndex))
}

/// What `handle_prechecks` finds: the venue program comes first, the shared checks second.
pub open spec fn prechecks_error(
    dex_program_id: &AccountInfo,
    swap_authority_pubkey: &AccountInfo,
    swap_source_token: Pubkey,
    swap_destination_token: Pubkey,
    hop_accounts: HopAccounts,
    hop: usize,
    proxy_swap: bool,
) -> Option<Error> {
    if dex_program_id.key != address(SANCTUM_PROGRAM) {
        Some(Error::Router(ErrorCode::InvalidProgramId))
    } else {
        before_check_error(
            swap_authority_pubkey,
            swap_source_token,
            swap_destination_token,
            hop_accounts,
            hop,
            proxy_swap,
        )
    }
}

fn handle_prechecks(
    dex_program_id: &AccountInfo,
    swap_authority_pubkey: &AccountInfo,
    swap_source_token: Pubkey,
    swap_destination_token: Pubkey,
    hop_accounts: &HopAccounts,
    hop: usize,
    proxy_swap: bool,
) -> (r: Result<(), Error>)
    ensures
        match r {
            Ok(_) => prechecks_error(
                dex_program_id,
                swap_authority_pubkey,
                swap_source_token,
                swap_destination_token,
                *hop_accounts,
                hop,
                proxy_swap,
            ) is None,
            Err(e) => prechecks_error(
                dex_program_id,
                swap_authority_pubkey,
                swap_source_token,
                swap_destination_token,
                *hop_accounts,
                hop,
                proxy_swap,
            ) == Some(e),
        },
{
    if !dex_program_id.key.is(SANCTUM_PROGRAM) {
        return Err(Error::Router(ErrorCode::InvalidProgramId));
    }
    before_check(
        swap_authority_pubkey,
        swap_source_token,
        swap_destination_token,
        hop_accounts,
        hop,
        proxy_swap,
    )
}

/// The accounts of taking liquidity out: for the wrapped native asset, or for a
/// liquid-stake token.
#[derive(Clone, Copy, Debug)]
pub enum SanctumRemoveLiqAccounts<'info> {
    WSOL(SanctumRemoveWsolLiqAccounts<'info>),
    LST(SanctumRemoveLstLiqAccounts<'info>),
}

/// The accounts of an exchange: of a liquid-stake token for the wrapped native asset, of
/// the wrapped native asset for a liquid-stake token, or of one liquid-stake token for
/// another.
#[derive(Clone, Copy, Debug)]
pub enum SanctumSwapAccounts<'info> {
    LstWsol(SanctumLstWsolSwapAccounts<'info>),
    WsolLst(SanctumWsolLstSwapAccounts<'info>),
    LstLst(SanctumLstLstSwapAccounts<'info>),
}

/// The accounts of putting liquidity in: of the wrapped native asset, or of a liquid-stake
/// token.
#[derive(Clone, Copy, Debug)]
pub enum SanctumAddLiqAccounts<'info> {
    WSOL(SanctumAddWsolLiqAccounts<'info>),
    LST(SanctumAddLstLiqAccounts<'info>),
}

/// The pool adds nothing around its call.
pub struct SanctumProcessor;

impl DexProcessor for SanctumProcessor {
    open spec fn calls_before(
        &self,
        account_infos: Seq<AccountRef>,
    ) -> Result<Seq<CallView>, Error> {
        no_calls()
    }

    open spec fn calls_after(
        &self,
        account_infos: Seq<AccountRef>,
    ) -> Result<Seq<CallView>, Error> {
        no_calls()
    }

    fn before_invoke(&self, account_infos: &Vec<AccountRef>) -> (r: Result<Vec<Call>, Error>) {
        no_call()
    }

    fn after_invoke(&self, account_infos: &Vec<AccountRef>) -> (r: Result<Vec<Call>, Error>) {
        no_call()
    }
}

/// The accounts of putting a liquid-stake token into the pool.
#[derive(Clone, Copy, Debug)]
pub struct SanctumAddLstLiqAccounts<'info> {
    pub dex_program_id: &'info AccountInfo,
    pub swap_authority_pubkey: &'info AccountInfo,
    pub lst_mint: Mint<'info>,
    pub source_lst_acc: TokenAccount<'info>,
    pub dst_lp_acc: TokenAccount<'info>,
    pub lp_token_mint: Mint<'info>,
    pub protocol_fee_accumulator: TokenAccount<'info>,
    pub lst_token_program: Program<'info>,
    pub lp_token_program: Program<'info>,
    pub pool_state: &'info AccountInfo,
    pub lst_states_list: &'info AccountInfo,
    pub pool_reserves: &'info AccountInfo,
    pub spl_sol_calculator: &'info AccountInfo,
    pub calculator_state: &'info AccountInfo,
    pub staked_pool_state: &'info AccountInfo,
    pub validator_pool_program: &'info AccountInfo,
    pub validator_pool_program_data: &'info AccountInfo,
    pub sanctum_flat_fee_pricing: &'info AccountInfo,
}

/// The accounts of putting the wrapped native asset into the pool.
#[derive(Clone, Copy, Debug)]
pub struct SanctumAddWsolLiqAccounts<'info> {
    pub dex_program_id: &'info AccountInfo,
    pub swap_authority_pubkey: &'info AccountInfo,
    pub lst_mint: Mint<'info>,
    pub source_lst_acc: TokenAccount<'info>,
    pub dst_lp_acc: TokenAccount<'info>,
    pub lp_token_mint: Mint<'info>,
    pub protocol_fee_accumulator: TokenAccount<'info>,
    pub lst_token_program: Program<'info>,
    pub lp_token_program: Program<'info>,
    pub pool_state: &'info AccountInfo,
    pub lst_states_list: &'info AccountInfo,
    pub pool_reserves: &'info AccountInfo,
    pub wsol_calculator: &'info AccountInfo,
    pub sanctum_flat_fee_pricing: &'info AccountInfo,
}

/// The accounts of taking a liquid-stake token out of the pool.
#[derive(Clone, Copy, Debug)]
pub struct SanctumRemoveLstLiqAccounts<'info> {
    pub dex_program_id: &'info AccountInfo,
    pub swap_authority_pubkey: &'info AccountInfo,
    pub lst_mint: Mint<'info>,
    pub dst_lst_acc: TokenAccount<'info>,
    pub source_lp_acc: TokenAccount<'info>,
    pub lp_token_mint: Mint<'info>,
    pub protocol_fee_accumulator: TokenAccount<'info>,
    pub lst_token_program: Program<'info>,
    pub lp_token_program: Program<'info>,
    pub pool_state: &'info AccountInfo,
    pub lst_states_list: &'info AccountInfo,
    pub pool_reserves: &'info AccountInfo,
    pub spl_sol_calculator: &'info AccountInfo,
    pub calculator_state: &'info AccountInfo,
    pub staked_pool_state: &'info AccountInfo,
    pub validator_pool_program: &'info AccountInfo,
    pub validator_pool_program_data: &'info AccountInfo,
    pub sanctum_flat_fee_pricing: &'info AccountInfo,
    pub sanctum_flat_fee_pricing_account: &'info AccountInfo,
}

/// The accounts of taking the wrapped native asset out of the pool.
#[derive(Clone, Copy, Debug)]
pub struct SanctumRemoveWsolLiqAccounts<'info> {
    pub dex_program_id: &'info AccountInfo,
    pub swap_authority_pubkey: &'info AccountInfo,
    pub lst_mint: Mint<'info>,
    pub dst_lst_acc: TokenAccount<'info>,
    pub source_lp_acc: TokenAccount<'info>,
    pub lp_token_mint: Mint<'info>,
    pub protocol_fee_accumulator: TokenAccount<'info>,
    pub lst_token_program: Program<'info>,
    pub lp_token_program: Program<'info>,
    pub pool_state: &'info AccountInfo,
    pub lst_states_list: &'info AccountInfo,
    pub pool_reserves: &'info AccountInfo,
    pub wsol_calculator: &'info AccountInfo,
    pub sanctum_flat_fee_pricing: &'info AccountInfo,
    pub sanctum_flat_fee_pricing_account: &'info AccountInfo,
}

/// The accounts of an exchange of the wrapped native asset for a liquid-stake token.
#[derive(Clone, Copy, Debug)]
pub struct SanctumWsolLstSwapAccounts<'info> {
    pub dex_program_id: &'info AccountInfo,
    pub swap_authority_pubkey: &'info AccountInfo,
    pub source_lst_mint: Mint<'info>,
    pub dst_lst_mint: Mint<'info>,
    pub source_lst_account: TokenAccount<'info>,
    pub dst_lst_account: TokenAccount<'info>,
    pub protocol_fee_accumulator: TokenAccount<'info>,
    pub source_token_program: Program<'info>,
    pub dst_token_program: Program<'info>,
    pub pool_state: &'info AccountInfo,
    pub lst_states_list: &'info AccountInfo,
    pub source_pool_reserves: &'info AccountInfo,
    pub dst_pool_reserves: &'info AccountInfo,
    pub wsol_calculator: &'info AccountInfo,
    pub spl_sol_calculator: &'info AccountInfo,
    pub calculator_state: &'info AccountInfo,
    pub staked_pool_state: &'info AccountInfo,
    pub validator_pool_program: &'info AccountInfo,
    pub validator_pool_program_data: &'info AccountInfo,
    pub sanctum_flat_fee_pricing: &'info AccountInfo,
    pub sanctum_src_flat_fee_pricing_account: &'info AccountInfo,
    pub sanctum_dst_flat_fee_pricing_account: &'info AccountInfo,
}

/// The accounts of an exchange of a liquid-stake token for the wrapped native asset.
#[derive(Clone, Copy, Debug)]
pub struct SanctumLstWsolSwapAccounts<'info> {
    pub dex_program_id: &'info AccountInfo,
    pub swap_authority_pubkey: &'info AccountInfo,
    pub source_lst_mint: Mint<'info>,
    pub dst_lst_mint: Mint<'info>,
    pub source_lst_account: TokenAccount<'info>,
    pub dst_lst_account: TokenAccount<'info>,
    pub protocol_fee_accumulator: TokenAccount<'info>,
    pub source_token_program: Program<'info>,
    pub dst_token_program: Program<'info>,
    pub pool_state: &'info AccountInfo,
    pub lst_states_list: &'info AccountInfo,
    pub source_pool_reserves: &'info AccountInfo,
    pub dst_pool_reserves: &'info AccountInfo,
    pub spl_sol_calculator: &'info AccountInfo,
    pub calculator_state: &'info AccountInfo,
    pub staked_pool_state: &'info AccountInfo,
    pub validator_pool_program: &'info AccountInfo,
    pub validator_pool_program_data: &'info AccountInfo,
    pub wsol_calculator: &'info AccountInfo,
    pub sanctum_flat_fee_pricing: &'info AccountInfo,
    pub sanctum_src_flat_fee_pricing_account: &'info AccountInfo,
    pub sanctum_dst_flat_fee_pricing_account: &'info AccountInfo,
}

/// The accounts of an exchange of one liquid-stake token for another.
#[derive(Clone, Copy, Debug)]
pub struct SanctumLstLstSwapAccounts<'info> {
    pub dex_program_id: &'info AccountInfo,
    pub swap_authority_pubkey: &'info AccountInfo,
    pub source_lst_mint: Mint<'info>,
    pub dst_lst_mint: Mint<'info>,
    pub source_lst_account: TokenAccount<'info>,
    pub dst_lst_account: TokenAccount<'info>,
    pub protocol_fee_accumulator: TokenAccount<'info>,
    pub source_token_program: Program<'info>,
    pub dst_token_program: Program<'info>,
    pub pool_state: &'info AccountInfo,
    pub lst_states_list: &'info AccountInfo,
    pub source_pool_reserves: &'info AccountInfo,
    pub dst_pool_reserves: &'info AccountInfo,
    pub src_spl_sol_calculator: &'info AccountInfo,
    pub src_calculator_state: &'info AccountInfo,
    pub src_staked_pool_state: &'info AccountInfo,
    pub src_validator_pool_program: &'info AccountInfo,
    pub src_validator_pool_program_data: &'info AccountInfo,
    pub dst_spl_sol_calculator: &'info AccountInfo,
    pub dst_calculator_state: &'info AccountInfo,
    pub dst_staked_pool_state: &'info AccountInfo,
    pub dst_validator_pool_program: &'info AccountInfo,
    pub dst_validator_pool_program_data: &'info AccountInfo,
    pub sanctum_flat_fee_pricing: &'info AccountInfo,
    pub sanctum_src_flat_fee_pricing_account: &'info AccountInfo,
    pub sanctum_dst_flat_fee_pricing_account: &'info AccountInfo,
}

impl<'info> SanctumAddLstLiqAccounts<'info> {
    /// The accounts of `slice`, the venue's part of the flat list, each read as what its
    /// place asks for; or the failure of the first that is not that.
    pub open spec fn parsed(
        slice: Seq<AccountInfo>,
    ) -> Result<SanctumAddLstLiqAccounts<'info>, Error> {
        let lst_mint = Mint::parsed(&slice[2]);
        let source_lst_acc = TokenAccount::parsed(&slice[3]);
        let lp_token_mint = Mint::parsed(&slice[5]);
        let dst_lp_acc = TokenAccount::parsed(&slice[4]);
        let protocol_fee_accumulator = TokenAccount::parsed(&slice[6]);
        let lst_token_program = Program::parsed(&slice[7], ProgramKind::Token);
        let lp_token_program = Program::parsed(&slice[8], ProgramKind::Token);
        if lst_mint is Err {
            Err(lst_mint->Err_0)
        } else if source_lst_acc is Err {
            Err(source_lst_acc->Err_0)
        } else if lp_token_mint is Err {
            Err(lp_token_mint->Err_0)
        } else if dst_lp_acc is Err {
            Err(dst_lp_acc->Err_0)
        } else if protocol_fee_accumulator is Err {
            Err(protocol_fee_accumulator->Err_0)
        } else if lst_token_program is Err {
            Err(lst_token_program->Err_0)
        } else if lp_token_program is Err {
            Err(lp_token_program->Err_0)
        } else {
            Ok(
                SanctumAddLstLiqAccounts {
                    dex_program_id: &slice[0],
                    swap_authority_pubkey: &slice[1],
                    lst_mint: lst_mint->Ok_0,
                    source_lst_acc: source_lst_acc->Ok_0,
                    dst_lp_acc: dst_lp_acc->Ok_0,
                    lp_token_mint: lp_token_mint->Ok_0,
                    protocol_fee_accumulator: protocol_fee_accumulator->Ok_0,
                    lst_token_program: lst_token_program->Ok_0,
                    lp_token_program: lp_token_program->Ok_0,
                    pool_state: &slice[9],
                    lst_states_list: &slice[10],
                    pool_reserves: &slice[11],
                    spl_sol_calculator: &slice[12],
                    calculator_state: &slice[13],
                    staked_pool_state: &slice[14],
                    validator_pool_program: &slice[15],
                    validator_pool_program_data: &slice[16],
                    sanctum_flat_fee_pricing: &slice[17],
                },
            )
        }
    }

    fn parse_accounts(accounts: &'info [AccountInfo], offset: usize) -> (r: Result<
        SanctumAddLstLiqAccounts<'info>,
        Error,
    >)
        requires
            offset + ADD_LST_LIQ_ACCOUNTS_LEN <= accounts@.len(),
        ensures
            r == Self::parsed(accounts@.subrange(offset as int, offset + ADD_LST_LIQ_ACCOUNTS_LEN)),
    {
        let dex_program_id = &accounts[offset];
        let swap_authority_pubkey = &accounts[offset + 1];
        let pool_state = &accounts[offset + 9];
        let lst_states_list = &accounts[offset + 10];
        let pool_reserves = &accounts[offset + 11];
        let spl_sol_calculator = &accounts[offset + 12];
        let calculator_state = &accounts[offset + 13];
        let staked_pool_state = &accounts[offset + 14];
        let validator_pool_program = &accounts[offset + 15];
        let validator_pool_program_data = &accounts[offset + 16];
        let sanctum_flat_fee_pricing = &accounts[offset + 17];
        let lst_mint = Mint::try_from(&accounts[offset + 2])?;
        let source_lst_acc = TokenAccount::try_from(&accounts[offset + 3])?;
        let lp_token_mint = Mint::try_from(&accounts[offset + 5])?;
        let dst_lp_acc = TokenAccount::try_from(&accounts[offset + 4])?;
        let protocol_fee_accumulator = TokenAccount::try_from(&accounts[offset + 6])?;
        let lst_token_program = Program::try_from(&accounts[offset + 7], ProgramKind::Token)?;
        let lp_token_program = Program::try_from(&accounts[offset + 8], ProgramKind::Token)?;
        Ok(
            SanctumAddLstLiqAccounts {
                dex_program_id,
                swap_authority_pubkey,
                lst_mint,
                source_lst_acc,
                dst_lp_acc,
                lp_token_mint,
                protocol_fee_accumulator,
                lst_token_program,
                lp_token_program,
                pool_state,
                lst_states_list,
                pool_reserves,
                spl_sol_calculator,
                calculator_state,
                staked_pool_state,
                validator_pool_program,
                validator_pool_program_data,
                sanctum_flat_fee_pricing,
            },
        )
    }
}

impl<'info> SanctumAddWsolLiqAccounts<'info> {
    /// The accounts of `slice`, the venue's part of the flat list, each read as what its
    /// place asks for; or the failure of the first that is not that.
    pub open spec fn parsed(
        slice: Seq<AccountInfo>,
    ) -> Result<SanctumAddWsolLiqAccounts<'info>, Error> {
        let lst_mint = Mint::parsed(&slice[2]);
        let source_lst_acc = TokenAccount::parsed(&slice[3]);
        let lp_token_mint = Mint::parsed(&slice[5]);
        let dst_lp_acc = TokenAccount::parsed(&slice[4]);
        let protocol_fee_accumulator = TokenAccount::parsed(&slice[6]);
        let lst_token_program = Program::parsed(&slice[7], ProgramKind::Token);
        let lp_token_program = Program::parsed(&slice[8], ProgramKind::Token);
        if lst_mint is Err {
            Err(lst_mint->Err_0)
        } else if source_lst_acc is Err {
            Err(source_lst_acc->Err_0)
        } else if lp_token_mint is Err {
            Err(lp_token_mint->Err_0)
        } else if dst_lp_acc is Err {
            Err(dst_lp_acc->Err_0)
        } else if protocol_fee_accumulator is Err {
            Err(protocol_fee_accumulator->Err_0)
        } else if lst_token_program is Err {
            Err(lst_token_program->Err_0)
        } else if lp_token_program is Err {
            Err(lp_token_program->Err_0)
        } else {
            Ok(
                SanctumAddWsolLiqAccounts {
                    dex_program_id: &slice[0],
                    swap_authority_pubkey: &slice[1],
                    lst_mint: lst_mint->Ok_0,
                    source_lst_acc: source_lst_acc->Ok_0,
                    dst_lp_acc: dst_lp_acc->Ok_0,
                    lp_token_mint: lp_token_mint->Ok_0,
                    protocol_fee_accumulator: protocol_fee_accumulator->Ok_0,
                    lst_token_program: lst_token_program->Ok_0,
                    lp_token_program: lp_token_program->Ok_0,
                    pool_state: &slice[9],
                    lst_states_list: &slice[10],
                    pool_reserves: &slice[11],
                    wsol_calculator: &slice[12],
                    sanctum_flat_fee_pricing: &slice[13],
                },
            )
        }
    }

    fn parse_accounts(accounts: &'info [AccountInfo], offset: usize) -> (r: Result<
        SanctumAddWsolLiqAccounts<'info>,
        Error,
    >)
        requires
            offset + ADD_WSOL_LIQ_ACCOUNTS_LEN <= accounts@.len(),
        ensures
            r == Self::parsed(
                accounts@.subrange(offset as int, offset + ADD_WSOL_LIQ_ACCOUNTS_LEN),
            ),
    {
        let dex_program_id = &accounts[offset];
        let swap_authority_pubkey = &accounts[offset + 1];
        let pool_state = &accounts[offset + 9];
        let lst_states_list = &accounts[offset + 10];
        let pool_reserves = &accounts[offset + 11];
        let wsol_calculator = &accounts[offset + 12];
        let sanctum_flat_fee_pricing = &accounts[offset + 13];
        let lst_mint = Mint::try_from(&accounts[offset + 2])?;
        let source_lst_acc = TokenAccount::try_from(&accounts[offset + 3])?;
        let lp_token_mint = Mint::try_from(&accounts[offset + 5])?;
        let dst_lp_acc = TokenAccount::try_from(&accounts[offset + 4])?;
        let protocol_fee_accumulator = TokenAccount::try_from(&accounts[offset + 6])?;
        let lst_token_program = Program::try_from(&accounts[offset + 7], ProgramKind::Token)?;
        let lp_token_program = Program::try_from(&accounts[offset + 8], ProgramKind::Token)?;
        Ok(
            SanctumAddWsolLiqAccounts {
                dex_program_id,
                swap_authority_pubkey,
                lst_mint,
                source_lst_acc,
                dst_lp_acc,
                lp_token_mint,
                protocol_fee_accumulator,
                lst_token_program,
                lp_token_program,
                pool_state,
                lst_states_list,
                pool_reserves,
                wsol_calculator,
                sanctum_flat_fee_pricing,
            },
        )
    }
}

impl<'info> SanctumRemoveLstLiqAccounts<'info> {
    /// The accounts of `slice`, the venue's part of the flat list, each read as what its
    /// place asks for; or the failure of the first that is not that.
    pub open spec fn parsed(
        slice: Seq<AccountInfo>,
    ) -> Result<SanctumRemoveLstLiqAccounts<'info>, Error> {
        let lst_mint = Mint::parsed(&slice[2]);
        let dst_lst_acc = TokenAccount::parsed(&slice[3]);
        let source_lp_acc = TokenAccount::parsed(&slice[4]);
        let lp_token_mint = Mint::parsed(&slice[5]);
        let protocol_fee_accumulator = TokenAccount::parsed(&slice[6]);
        let lst_token_program = Program::parsed(&slice[7], ProgramKind::Token);
        let lp_token_program = Program::parsed(&slice[8], ProgramKind::Token);
        if lst_mint is Err {
            Err(lst_mint->Err_0)
        } else if dst_lst_acc is Err {
            Err(dst_lst_acc->Err_0)
        } else if source_lp_acc is Err {
            Err(source_lp_acc->Err_0)
        } else if lp_token_mint is Err {
            Err(lp_token_mint->Err_0)
        } else if protocol_fee_accumulator is Err {
            Err(protocol_fee_accumulator->Err_0)
        } else if lst_token_program is Err {
            Err(lst_token_program->Err_0)
        } else if lp_token_program is Err {
            Err(lp_token_program->Err_0)
        } else {
            Ok(
                SanctumRemoveLstLiqAccounts {
                    dex_program_id: &slice[0],
                    swap_authority_pubkey: &slice[1],
                    lst_mint: lst_mint->Ok_0,
                    dst_lst_acc: dst_lst_acc->Ok_0,
                    source_lp_acc: source_lp_acc->Ok_0,
                    lp_token_mint: lp_token_mint->Ok_0,
                    protocol_fee_accumulator: protocol_fee_accumulator->Ok_0,
                    lst_token_program: lst_token_program->Ok_0,
                    lp_token_program: lp_token_program->Ok_0,
                    pool_state: &slice[9],
                    lst_states_list: &slice[10],
                    pool_reserves: &slice[11],
                    spl_sol_calculator: &slice[12],
                    calculator_state: &slice[13],
                    staked_pool_state: &slice[14],
                    validator_pool_program: &slice[15],
                    validator_pool_program_data: &slice[16],
                    sanctum_flat_fee_pricing: &slice[17],
                    sanctum_flat_fee_pricing_account: &slice[18],
                },
            )
        }
    }

    fn parse_accounts(accounts: &'info [AccountInfo], offset: usize) -> (r: Result<
        SanctumRemoveLstLiqAccounts<'info>,
        Error,
    >)
        requires
            offset + REMOVE_LST_LIQ_ACCOUNTS_LEN <= accounts@.len(),
        ensures
            r == Self::parsed(
                accounts@.subrange(offset as int, offset + REMOVE_LST_LIQ_ACCOUNTS_LEN),
            ),
    {
        Ok(
            SanctumRemoveLstLiqAccounts {
                dex_program_id: &accounts[offset],
                swap_authority_pubkey: &accounts[offset + 1],
                lst_mint: Mint::try_from(&accounts[offset + 2])?,
                dst_lst_acc: TokenAccount::try_from(&accounts[offset + 3])?,
                source_lp_acc: TokenAccount::try_from(&accounts[offset + 4])?,
                lp_token_mint: Mint::try_from(&accounts[offset + 5])?,
                protocol_fee_accumulator: TokenAccount::try_from(&accounts[offset + 6])?,
                lst_token_program: Program::try_from(&accounts[offset + 7], ProgramKind::Token)?,
                lp_token_program: Program::try_from(&accounts[offset + 8], ProgramKind::Token)?,
                pool_state: &accounts[offset + 9],
                lst_states_list: &accounts[offset + 10],
                pool_reserves: &accounts[offset + 11],
                spl_sol_calculator: &accounts[offset + 12],
                calculator_state: &accounts[offset + 13],
                staked_pool_state: &accounts[offset + 14],
                validator_pool_program: &accounts[offset + 15],
                validator_pool_program_data: &accounts[offset + 16],
                sanctum_flat_fee_pricing: &accounts[offset + 17],
                sanctum_flat_fee_pricing_account: &accounts[offset + 18],
            },
        )
    }
}

impl<'info> SanctumRemoveWsolLiqAccounts<'info> {
    /// The accounts of `slice`, the venue's part of the flat list, each read as what its
    /// place asks for; or the failure of the first that is not that.
    pub open spec fn parsed(
        slice: Seq<AccountInfo>,
    ) -> Result<SanctumRemoveWsolLiqAccounts<'info>, Error> {
        let lst_mint = Mint::parsed(&slice[2]);
        let dst_lst_acc = TokenAccount::parsed(&slice[3]);
        let source_lp_acc = TokenAccount::parsed(&slice[4]);
        let lp_token_mint = Mint::parsed(&slice[5]);
        let protocol_fee_accumulator = TokenAccount::parsed(&slice[6]);
        let lst_token_program = Program::parsed(&slice[7], ProgramKind::Token);
        let lp_token_program = Program::parsed(&slice[8], ProgramKind::Token);
        if lst_mint is Err {
            Err(lst_mint->Err_0)
        } else if dst_lst_acc is Err {
            Err(dst_lst_acc->Err_0)
        } else if source_lp_acc is Err {
            Err(source_lp_acc->Err_0)
        } else if lp_token_mint is Err {
            Err(lp_token_mint->Err_0)
        } else if protocol_fee_accumulator is Err {
            Err(protocol_fee_accumulator->Err_0)
        } else if lst_token_program is Err {
            Err(lst_token_program->Err_0)
        } else if lp_token_program is Err {
            Err(lp_token_program->Err_0)
        } else {
            Ok(
                SanctumRemoveWsolLiqAccounts {
                    dex_program_id: &slice[0],
                    swap_authority_pubkey: &slice[1],
                    lst_mint: lst_mint->Ok_0,
                    dst_lst_acc: dst_lst_acc->Ok_0,
                    source_lp_acc: source_lp_acc->Ok_0,
                    lp_token_mint: lp_token_mint->Ok_0,
                    protocol_fee_accumulator: protocol_fee_accumulator->Ok_0,
                    lst_token_program: lst_token_program->Ok_0,
                    lp_token_program: lp_token_program->Ok_0,
                    pool_state: &slice[9],
                    lst_states_list: &slice[10],
                    pool_reserves: &slice[11],
                    wsol_calculator: &slice[12],
                    sanctum_flat_fee_pricing: &slice[13],
                    sanctum_flat_fee_pricing_account: &slice[14],
                },
            )
        }
    }

    fn parse_accounts(accounts: &'info [AccountInfo], offset: usize) -> (r: Result<
        SanctumRemoveWsolLiqAccounts<'info>,
        Error,
    >)
        requires
            offset + REMOVE_WSOL_LIQ_ACCOUNTS_LEN <= accounts@.len(),
        ensures
            r == Self::parsed(
                accounts@.subrange(offset as int, offset + REMOVE_WSOL_LIQ_ACCOUNTS_LEN),
            ),
    {
        Ok(
            SanctumRemoveWsolLiqAccounts {
                dex_program_id: &accounts[offset],
                swap_authority_pubkey: &accounts[offset + 1],
                lst_mint: Mint::try_from(&accounts[offset + 2])?,
                dst_lst_acc: TokenAccount::try_from(&accounts[offset + 3])?,
                source_lp_acc: TokenAccount::try_from(&accounts[offset + 4])?,
                lp_token_mint: Mint::try_from(&accounts[offset + 5])?,
                protocol_fee_accumulator: TokenAccount::try_from(&accounts[offset + 6])?,
                lst_token_program: Program::try_from(&accounts[offset + 7], ProgramKind::Token)?,
                lp_token_program: Program::try_from(&accounts[offset + 8], ProgramKind::Token)?,
                pool_state: &accounts[offset + 9],
                lst_states_list: &accounts[offset + 10],
                pool_reserves: &accounts[offset + 11],
                wsol_calculator: &accounts[offset + 12],
                sanctum_flat_fee_pricing: &accounts[offset + 13],
                sanctum_flat_fee_pricing_account: &accounts[offset + 14],
            },
        )
    }
}

impl<'info> SanctumWsolLstSwapAccounts<'info> {
    /// The accounts of `slice`, the venue's part of the flat list, each read as what its
    /// place asks for; or the failure of the first that is not that.
    pub open spec fn parsed(
        slice: Seq<AccountInfo>,
    ) -> Result<SanctumWsolLstSwapAccounts<'info>, Error> {
        let source_lst_mint = Mint::parsed(&slice[2]);
        let dst_lst_mint = Mint::parsed(&slice[3]);
        let source_lst_account = TokenAccount::parsed(&slice[4]);
        let dst_lst_account = TokenAccount::parsed(&slice[5]);
        let protocol_fee_accumulator = TokenAccount::parsed(&slice[6]);
        let source_token_program = Program::parsed(&slice[7], ProgramKind::Token);
        let dst_token_program = Program::parsed(&slice[8], ProgramKind::Token);
        if source_lst_mint is Err {
            Err(source_lst_mint->Err_0)
        } else if dst_lst_mint is Err {
            Err(dst_lst_mint->Err_0)
        } else if source_lst_account is Err {
            Err(source_lst_account->Err_0)
        } else if dst_lst_account is Err {
            Err(dst_lst_account->Err_0)
        } else if protocol_fee_accumulator is Err {
            Err(protocol_fee_accumulator->Err_0)
        } else if source_token_program is Err {
            Err(source_token_program->Err_0)
        } else if dst_token_program is Err {
            Err(dst_token_program->Err_0)
        } else {
            Ok(
                SanctumWsolLstSwapAccounts {
                    dex_program_id: &slice[0],
                    swap_authority_pubkey: &slice[1],
                    source_lst_mint: source_lst_mint->Ok_0,
                    dst_lst_mint: dst_lst_mint->Ok_0,
                    source_lst_account: source_lst_account->Ok_0,
                    dst_lst_account: dst_lst_account->Ok_0,
                    protocol_fee_accumulator: protocol_fee_accumulator->Ok_0,
                    source_token_program: source_token_program->Ok_0,
                    dst_token_program: dst_token_program->Ok_0,
                    pool_state: &slice[9],
                    lst_states_list: &slice[10],
                    source_pool_reserves: &slice[11],
                    dst_pool_reserves: &slice[12],
                    wsol_calculator: &slice[13],
                    spl_sol_calculator: &slice[14],
                    calculator_state: &slice[15],
                    staked_pool_state: &slice[16],
                    validator_pool_program: &slice[17],
                    validator_pool_program_data: &slice[18],
                    sanctum_flat_fee_pricing: &slice[19],
                    sanctum_src_flat_fee_pricing_account: &slice[20],
                    sanctum_dst_flat_fee_pricing_account: &slice[21],
                },
            )
        }
    }

    fn parse_accounts(accounts: &'info [AccountInfo], offset: usize) -> (r: Result<
        SanctumWsolLstSwapAccounts<'info>,
        Error,
    >)
        requires
            offset + SWAP_LST_SOL_ACCOUNTS_LEN <= accounts@.len(),
        ensures
            r == Self::parsed(
                accounts@.subrange(offset as int, offset + SWAP_LST_SOL_ACCOUNTS_LEN),
            ),
    {
        Ok(
            SanctumWsolLstSwapAccounts {
                dex_program_id: &accounts[offset],
                swap_authority_pubkey: &accounts[offset + 1],
                source_lst_mint: Mint::try_from(&accounts[offset + 2])?,
                dst_lst_mint: Mint::try_from(&accounts[offset + 3])?,
                source_lst_account: TokenAccount::try_from(&accounts[offset + 4])?,
                dst_lst_account: TokenAccount::try_from(&accounts[offset + 5])?,
                protocol_fee_accumulator: TokenAccount::try_from(&accounts[offset + 6])?,
                source_token_program: Program::try_from(&accounts[offset + 7], ProgramKind::Token)?,
                dst_token_program: Program::try_from(&accounts[offset + 8], ProgramKind::Token)?,
                pool_state: &accounts[offset + 9],
                lst_states_list: &accounts[offset + 10],
                source_pool_reserves: &accounts[offset + 11],
                dst_pool_reserves: &accounts[offset + 12],
                wsol_calculator: &accounts[offset + 13],
                spl_sol_calculator: &accounts[offset + 14],
                calculator_state: &accounts[offset + 15],
                staked_pool_state: &accounts[offset + 16],
                validator_pool_program: &accounts[offset + 17],
                validator_pool_program_data: &accounts[offset + 18],
                sanctum_flat_fee_pricing: &accounts[offset + 19],
                sanctum_src_flat_fee_pricing_account: &accounts[offset + 20],
                sanctum_dst_flat_fee_pricing_account: &accounts[offset + 21],
            },
        )
    }
}

impl<'info> SanctumLstWsolSwapAccounts<'info> {
    /// The accounts of `slice`, the venue's part of the flat list, each read as what its
    /// place asks for; or the failure of the first that is not that.
    pub open spec fn parsed(
        slice: Seq<AccountInfo>,
    ) -> Result<SanctumLstWsolSwapAccounts<'info>, Error> {
        let source_lst_mint = Mint::parsed(&slice[2]);
        let dst_lst_mint = Mint::parsed(&slice[3]);
        let source_lst_account = TokenAccount::parsed(&slice[4]);
        let dst_lst_account = TokenAccount::parsed(&slice[5]);
        let protocol_fee_accumulator = TokenAccount::parsed(&slice[6]);
        let source_token_program = Program::parsed(&slice[7], ProgramKind::Token);
        let dst_token_program = Program::parsed(&slice[8], ProgramKind::Token);
        if source_lst_mint is Err {
            Err(source_lst_mint->Err_0)
        } else if dst_lst_mint is Err {
            Err(dst_lst_mint->Err_0)
        } else if source_lst_account is Err {
            Err(source_lst_account->Err_0)
        } else if dst_lst_account is Err {
            Err(dst_lst_account->Err_0)
        } else if protocol_fee_accumulator is Err {
            Err(protocol_fee_accumulator->Err_0)
        } else if source_token_program is Err {
            Err(source_token_program->Err_0)
        } else if dst_token_program is Err {
            Err(dst_token_program->Err_0)
        } else {
            Ok(
                SanctumLstWsolSwapAccounts {
                    dex_program_id: &slice[0],
                    swap_authority_pubkey: &slice[1],
                    source_lst_mint: source_lst_mint->Ok_0,
                    dst_lst_mint: dst_lst_mint->Ok_0,
                    source_lst_account: source_lst_account->Ok_0,
                    dst_lst_account: dst_lst_account->Ok_0,
                    protocol_fee_accumulator: protocol_fee_accumulator->Ok_0,
                    source_token_program: source_token_program->Ok_0,
                    dst_token_program: dst_token_program->Ok_0,
                    pool_state: &slice[9],
                    lst_states_list: &slice[10],
                    source_pool_reserves: &slice[11],
                    dst_pool_reserves: &slice[12],
                    spl_sol_calculator: &slice[13],
                    calculator_state: &slice[14],
                    staked_pool_state: &slice[15],
                    validator_pool_program: &slice[16],
                    validator_pool_program_data: &slice[17],
                    wsol_calculator: &slice[18],
                    sanctum_flat_fee_pricing: &slice[19],
                    sanctum_src_flat_fee_pricing_account: &slice[20],
                    sanctum_dst_flat_fee_pricing_account: &slice[21],
                },
            )
        }
    }

    fn parse_accounts(accounts: &'info [AccountInfo], offset: usize) -> (r: Result<
        SanctumLstWsolSwapAccounts<'info>,
        Error,
    >)
        requires
            offset + SWAP_LST_SOL_ACCOUNTS_LEN <= accounts@.len(),
        ensures
            r == Self::parsed(
                accounts@.subrange(offset as int, offset + SWAP_LST_SOL_ACCOUNTS_LEN),
            ),
    {
        Ok(
            SanctumLstWsolSwapAccounts {
                dex_program_id: &accounts[offset],
                swap_authority_pubkey: &accounts[offset + 1],
                source_lst_mint: Mint::try_from(&accounts[offset + 2])?,
                dst_lst_mint: Mint::try_from(&accounts[offset + 3])?,
                source_lst_account: TokenAccount::try_from(&accounts[offset + 4])?,
                dst_lst_account: TokenAccount::try_from(&accounts[offset + 5])?,
                protocol_fee_accumulator: TokenAccount::try_from(&accounts[offset + 6])?,
                source_token_program: Program::try_from(&accounts[offset + 7], ProgramKind::Token)?,
                dst_token_program: Program::try_from(&accounts[offset + 8], ProgramKind::Token)?,
                pool_state: &accounts[offset + 9],
                lst_states_list: &accounts[offset + 10],
                source_pool_reserves: &accounts[offset + 11],
                dst_pool_reserves: &accounts[offset + 12],
                spl_sol_calculator: &accounts[offset + 13],
                calculator_state: &accounts[offset + 14],
                staked_pool_state: &accounts[offset + 15],
                validator_pool_program: &accounts[offset + 16],
                validator_pool_program_data: &accounts[offset + 17],
                wsol_calculator: &accounts[offset + 18],
                sanctum_flat_fee_pricing: &accounts[offset + 19],
                sanctum_src_flat_fee_pricing_account: &accounts[offset + 20],
                sanctum_dst_flat_fee_pricing_account: &accounts[offset + 21],
            },
        )
    }
}

impl<'info> SanctumLstLstSwapAccounts<'info> {
    /// The accounts of `slice`, the venue's part of the flat list, each read as what its
    /// place asks for; or the failure of the first that is not that.
    pub open spec fn parsed(
        slice: Seq<AccountInfo>,
    ) -> Result<SanctumLstLstSwapAccounts<'info>, Error> {
        let source_lst_mint = Mint::parsed(&slice[2]);
        let dst_lst_mint = Mint::parsed(&slice[3]);
        let source_lst_account = TokenAccount::parsed(&slice[4]);
        let dst_lst_account = TokenAccount::parsed(&slice[5]);
        let protocol_fee_accumulator = TokenAccount::parsed(&slice[6]);
        let source_token_program = Program::parsed(&slice[7], ProgramKind::Token);
        let dst_token_program = Program::parsed(&slice[8], ProgramKind::Token);
        if source_lst_mint is Err {
            Err(source_lst_mint->Err_0)
        } else if dst_lst_mint is Err {
            Err(dst_lst_mint->Err_0)
        } else if source_lst_account is Err {
            Err(source_lst_account->Err_0)
        } else if dst_lst_account is Err {
            Err(dst_lst_account->Err_0)
        } else if protocol_fee_accumulator is Err {
            Err(protocol_fee_accumulator->Err_0)
        } else if source_token_program is Err {
            Err(source_token_program->Err_0)
        } else if dst_token_program is Err {
            Err(dst_token_program->Err_0)
        } else {
            Ok(
                SanctumLstLstSwapAccounts {
                    dex_program_id: &slice[0],
                    swap_authority_pubkey: &slice[1],
                    source_lst_mint: source_lst_mint->Ok_0,
                    dst_lst_mint: dst_lst_mint->Ok_0,
                    source_lst_account: source_lst_account->Ok_0,
                    dst_lst_account: dst_lst_account->Ok_0,
                    protocol_fee_accumulator: protocol_fee_accumulator->Ok_0,
                    source_token_program: source_token_program->Ok_0,
                    dst_token_program: dst_token_program->Ok_0,
                    pool_state: &slice[9],
                    lst_states_list: &slice[10],
                    source_pool_reserves: &slice[11],
                    dst_pool_reserves: &slice[12],
                    src_spl_sol_calculator: &slice[13],
                    src_calculator_state: &slice[14],
                    src_staked_pool_state: &slice[15],
                    src_validator_pool_program: &slice[16],
                    src_validator_pool_program_data: &slice[17],
                    dst_spl_sol_calculator: &slice[18],
                    dst_calculator_state: &slice[19],
                    dst_staked_pool_state: &slice[20],
                    dst_validator_pool_program: &slice[21],
                    dst_validator_pool_program_data: &slice[22],
                    sanctum_flat_fee_pricing: &slice[23],
                    sanctum_src_flat_fee_pricing_account: &slice[24],
                    sanctum_dst_flat_fee_pricing_account: &slice[25],
                },
            )
        }
    }

    fn parse_accounts(accounts: &'info [AccountInfo], offset: usize) -> (r: Result<
        SanctumLstLstSwapAccounts<'info>,
        Error,
    >)
        requires
            offset + SWAP_LST_LST_ACCOUNTS_LEN <= accounts@.len(),
        ensures
            r == Self::parsed(
                accounts@.subrange(offset as int, offset + SWAP_LST_LST_ACCOUNTS_LEN),
            ),
    {
        Ok(
            SanctumLstLstSwapAccounts {
                dex_program_id: &accounts[offset],
                swap_authority_pubkey: &accounts[offset + 1],
                source_lst_mint: Mint::try_from(&accounts[offset + 2])?,
                dst_lst_mint: Mint::try_from(&accounts[offset + 3])?,
                source_lst_account: TokenAccount::try_from(&accounts[offset + 4])?,
                dst_lst_account: TokenAccount::try_from(&accounts[offset + 5])?,
                protocol_fee_accumulator: TokenAccount::try_from(&accounts[offset + 6])?,
                source_token_program: Program::try_from(&accounts[offset + 7], ProgramKind::Token)?,
                dst_token_program: Program::try_from(&accounts[offset + 8], ProgramKind::Token)?,
                pool_state: &accounts[offset + 9],
                lst_states_list: &accounts[offset + 10],
                source_pool_reserves: &accounts[offset + 11],
                dst_pool_reserves: &accounts[offset + 12],
                src_spl_sol_calculator: &accounts[offset + 13],
                src_calculator_state: &accounts[offset + 14],
                src_staked_pool_state: &accounts[offset + 15],
                src_validator_pool_program: &accounts[offset + 16],
                src_validator_pool_program_data: &accounts[offset + 17],
                dst_spl_sol_calculator: &accounts[offset + 18],
                dst_calculator_state: &accounts[offset + 19],
                dst_staked_pool_state: &accounts[offset + 20],
                dst_validator_pool_program: &accounts[offset + 21],
                dst_validator_pool_program_data: &accounts[offset + 22],
                sanctum_flat_fee_pricing: &accounts[offset + 23],
                sanctum_src_flat_fee_pricing_account: &accounts[offset + 24],
                sanctum_dst_flat_fee_pricing_account: &accounts[offset + 25],
            },
        )
    }
}

/// The payload of putting liquidity in or taking it out: the tag of the instruction, the number
/// of accounts of the token's value calculator, the index of the token in the pool's list, the
/// amount, and the least amount to take for it.
pub open spec fn liquidity_data(
    discriminant: u8,
    lst_value_calc_accs: u8,
    lst_index: u32,
    lst_amount: u64,
    min_out: u64,
) -> Seq<u8> {
    seq![discriminant]
        + seq![lst_value_calc_accs]
        + le_bytes(lst_index as nat, 4)
        + le_bytes(lst_amount as nat, 8)
        + le_bytes(min_out as nat, 8)
}

/// The payload of putting liquidity in or taking it out: the tag of the instruction, the number
/// of accounts of the token's value calculator, the index of the token in the pool's list, the
/// amount, and the least amount to take for it.
pub fn pack_liquidity_instruction(
    discriminant: u8,
    lst_value_calc_accs: u8,
    lst_index: u32,
    lst_amount: u64,
    min_out: u64,
) -> (data: Vec<u8>)
    ensures
        data@ == liquidity_data(discriminant, lst_value_calc_accs, lst_index, lst_amount, min_out),
        data@.len() == ADD_REMOVE_LIQ_ARGS_LEN,
{
    let mut data: Vec<u8> = Vec::with_capacity(ADD_REMOVE_LIQ_ARGS_LEN);
    data.push(discriminant);
    data.push(lst_value_calc_accs);
    push_le(&mut data, lst_index as u128, 4);
    push_le(&mut data, lst_amount as u128, 8);
    push_le(&mut data, min_out as u128, 8);
    data
}

/// The payload of an exchange: the tag of the instruction, the numbers of accounts of the two
/// tokens' value calculators, the indices of the two tokens in the pool's list, the least
/// amount to take, and the amount to sell.
pub open spec fn swap_exact_in_data(
    src_lst_value_calc_accs: u8,
    dst_lst_value_calc_accs: u8,
    src_lst_index: u32,
    dst_lst_index: u32,
    min_amount_out: u64,
    amount: u64,
) -> Seq<u8> {
    seq![1u8]
        + seq![src_lst_value_calc_accs]
        + seq![dst_lst_value_calc_accs]
        + le_bytes(src_lst_index as nat, 4)
        + le_bytes(dst_lst_index as nat, 4)
        + le_bytes(min_amount_out as nat, 8)
        + le_bytes(amount as nat, 8)
}

/// The payload of an exchange: the tag of the instruction, the numbers of accounts of the two
/// tokens' value calculators, the indices of the two tokens in the pool's list, the least
/// amount to take, and the amount to sell.
pub fn pack_swap_exact_in_instruction(
    src_lst_value_calc_accs: u8,
    dst_lst_value_calc_accs: u8,
    src_lst_index: u32,
    dst_lst_index: u32,
    min_amount_out: u64,
    amount: u64,
) -> (data: Vec<u8>)
    ensures
        data@ == swap_exact_in_data(
            src_lst_value_calc_accs,
            dst_lst_value_calc_accs,
            src_lst_index,
            dst_lst_index,
            min_amount_out,
            amount,
        ),
        data@.len() == SWAP_EXACT_IN_ARGS_LEN,
{
    let mut data: Vec<u8> = Vec::with_capacity(SWAP_EXACT_IN_ARGS_LEN);
    data.push(1u8);
    data.push(src_lst_value_calc_accs);
    data.push(dst_lst_value_calc_accs);
    push_le(&mut data, src_lst_index as u128, 4);
    push_le(&mut data, dst_lst_index as u128, 4);
    push_le(&mut data, min_amount_out as u128, 8);
    push_le(&mut data, amount as u128, 8);
    data
}

impl<'info> SanctumAddLstLiqAccounts<'info> {
    /// The accounts of the venue's instruction, in the order the venue wants them.
    pub open spec fn add_liquidity_metas(&self) -> Seq<AccountMeta> {
        seq![
            writable(self.swap_authority_pubkey.key, true),
            readonly(self.lst_mint.info.key, false),
            writable(self.source_lst_acc.info.key, false),
            writable(self.dst_lp_acc.info.key, false),
            writable(self.lp_token_mint.info.key, false),
            writable(self.protocol_fee_accumulator.info.key, false),
            readonly(self.lst_token_program.info.key, false),
            readonly(self.lp_token_program.info.key, false),
            writable(self.pool_state.key, false),
            writable(self.lst_states_list.key, false),
            writable(self.pool_reserves.key, false),
            readonly(self.spl_sol_calculator.key, false),
            readonly(self.calculator_state.key, false),
            readonly(self.staked_pool_state.key, false),
            readonly(self.validator_pool_program.key, false),
            readonly(self.validator_pool_program_data.key, false),
            readonly(self.sanctum_flat_fee_pricing.key, false),
        ]
    }

    /// The accounts handed to the call.
    pub open spec fn add_liquidity_infos(&self, offset: usize) -> Seq<AccountRef> {
        seq![
            account_ref(self.swap_authority_pubkey.key, offset, 1),
            account_ref(self.lst_mint.info.key, offset, 2),
            account_ref(self.source_lst_acc.info.key, offset, 3),
            account_ref(self.dst_lp_acc.info.key, offset, 4),
            account_ref(self.lp_token_mint.info.key, offset, 5),
            account_ref(self.protocol_fee_accumulator.info.key, offset, 6),
            account_ref(self.lst_token_program.info.key, offset, 7),
            account_ref(self.lp_token_program.info.key, offset, 8),
            account_ref(self.pool_state.key, offset, 9),
            account_ref(self.lst_states_list.key, offset, 10),
            account_ref(self.pool_reserves.key, offset, 11),
            account_ref(self.spl_sol_calculator.key, offset, 12),
            account_ref(self.calculator_state.key, offset, 13),
            account_ref(self.staked_pool_state.key, offset, 14),
            account_ref(self.validator_pool_program.key, offset, 15),
            account_ref(self.validator_pool_program_data.key, offset, 16),
            account_ref(self.sanctum_flat_fee_pricing.key, offset, 17),
        ]
    }

    /// The call these accounts make for `amount_in` in the given hop, or why none is made.
    pub open spec fn add_liquidity(
        &self,
        amount_in: u64,
        offset: usize,
        hop_accounts: HopAccounts,
        hop: usize,
        proxy_swap: bool,
    ) -> Result<InvocationView, Error> {
        match prechecks_error(
            self.dex_program_id,
            self.swap_authority_pubkey,
            self.source_lst_acc.info.key,
            self.dst_lp_acc.info.key,
            hop_accounts,
            hop,
            proxy_swap,
        ) {
            Some(e) => Err(e),
            None => {
                match lst_index(self.lst_mint.info.key, self.lst_states_list.data@) {
                    Err(e) => Err(e),
                    Ok(lst_index) => {
                        prepared(
                            &SanctumProcessor,
                            self.add_liquidity_infos(offset),
                            self.source_lst_acc.info.key,
                            self.dst_lp_acc,
                            (offset + 4) as usize,
                            InstructionView {
                                program_id: address(SANCTUM_PROGRAM),
                                accounts: self.add_liquidity_metas(),
                                data: liquidity_data(3u8, 5u8, lst_index, amount_in, 1u64),
                            },
                            hop,
                            offset,
                            ADD_LST_LIQ_ACCOUNTS_LEN,
                            proxy_swap,
                        )
                    },
                }
            },
        }
    }

    fn get_accountmetas(&self) -> (accounts: Vec<AccountMeta>)
        ensures
            accounts@ == self.add_liquidity_metas(),
    {
        let accounts = vec![
            AccountMeta::new(self.swap_authority_pubkey.key, true),
            AccountMeta::new_readonly(self.lst_mint.info.key, false),
            AccountMeta::new(self.source_lst_acc.info.key, false),
            AccountMeta::new(self.dst_lp_acc.info.key, false),
            AccountMeta::new(self.lp_token_mint.info.key, false),
            AccountMeta::new(self.protocol_fee_accumulator.info.key, false),
            AccountMeta::new_readonly(self.lst_token_program.info.key, false),
            AccountMeta::new_readonly(self.lp_token_program.info.key, false),
            AccountMeta::new(self.pool_state.key, false),
            AccountMeta::new(self.lst_states_list.key, false),
            AccountMeta::new(self.pool_reserves.key, false),
            AccountMeta::new_readonly(self.spl_sol_calculator.key, false),
            AccountMeta::new_readonly(self.calculator_state.key, false),
            AccountMeta::new_readonly(self.staked_pool_state.key, false),
            AccountMeta::new_readonly(self.validator_pool_program.key, false),
            AccountMeta::new_readonly(self.validator_pool_program_data.key, false),
            AccountMeta::new_readonly(self.sanctum_flat_fee_pricing.key, false),
        ];
        proof {
            assert(accounts@ =~= self.add_liquidity_metas());
        }
        accounts
    }

    fn get_account_infos(&self, offset: usize) -> (account_infos: Vec<AccountRef>)
        requires
            offset + ADD_LST_LIQ_ACCOUNTS_LEN <= usize::MAX,
        ensures
            account_infos@ == self.add_liquidity_infos(offset),
    {
        let account_infos = vec![
            AccountRef { place: offset + 1, key: self.swap_authority_pubkey.key },
            AccountRef { place: offset + 2, key: self.lst_mint.info.key },
            AccountRef { place: offset + 3, key: self.source_lst_acc.info.key },
            AccountRef { place: offset + 4, key: self.dst_lp_acc.info.key },
            AccountRef { place: offset + 5, key: self.lp_token_mint.info.key },
            AccountRef { place: offset + 6, key: self.protocol_fee_accumulator.info.key },
            AccountRef { place: offset + 7, key: self.lst_token_program.info.key },
            AccountRef { place: offset + 8, key: self.lp_token_program.info.key },
            AccountRef { place: offset + 9, key: self.pool_state.key },
            AccountRef { place: offset + 10, key: self.lst_states_list.key },
            AccountRef { place: offset + 11, key: self.pool_reserves.key },
            AccountRef { place: offset + 12, key: self.spl_sol_calculator.key },
            AccountRef { place: offset + 13, key: self.calculator_state.key },
            AccountRef { place: offset + 14, key: self.staked_pool_state.key },
            AccountRef { place: offset + 15, key: self.validator_pool_program.key },
            AccountRef { place: offset + 16, key: self.validator_pool_program_data.key },
            AccountRef { place: offset + 17, key: self.sanctum_flat_fee_pricing.key },
        ];
        proof {
            assert(account_infos@ =~= self.add_liquidity_infos(offset));
        }
        account_infos
    }
}

impl<'info> SanctumAddWsolLiqAccounts<'info> {
    /// The accounts of the venue's instruction, in the order the venue wants them.
    pub open spec fn add_liquidity_metas(&self) -> Seq<AccountMeta> {
        seq![
            writable(self.swap_authority_pubkey.key, true),
            readonly(self.lst_mint.info.key, false),
            writable(self.source_lst_acc.info.key, false),
            writable(self.dst_lp_acc.info.key, false),
            writable(self.lp_token_mint.info.key, false),
            writable(self.protocol_fee_accumulator.info.key, false),
            readonly(self.lst_token_program.info.key, false),
            readonly(self.lp_token_program.info.key, false),
            writable(self.pool_state.key, false),
            writable(self.lst_states_list.key, false),
            writable(self.pool_reserves.key, false),
            readonly(self.wsol_calculator.key, false),
            readonly(self.sanctum_flat_fee_pricing.key, false),
        ]
    }

    /// The accounts handed to the call.
    pub open spec fn add_liquidity_infos(&self, offset: usize) -> Seq<AccountRef> {
        seq![
            account_ref(self.swap_authority_pubkey.key, offset, 1),
            account_ref(self.lst_mint.info.key, offset, 2),
            account_ref(self.source_lst_acc.info.key, offset, 3),
            account_ref(self.dst_lp_acc.info.key, offset, 4),
            account_ref(self.lp_token_mint.info.key, offset, 5),
            account_ref(self.protocol_fee_accumulator.info.key, offset, 6),
            account_ref(self.lst_token_program.info.key, offset, 7),
            account_ref(self.lp_token_program.info.key, offset, 8),
            account_ref(self.pool_state.key, offset, 9),
            account_ref(self.lst_states_list.key, offset, 10),
            account_ref(self.pool_reserves.key, offset, 11),
            account_ref(self.wsol_calculator.key, offset, 12),
            account_ref(self.sanctum_flat_fee_pricing.key, offset, 13),
        ]
    }

    /// The call these accounts make for `amount_in` in the given hop, or why none is made.
    pub open spec fn add_liquidity(
        &self,
        amount_in: u64,
        offset: usize,
        hop_accounts: HopAccounts,
        hop: usize,
        proxy_swap: bool,
    ) -> Result<InvocationView, Error> {
        match prechecks_error(
            self.dex_program_id,
            self.swap_authority_pubkey,
            self.source_lst_acc.info.key,
            self.dst_lp_acc.info.key,
            hop_accounts,
            hop,
            proxy_swap,
        ) {
            Some(e) => Err(e),
            None => {
                match lst_index(self.lst_mint.info.key, self.lst_states_list.data@) {
                    Err(e) => Err(e),
                    Ok(lst_index) => {
                        prepared(
                            &SanctumProcessor,
                            self.add_liquidity_infos(offset),
                            self.source_lst_acc.info.key,
                            self.dst_lp_acc,
                            (offset + 4) as usize,
                            InstructionView {
                                program_id: address(SANCTUM_PROGRAM),
                                accounts: self.add_liquidity_metas(),
                                data: liquidity_data(3u8, 1u8, lst_index, amount_in, 1u64),
                            },
                            hop,
                            offset,
                            ADD_WSOL_LIQ_ACCOUNTS_LEN,
                            proxy_swap,
                        )
                    },
                }
            },
        }
    }

    fn get_accountmetas(&self) -> (accounts: Vec<AccountMeta>)
        ensures
            accounts@ == self.add_liquidity_metas(),
    {
        let accounts = vec![
            AccountMeta::new(self.swap_authority_pubkey.key, true),
            AccountMeta::new_readonly(self.lst_mint.info.key, false),
            AccountMeta::new(self.source_lst_acc.info.key, false),
            AccountMeta::new(self.dst_lp_acc.info.key, false),
            AccountMeta::new(self.lp_token_mint.info.key, false),
            AccountMeta::new(self.protocol_fee_accumulator.info.key, false),
            AccountMeta::new_readonly(self.lst_token_program.info.key, false),
            AccountMeta::new_readonly(self.lp_token_program.info.key, false),
            AccountMeta::new(self.pool_state.key, false),
            AccountMeta::new(self.lst_states_list.key, false),
            AccountMeta::new(self.pool_reserves.key, false),
            AccountMeta::new_readonly(self.wsol_calculator.key, false),
            AccountMeta::new_readonly(self.sanctum_flat_fee_pricing.key, false),
        ];
        proof {
            assert(accounts@ =~= self.add_liquidity_metas());
        }
        accounts
    }

    fn get_account_infos(&self, offset: usize) -> (account_infos: Vec<AccountRef>)
        requires
            offset + ADD_WSOL_LIQ_ACCOUNTS_LEN <= usize::MAX,
        ensures
            account_infos@ == self.add_liquidity_infos(offset),
    {
        let account_infos = vec![
            AccountRef { place: offset + 1, key: self.swap_authority_pubkey.key },
            AccountRef { place: offset + 2, key: self.lst_mint.info.key },
            AccountRef { place: offset + 3, key: self.source_lst_acc.info.key },
            AccountRef { place: offset + 4, key: self.dst_lp_acc.info.key },
            AccountRef { place: offset + 5, key: self.lp_token_mint.info.key },
            AccountRef { place: offset + 6, key: self.protocol_fee_accumulator.info.key },
            AccountRef { place: offset + 7, key: self.lst_token_program.info.key },
            AccountRef { place: offset + 8, key: self.lp_token_program.info.key },
            AccountRef { place: offset + 9, key: self.pool_state.key },
            AccountRef { place: offset + 10, key: self.lst_states_list.key },
            AccountRef { place: offset + 11, key: self.pool_reserves.key },
            AccountRef { place: offset + 12, key: self.wsol_calculator.key },
            AccountRef { place: offset + 13, key: self.sanctum_flat_fee_pricing.key },
        ];
        proof {
            assert(account_infos@ =~= self.add_liquidity_infos(offset));
        }
        account_infos
    }
}

impl<'info> SanctumRemoveLstLiqAccounts<'info> {
    /// The accounts of the venue's instruction, in the order the venue wants them.
    pub open spec fn remove_liquidity_metas(&self) -> Seq<AccountMeta> {
        seq![
            writable(self.swap_authority_pubkey.key, true),
            readonly(self.lst_mint.info.key, false),
            writable(self.dst_lst_acc.info.key, false),
            writable(self.source_lp_acc.info.key, false),
            writable(self.lp_token_mint.info.key, false),
            writable(self.protocol_fee_accumulator.info.key, false),
            readonly(self.lst_token_program.info.key, false),
            readonly(self.lp_token_program.info.key, false),
            writable(self.pool_state.key, false),
            writable(self.lst_states_list.key, false),
            writable(self.pool_reserves.key, false),
            readonly(self.spl_sol_calculator.key, false),
            readonly(self.calculator_state.key, false),
            readonly(self.staked_pool_state.key, false),
            readonly(self.validator_pool_program.key, false),
            readonly(self.validator_pool_program_data.key, false),
            readonly(self.sanctum_flat_fee_pricing.key, false),
            readonly(self.sanctum_flat_fee_pricing_account.key, false),
        ]
    }

    /// The accounts handed to the call.
    pub open spec fn remove_liquidity_infos(&self, offset: usize) -> Seq<AccountRef> {
        seq![
            account_ref(self.swap_authority_pubkey.key, offset, 1),
            account_ref(self.lst_mint.info.key, offset, 2),
            account_ref(self.dst_lst_acc.info.key, offset, 3),
            account_ref(self.source_lp_acc.info.key, offset, 4),
            account_ref(self.lp_token_mint.info.key, offset, 5),
            account_ref(self.protocol_fee_accumulator.info.key, offset, 6),
            account_ref(self.lst_token_program.info.key, offset, 7),
            account_ref(self.lp_token_program.info.key, offset, 8),
            account_ref(self.pool_state.key, offset, 9),
            account_ref(self.lst_states_list.key, offset, 10),
            account_ref(self.pool_reserves.key, offset, 11),
            account_ref(self.spl_sol_calculator.key, offset, 12),
            account_ref(self.calculator_state.key, offset, 13),
            account_ref(self.staked_pool_state.key, offset, 14),
            account_ref(self.validator_pool_program.key, offset, 15),
            account_ref(self.validator_pool_program_data.key, offset, 16),
            account_ref(self.sanctum_flat_fee_pricing.key, offset, 17),
            account_ref(self.sanctum_flat_fee_pricing_account.key, offset, 18),
        ]
    }

    /// The call these accounts make for `amount_in` in the given hop, or why none is made.
    pub open spec fn remove_liquidity(
        &self,
        amount_in: u64,
        offset: usize,
        hop_accounts: HopAccounts,
        hop: usize,
        proxy_swap: bool,
    ) -> Result<InvocationView, Error> {
        match prechecks_error(
            self.dex_program_id,
            self.swap_authority_pubkey,
            self.source_lp_acc.info.key,
            self.dst_lst_acc.info.key,
            hop_accounts,
            hop,
            proxy_swap,
        ) {
            Some(e) => Err(e),
            None => {
                match lst_index(self.lst_mint.info.key, self.lst_states_list.data@) {
                    Err(e) => Err(e),
                    Ok(lst_index) => {
                        prepared(
                            &SanctumProcessor,
                            self.remove_liquidity_infos(offset),
                            self.source_lp_acc.info.key,
                            self.dst_lst_acc,
                            (offset + 3) as usize,
                            InstructionView {
                                program_id: address(SANCTUM_PROGRAM),
                                accounts: self.remove_liquidity_metas(),
                                data: liquidity_data(4u8, 5u8, lst_index, amount_in, 1u64),
                            },
                            hop,
                            offset,
                            REMOVE_LST_LIQ_ACCOUNTS_LEN,
                            proxy_swap,
                        )
                    },
                }
            },
        }
    }

    fn get_accountmetas(&self) -> (accounts: Vec<AccountMeta>)
        ensures
            accounts@ == self.remove_liquidity_metas(),
    {
        let accounts = vec![
            AccountMeta::new(self.swap_authority_pubkey.key, true),
            AccountMeta::new_readonly(self.lst_mint.info.key, false),
            AccountMeta::new(self.dst_lst_acc.info.key, false),
            AccountMeta::new(self.source_lp_acc.info.key, false),
            AccountMeta::new(self.lp_token_mint.info.key, false),
            AccountMeta::new(self.protocol_fee_accumulator.info.key, false),
            AccountMeta::new_readonly(self.lst_token_program.info.key, false),
            AccountMeta::new_readonly(self.lp_token_program.info.key, false),
            AccountMeta::new(self.pool_state.key, false),
            AccountMeta::new(self.lst_states_list.key, false),
            AccountMeta::new(self.pool_reserves.key, false),
            AccountMeta::new_readonly(self.spl_sol_calculator.key, false),
            AccountMeta::new_readonly(self.calculator_state.key, false),
            AccountMeta::new_readonly(self.staked_pool_state.key, false),
            AccountMeta::new_readonly(self.validator_pool_program.key, false),
            AccountMeta::new_readonly(self.validator_pool_program_data.key, false),
            AccountMeta::new_readonly(self.sanctum_flat_fee_pricing.key, false),
            AccountMeta::new_readonly(self.sanctum_flat_fee_pricing_account.key, false),
        ];
        proof {
            assert(accounts@ =~= self.remove_liquidity_metas());
        }
        accounts
    }

    fn get_account_infos(&self, offset: usize) -> (account_infos: Vec<AccountRef>)
        requires
            offset + REMOVE_LST_LIQ_ACCOUNTS_LEN <= usize::MAX,
        ensures
            account_infos@ == self.remove_liquidity_infos(offset),
    {
        let account_infos = vec![
            AccountRef { place: offset + 1, key: self.swap_authority_pubkey.key },
            AccountRef { place: offset + 2, key: self.lst_mint.info.key },
            AccountRef { place: offset + 3, key: self.dst_lst_acc.info.key },
            AccountRef { place: offset + 4, key: self.source_lp_acc.info.key },
            AccountRef { place: offset + 5, key: self.lp_token_mint.info.key },
            AccountRef { place: offset + 6, key: self.protocol_fee_accumulator.info.key },
            AccountRef { place: offset + 7, key: self.lst_token_program.info.key },
            AccountRef { place: offset + 8, key: self.lp_token_program.info.key },
            AccountRef { place: offset + 9, key: self.pool_state.key },
            AccountRef { place: offset + 10, key: self.lst_states_list.key },
            AccountRef { place: offset + 11, key: self.pool_reserves.key },
            AccountRef { place: offset + 12, key: self.spl_sol_calculator.key },
            AccountRef { place: offset + 13, key: self.calculator_state.key },
            AccountRef { place: offset + 14, key: self.staked_pool_state.key },
            AccountRef { place: offset + 15, key: self.validator_pool_program.key },
            AccountRef { place: offset + 16, key: self.validator_pool_program_data.key },
            AccountRef { place: offset + 17, key: self.sanctum_flat_fee_pricing.key },
            AccountRef { place: offset + 18, key: self.sanctum_flat_fee_pricing_account.key },
        ];
        proof {
            assert(account_infos@ =~= self.remove_liquidity_infos(offset));
        }
        account_infos
    }
}

impl<'info> SanctumRemoveWsolLiqAccounts<'info> {
    /// The accounts of the venue's instruction, in the order the venue wants them.
    pub open spec fn remove_liquidity_metas(&self) -> Seq<AccountMeta> {
        seq![
            writable(self.swap_authority_pubkey.key, true),
            readonly(self.lst_mint.info.key, false),
            writable(self.dst_lst_acc.info.key, false),
            writable(self.source_lp_acc.info.key, false),
            writable(self.lp_token_mint.info.key, false),
            writable(self.protocol_fee_accumulator.info.key, false),
            readonly(self.lst_token_program.info.key, false),
            readonly(self.lp_token_program.info.key, false),
            writable(self.pool_state.key, false),
            writable(self.lst_states_list.key, false),
            writable(self.pool_reserves.key, false),
            readonly(self.wsol_calculator.key, false),
            readonly(self.sanctum_flat_fee_pricing.key, false),
            readonly(self.sanctum_flat_fee_pricing_account.key, false),
        ]
    }

    /// The accounts handed to the call.
    pub open spec fn remove_liquidity_infos(&self, offset: usize) -> Seq<AccountRef> {
        seq![
            account_ref(self.swap_authority_pubkey.key, offset, 1),
            account_ref(self.lst_mint.info.key, offset, 2),
            account_ref(self.dst_lst_acc.info.key, offset, 3),
            account_ref(self.source_lp_acc.info.key, offset, 4),
            account_ref(self.lp_token_mint.info.key, offset, 5),
            account_ref(self.protocol_fee_accumulator.info.key, offset, 6),
            account_ref(self.lst_token_program.info.key, offset, 7),
            account_ref(self.lp_token_program.info.key, offset, 8),
            account_ref(self.pool_state.key, offset, 9),
            account_ref(self.lst_states_list.key, offset, 10),
            account_ref(self.pool_reserves.key, offset, 11),
            account_ref(self.wsol_calculator.key, offset, 12),
            account_ref(self.sanctum_flat_fee_pricing.key, offset, 13),
            account_ref(self.sanctum_flat_fee_pricing_account.key, offset, 14),
        ]
    }

    /// The call these accounts make for `amount_in` in the given hop, or why none is made.
    pub open spec fn remove_liquidity(
        &self,
        amount_in: u64,
        offset: usize,
        hop_accounts: HopAccounts,
        hop: usize,
        proxy_swap: bool,
    ) -> Result<InvocationView, Error> {
        match prechecks_error(
            self.dex_program_id,
            self.swap_authority_pubkey,
            self.source_lp_acc.info.key,
            self.dst_lst_acc.info.key,
            hop_accounts,
            hop,
            proxy_swap,
        ) {
            Some(e) => Err(e),
            None => {
                match lst_index(self.lst_mint.info.key, self.lst_states_list.data@) {
                    Err(e) => Err(e),
                    Ok(lst_index) => {
                        prepared(
                            &SanctumProcessor,
                            self.remove_liquidity_infos(offset),
                            self.source_lp_acc.info.key,
                            self.dst_lst_acc,
                            (offset + 3) as usize,
                            InstructionView {
                                program_id: address(SANCTUM_PROGRAM),
                                accounts: self.remove_liquidity_metas(),
                                data: liquidity_data(4u8, 1u8, lst_index, amount_in, 1u64),
                            },
                            hop,
                            offset,
                            REMOVE_WSOL_LIQ_ACCOUNTS_LEN,
                            proxy_swap,
                        )
                    },
                }
            },
        }
    }

    fn get_accountmetas(&self) -> (accounts: Vec<AccountMeta>)
        ensures
            accounts@ == self.remove_liquidity_metas(),
    {
        let accounts = vec![
            AccountMeta::new(self.swap_authority_pubkey.key, true),
            AccountMeta::new_readonly(self.lst_mint.info.key, false),
            AccountMeta::new(self.dst_lst_acc.info.key, false),
            AccountMeta::new(self.source_lp_acc.info.key, false),
            AccountMeta::new(self.lp_token_mint.info.key, false),
            AccountMeta::new(self.protocol_fee_accumulator.info.key, false),
            AccountMeta::new_readonly(self.lst_token_program.info.key, false),
            AccountMeta::new_readonly(self.lp_token_program.info.key, false),
            AccountMeta::new(self.pool_state.key, false),
            AccountMeta::new(self.lst_states_list.key, false),
            AccountMeta::new(self.pool_reserves.key, false),
            AccountMeta::new_readonly(self.wsol_calculator.key, false),
            AccountMeta::new_readonly(self.sanctum_flat_fee_pricing.key, false),
            AccountMeta::new_readonly(self.sanctum_flat_fee_pricing_account.key, false),
        ];
        proof {
            assert(accounts@ =~= self.remove_liquidity_metas());
        }
        accounts
    }

    fn get_account_infos(&self, offset: usize) -> (account_infos: Vec<AccountRef>)
        requires
            offset + REMOVE_WSOL_LIQ_ACCOUNTS_LEN <= usize::MAX,
        ensures
            account_infos@ == self.remove_liquidity_infos(offset),
    {
        let account_infos = vec![
            AccountRef { place: offset + 1, key: self.swap_authority_pubkey.key },
            AccountRef { place: offset + 2, key: self.lst_mint.info.key },
            AccountRef { place: offset + 3, key: self.dst_lst_acc.info.key },
            AccountRef { place: offset + 4, key: self.source_lp_acc.info.key },
            AccountRef { place: offset + 5, key: self.lp_token_mint.info.key },
            AccountRef { place: offset + 6, key: self.protocol_fee_accumulator.info.key },
            AccountRef { place: offset + 7, key: self.lst_token_program.info.key },
            AccountRef { place: offset + 8, key: self.lp_token_program.info.key },
            AccountRef { place: offset + 9, key: self.pool_state.key },
            AccountRef { place: offset + 10, key: self.lst_states_list.key },
            AccountRef { place: offset + 11, key: self.pool_reserves.key },
            AccountRef { place: offset + 12, key: self.wsol_calculator.key },
            AccountRef { place: offset + 13, key: self.sanctum_flat_fee_pricing.key },
            AccountRef { place: offset + 14, key: self.sanctum_flat_fee_pricing_account.key },
        ];
        proof {
            assert(account_infos@ =~= self.remove_liquidity_infos(offset));
        }
        account_infos
    }
}

impl<'info> SanctumWsolLstSwapAccounts<'info> {
    /// The accounts of the venue's instruction, in the order the venue wants them.
    pub open spec fn swap_metas(&self) -> Seq<AccountMeta> {
        seq![
            writable(self.swap_authority_pubkey.key, true),
            readonly(self.source_lst_mint.info.key, false),
            readonly(self.dst_lst_mint.info.key, false),
            writable(self.source_lst_account.info.key, false),
            writable(self.dst_lst_account.info.key, false),
            writable(self.protocol_fee_accumulator.info.key, false),
            readonly(self.source_token_program.info.key, false),
            readonly(self.dst_token_program.info.key, false),
            writable(self.pool_state.key, false),
            writable(self.lst_states_list.key, false),
            writable(self.source_pool_reserves.key, false),
            writable(self.dst_pool_reserves.key, false),
            readonly(self.wsol_calculator.key, false),
            readonly(self.spl_sol_calculator.key, false),
            readonly(self.calculator_state.key, false),
            readonly(self.staked_pool_state.key, false),
            readonly(self.validator_pool_program.key, false),
            readonly(self.validator_pool_program_data.key, false),
            readonly(self.sanctum_flat_fee_pricing.key, false),
            readonly(self.sanctum_src_flat_fee_pricing_account.key, false),
            readonly(self.sanctum_dst_flat_fee_pricing_account.key, false),
        ]
    }

    /// The accounts handed to the call.
    pub open spec fn swap_infos(&self, offset: usize) -> Seq<AccountRef> {
        seq![
            account_ref(self.swap_authority_pubkey.key, offset, 1),
            account_ref(self.source_lst_mint.info.key, offset, 2),
            account_ref(self.dst_lst_mint.info.key, offset, 3),
            account_ref(self.source_lst_account.info.key, offset, 4),
            account_ref(self.dst_lst_account.info.key, offset, 5),
            account_ref(self.protocol_fee_accumulator.info.key, offset, 6),
            account_ref(self.source_token_program.info.key, offset, 7),
            account_ref(self.dst_token_program.info.key, offset, 8),
            account_ref(self.pool_state.key, offset, 9),
            account_ref(self.lst_states_list.key, offset, 10),
            account_ref(self.source_pool_reserves.key, offset, 11),
            account_ref(self.dst_pool_reserves.key, offset, 12),
            account_ref(self.wsol_calculator.key, offset, 13),
            account_ref(self.spl_sol_calculator.key, offset, 14),
            account_ref(self.calculator_state.key, offset, 15),
            account_ref(self.staked_pool_state.key, offset, 16),
            account_ref(self.validator_pool_program.key, offset, 17),
            account_ref(self.validator_pool_program_data.key, offset, 18),
            account_ref(self.sanctum_flat_fee_pricing.key, offset, 19),
            account_ref(self.sanctum_src_flat_fee_pricing_account.key, offset, 20),
            account_ref(self.sanctum_dst_flat_fee_pricing_account.key, offset, 21),
        ]
    }

    /// The call these accounts make for `amount_in` in the given hop, or why none is made.
    pub open spec fn swap(
        &self,
        amount_in: u64,
        offset: usize,
        hop_accounts: HopAccounts,
        hop: usize,
        proxy_swap: bool,
    ) -> Result<InvocationView, Error> {
        match prechecks_error(
            self.dex_program_id,
            self.swap_authority_pubkey,
            self.source_lst_account.info.key,
            self.dst_lst_account.info.key,
            hop_accounts,
            hop,
            proxy_swap,
        ) {
            Some(e) => Err(e),
            None => {
                match lst_index(self.dst_lst_mint.info.key, self.lst_states_list.data@) {
                    Err(e) => Err(e),
                    Ok(lst_index) => {
                        prepared(
                            &SanctumProcessor,
                            self.swap_infos(offset),
                            self.source_lst_account.info.key,
                            self.dst_lst_account,
                            (offset + 5) as usize,
                            InstructionView {
                                program_id: address(SANCTUM_PROGRAM),
                                accounts: self.swap_metas(),
                                data: swap_exact_in_data(
                                    1u8,
                                    5u8,
                                    1u32,
                                    lst_index,
                                    1u64,
                                    amount_in,
                                ),
                            },
                            hop,
                            offset,
                            SWAP_LST_SOL_ACCOUNTS_LEN,
                            proxy_swap,
                        )
                    },
                }
            },
        }
    }

    fn get_accountmetas(&self) -> (accounts: Vec<AccountMeta>)
        ensures
            accounts@ == self.swap_metas(),
    {
        let accounts = vec![
            AccountMeta::new(self.swap_authority_pubkey.key, true),
            AccountMeta::new_readonly(self.source_lst_mint.info.key, false),
            AccountMeta::new_readonly(self.dst_lst_mint.info.key, false),
            AccountMeta::new(self.source_lst_account.info.key, false),
            AccountMeta::new(self.dst_lst_account.info.key, false),
            AccountMeta::new(self.protocol_fee_accumulator.info.key, false),
            AccountMeta::new_readonly(self.source_token_program.info.key, false),
            AccountMeta::new_readonly(self.dst_token_program.info.key, false),
            AccountMeta::new(self.pool_state.key, false),
            AccountMeta::new(self.lst_states_list.key, false),
            AccountMeta::new(self.source_pool_reserves.key, false),
            AccountMeta::new(self.dst_pool_reserves.key, false),
            AccountMeta::new_readonly(self.wsol_calculator.key, false),
            AccountMeta::new_readonly(self.spl_sol_calculator.key, false),
            AccountMeta::new_readonly(self.calculator_state.key, false),
            AccountMeta::new_readonly(self.staked_pool_state.key, false),
            AccountMeta::new_readonly(self.validator_pool_program.key, false),
            AccountMeta::new_readonly(self.validator_pool_program_data.key, false),
            AccountMeta::new_readonly(self.sanctum_flat_fee_pricing.key, false),
            AccountMeta::new_readonly(self.sanctum_src_flat_fee_pricing_account.key, false),
            AccountMeta::new_readonly(self.sanctum_dst_flat_fee_pricing_account.key, false),
        ];
        proof {
            assert(accounts@ =~= self.swap_metas());
        }
        accounts
    }

    fn get_account_infos(&self, offset: usize) -> (account_infos: Vec<AccountRef>)
        requires
            offset + SWAP_LST_SOL_ACCOUNTS_LEN <= usize::MAX,
        ensures
            account_infos@ == self.swap_infos(offset),
    {
        let account_infos = vec![
            AccountRef { place: offset + 1, key: self.swap_authority_pubkey.key },
            AccountRef { place: offset + 2, key: self.source_lst_mint.info.key },
            AccountRef { place: offset + 3, key: self.dst_lst_mint.info.key },
            AccountRef { place: offset + 4, key: self.source_lst_account.info.key },
            AccountRef { place: offset + 5, key: self.dst_lst_account.info.key },
            AccountRef { place: offset + 6, key: self.protocol_fee_accumulator.info.key },
            AccountRef { place: offset + 7, key: self.source_token_program.info.key },
            AccountRef { place: offset + 8, key: self.dst_token_program.info.key },
            AccountRef { place: offset + 9, key: self.pool_state.key },
            AccountRef { place: offset + 10, key: self.lst_states_list.key },
            AccountRef { place: offset + 11, key: self.source_pool_reserves.key },
            AccountRef { place: offset + 12, key: self.dst_pool_reserves.key },
            AccountRef { place: offset + 13, key: self.wsol_calculator.key },
            AccountRef { place: offset + 14, key: self.spl_sol_calculator.key },
            AccountRef { place: offset + 15, key: self.calculator_state.key },
            AccountRef { place: offset + 16, key: self.staked_pool_state.key },
            AccountRef { place: offset + 17, key: self.validator_pool_program.key },
            AccountRef { place: offset + 18, key: self.validator_pool_program_data.key },
            AccountRef { place: offset + 19, key: self.sanctum_flat_fee_pricing.key },
            AccountRef { place: offset + 20, key: self.sanctum_src_flat_fee_pricing_account.key },
            AccountRef { place: offset + 21, key: self.sanctum_dst_flat_fee_pricing_account.key },
        ];
        proof {
            assert(account_infos@ =~= self.swap_infos(offset));
        }
        account_infos
    }
}

impl<'info> SanctumLstWsolSwapAccounts<'info> {
    /// The accounts of the venue's instruction, in the order the venue wants them.
    pub open spec fn swap_metas(&self) -> Seq<AccountMeta> {
        seq![
            writable(self.swap_authority_pubkey.key, true),
            readonly(self.source_lst_mint.info.key, false),
            readonly(self.dst_lst_mint.info.key, false),
            writable(self.source_lst_account.info.key, false),
            writable(self.dst_lst_account.info.key, false),
            writable(self.protocol_fee_accumulator.info.key, false),
            readonly(self.source_token_program.info.key, false),
            readonly(self.dst_token_program.info.key, false),
            writable(self.pool_state.key, false),
            writable(self.lst_states_list.key, false),
            writable(self.source_pool_reserves.key, false),
            writable(self.dst_pool_reserves.key, false),
            readonly(self.spl_sol_calculator.key, false),
            readonly(self.calculator_state.key, false),
            readonly(self.staked_pool_state.key, false),
            readonly(self.validator_pool_program.key, false),
            readonly(self.validator_pool_program_data.key, false),
            readonly(self.wsol_calculator.key, false),
            readonly(self.sanctum_flat_fee_pricing.key, false),
            readonly(self.sanctum_src_flat_fee_pricing_account.key, false),
            readonly(self.sanctum_dst_flat_fee_pricing_account.key, false),
        ]
    }

    /// The accounts handed to the call.
    pub open spec fn swap_infos(&self, offset: usize) -> Seq<AccountRef> {
        seq![
            account_ref(self.swap_authority_pubkey.key, offset, 1),
            account_ref(self.source_lst_mint.info.key, offset, 2),
            account_ref(self.dst_lst_mint.info.key, offset, 3),
            account_ref(self.source_lst_account.info.key, offset, 4),
            account_ref(self.dst_lst_account.info.key, offset, 5),
            account_ref(self.protocol_fee_accumulator.info.key, offset, 6),
            account_ref(self.source_token_program.info.key, offset, 7),
            account_ref(self.dst_token_program.info.key, offset, 8),
            account_ref(self.pool_state.key, offset, 9),
            account_ref(self.lst_states_list.key, offset, 10),
            account_ref(self.source_pool_reserves.key, offset, 11),
            account_ref(self.dst_pool_reserves.key, offset, 12),
            account_ref(self.spl_sol_calculator.key, offset, 13),
            account_ref(self.calculator_state.key, offset, 14),
            account_ref(self.staked_pool_state.key, offset, 15),
            account_ref(self.validator_pool_program.key, offset, 16),
            account_ref(self.validator_pool_program_data.key, offset, 17),
            account_ref(self.wsol_calculator.key, offset, 18),
            account_ref(self.sanctum_flat_fee_pricing.key, offset, 19),
            account_ref(self.sanctum_src_flat_fee_pricing_account.key, offset, 20),
            account_ref(self.sanctum_dst_flat_fee_pricing_account.key, offset, 21),
        ]
    }

    /// The call these accounts make for `amount_in` in the given hop, or why none is made.
    pub open spec fn swap(
        &self,
        amount_in: u64,
        offset: usize,
        hop_accounts: HopAccounts,
        hop: usize,
        proxy_swap: bool,
    ) -> Result<InvocationView, Error> {
        match prechecks_error(
            self.dex_program_id,
            self.swap_authority_pubkey,
            self.source_lst_account.info.key,
            self.dst_lst_account.info.key,
            hop_accounts,
            hop,
            proxy_swap,
        ) {
            Some(e) => Err(e),
            None => {
                match lst_index(self.source_lst_mint.info.key, self.lst_states_list.data@) {
                    Err(e) => Err(e),
                    Ok(lst_index) => {
                        prepared(
                            &SanctumProcessor,
                            self.swap_infos(offset),
                            self.source_lst_account.info.key,
                            self.dst_lst_account,
                            (offset + 5) as usize,
                            InstructionView {
                                program_id: address(SANCTUM_PROGRAM),
                                accounts: self.swap_metas(),
                                data: swap_exact_in_data(
                                    5u8,
                                    1u8,
                                    lst_index,
                                    1u32,
                                    1u64,
                                    amount_in,
                                ),
                            },
                            hop,
                            offset,
                            SWAP_LST_SOL_ACCOUNTS_LEN,
                            proxy_swap,
                        )
                    },
                }
            },
        }
    }

    fn get_accountmetas(&self) -> (accounts: Vec<AccountMeta>)
        ensures
            accounts@ == self.swap_metas(),
    {
        let accounts = vec![
            AccountMeta::new(self.swap_authority_pubkey.key, true),
            AccountMeta::new_readonly(self.source_lst_mint.info.key, false),
            AccountMeta::new_readonly(self.dst_lst_mint.info.key, false),
            AccountMeta::new(self.source_lst_account.info.key, false),
            AccountMeta::new(self.dst_lst_account.info.key, false),
            AccountMeta::new(self.protocol_fee_accumulator.info.key, false),
            AccountMeta::new_readonly(self.source_token_program.info.key, false),
            AccountMeta::new_readonly(self.dst_token_program.info.key, false),
            AccountMeta::new(self.pool_state.key, false),
            AccountMeta::new(self.lst_states_list.key, false),
            AccountMeta::new(self.source_pool_reserves.key, false),
            AccountMeta::new(self.dst_pool_reserves.key, false),
            AccountMeta::new_readonly(self.spl_sol_calculator.key, false),
            AccountMeta::new_readonly(self.calculator_state.key, false),
            AccountMeta::new_readonly(self.staked_pool_state.key, false),
            AccountMeta::new_readonly(self.validator_pool_program.key, false),
            AccountMeta::new_readonly(self.validator_pool_program_data.key, false),
            AccountMeta::new_readonly(self.wsol_calculator.key, false),
            AccountMeta::new_readonly(self.sanctum_flat_fee_pricing.key, false),
            AccountMeta::new_readonly(self.sanctum_src_flat_fee_pricing_account.key, false),
            AccountMeta::new_readonly(self.sanctum_dst_flat_fee_pricing_account.key, false),
        ];
        proof {
            assert(accounts@ =~= self.swap_metas());
        }
        accounts
    }

    fn get_account_infos(&self, offset: usize) -> (account_infos: Vec<AccountRef>)
        requires
            offset + SWAP_LST_SOL_ACCOUNTS_LEN <= usize::MAX,
        ensures
            account_infos@ == self.swap_infos(offset),
    {
        let account_infos = vec![
            AccountRef { place: offset + 1, key: self.swap_authority_pubkey.key },
            AccountRef { place: offset + 2, key: self.source_lst_mint.info.key },
            AccountRef { place: offset + 3, key: self.dst_lst_mint.info.key },
            AccountRef { place: offset + 4, key: self.source_lst_account.info.key },
            AccountRef { place: offset + 5, key: self.dst_lst_account.info.key },
            AccountRef { place: offset + 6, key: self.protocol_fee_accumulator.info.key },
            AccountRef { place: offset + 7, key: self.source_token_program.info.key },
            AccountRef { place: offset + 8, key: self.dst_token_program.info.key },
            AccountRef { place: offset + 9, key: self.pool_state.key },
            AccountRef { place: offset + 10, key: self.lst_states_list.key },
            AccountRef { place: offset + 11, key: self.source_pool_reserves.key },
            AccountRef { place: offset + 12, key: self.dst_pool_reserves.key },
            AccountRef { place: offset + 13, key: self.spl_sol_calculator.key },
            AccountRef { place: offset + 14, key: self.calculator_state.key },
            AccountRef { place: offset + 15, key: self.staked_pool_state.key },
            AccountRef { place: offset + 16, key: self.validator_pool_program.key },
            AccountRef { place: offset + 17, key: self.validator_pool_program_data.key },
            AccountRef { place: offset + 18, key: self.wsol_calculator.key },
            AccountRef { place: offset + 19, key: self.sanctum_flat_fee_pricing.key },
            AccountRef { place: offset + 20, key: self.sanctum_src_flat_fee_pricing_account.key },
            AccountRef { place: offset + 21, key: self.sanctum_dst_flat_fee_pricing_account.key },
        ];
        proof {
            assert(account_infos@ =~= self.swap_infos(offset));
        }
        account_infos
    }
}

impl<'info> SanctumLstLstSwapAccounts<'info> {
    /// The accounts of the venue's instruction, in the order the venue wants them.
    pub open spec fn swap_metas(&self) -> Seq<AccountMeta> {
        seq![
            writable(self.swap_authority_pubkey.key, true),
            readonly(self.source_lst_mint.info.key, false),
            readonly(self.dst_lst_mint.info.key, false),
            writable(self.source_lst_account.info.key, false),
            writable(self.dst_lst_account.info.key, false),
            writable(self.protocol_fee_accumulator.info.key, false),
            readonly(self.source_token_program.info.key, false),
            readonly(self.dst_token_program.info.key, false),
            writable(self.pool_state.key, false),
            writable(self.lst_states_list.key, false),
            writable(self.source_pool_reserves.key, false),
            writable(self.dst_pool_reserves.key, false),
            readonly(self.src_spl_sol_calculator.key, false),
            readonly(self.src_calculator_state.key, false),
            readonly(self.src_staked_pool_state.key, false),
            readonly(self.src_validator_pool_program.key, false),
            readonly(self.src_validator_pool_program_data.key, false),
            readonly(self.dst_spl_sol_calculator.key, false),
            readonly(self.dst_calculator_state.key, false),
            readonly(self.dst_staked_pool_state.key, false),
            readonly(self.dst_validator_pool_program.key, false),
            readonly(self.dst_validator_pool_program_data.key, false),
            readonly(self.sanctum_flat_fee_pricing.key, false),
            readonly(self.sanctum_src_flat_fee_pricing_account.key, false),
            readonly(self.sanctum_dst_flat_fee_pricing_account.key, false),
        ]
    }

    /// The accounts handed to the call.
    pub open spec fn swap_infos(&self, offset: usize) -> Seq<AccountRef> {
        seq![
            account_ref(self.swap_authority_pubkey.key, offset, 1),
            account_ref(self.source_lst_mint.info.key, offset, 2),
            account_ref(self.dst_lst_mint.info.key, offset, 3),
            account_ref(self.source_lst_account.info.key, offset, 4),
            account_ref(self.dst_lst_account.info.key, offset, 5),
            account_ref(self.protocol_fee_accumulator.info.key, offset, 6),
            account_ref(self.source_token_program.info.key, offset, 7),
            account_ref(self.dst_token_program.info.key, offset, 8),
            account_ref(self.pool_state.key, offset, 9),
            account_ref(self.lst_states_list.key, offset, 10),
            account_ref(self.source_pool_reserves.key, offset, 11),
            account_ref(self.dst_pool_reserves.key, offset, 12),
            account_ref(self.src_spl_sol_calculator.key, offset, 13),
            account_ref(self.src_calculator_state.key, offset, 14),
            account_ref(self.src_staked_pool_state.key, offset, 15),
            account_ref(self.src_validator_pool_program.key, offset, 16),
            account_ref(self.src_validator_pool_program_data.key, offset, 17),
            account_ref(self.dst_spl_sol_calculator.key, offset, 18),
            account_ref(self.dst_calculator_state.key, offset, 19),
            account_ref(self.dst_staked_pool_state.key, offset, 20),
            account_ref(self.dst_validator_pool_program.key, offset, 21),
            account_ref(self.dst_validator_pool_program_data.key, offset, 22),
            account_ref(self.sanctum_flat_fee_pricing.key, offset, 23),
            account_ref(self.sanctum_src_flat_fee_pricing_account.key, offset, 24),
            account_ref(self.sanctum_dst_flat_fee_pricing_account.key, offset, 25),
        ]
    }

    /// The call these accounts make for `amount_in` in the given hop, or why none is made.
    pub open spec fn swap(
        &self,
        amount_in: u64,
        offset: usize,
        hop_accounts: HopAccounts,
        hop: usize,
        proxy_swap: bool,
    ) -> Result<InvocationView, Error> {
        match prechecks_error(
            self.dex_program_id,
            self.swap_authority_pubkey,
            self.source_lst_account.info.key,
            self.dst_lst_account.info.key,
            hop_accounts,
            hop,
            proxy_swap,
        ) {
            Some(e) => Err(e),
            None => {
                match lst_index(self.source_lst_mint.info.key, self.lst_states_list.data@) {
                    Err(e) => Err(e),
                    Ok(src_lst_index) => {
                        match lst_index(self.dst_lst_mint.info.key, self.lst_states_list.data@) {
                            Err(e) => Err(e),
                            Ok(dst_lst_index) => {
                                prepared(
                                    &SanctumProcessor,
                                    self.swap_infos(offset),
                                    self.source_lst_account.info.key,
                                    self.dst_lst_account,
                                    (offset + 5) as usize,
                                    InstructionView {
                                        program_id: address(SANCTUM_PROGRAM),
                                        accounts: self.swap_metas(),
                                        data: swap_exact_in_data(
                                            5u8,
                                            5u8,
                                            src_lst_index,
                                            dst_lst_index,
                                            1u64,
                                            amount_in,
                                        ),
                                    },
                                    hop,
                                    offset,
                                    SWAP_LST_LST_ACCOUNTS_LEN,
                                    proxy_swap,
                                )
                            },
                        }
                    },
                }
            },
        }
    }

    fn get_accountmetas(&self) -> (accounts: Vec<AccountMeta>)
        ensures
            accounts@ == self.swap_metas(),
    {
        let accounts = vec![
            AccountMeta::new(self.swap_authority_pubkey.key, true),
            AccountMeta::new_readonly(self.source_lst_mint.info.key, false),
            AccountMeta::new_readonly(self.dst_lst_mint.info.key, false),
            AccountMeta::new(self.source_lst_account.info.key, false),
            AccountMeta::new(self.dst_lst_account.info.key, false),
            AccountMeta::new(self.protocol_fee_accumulator.info.key, false),
            AccountMeta::new_readonly(self.source_token_program.info.key, false),
            AccountMeta::new_readonly(self.dst_token_program.info.key, false),
            AccountMeta::new(self.pool_state.key, false),
            AccountMeta::new(self.lst_states_list.key, false),
            AccountMeta::new(self.source_pool_reserves.key, false),
            AccountMeta::new(self.dst_pool_reserves.key, false),
            AccountMeta::new_readonly(self.src_spl_sol_calculator.key, false),
            AccountMeta::new_readonly(self.src_calculator_state.key, false),
            AccountMeta::new_readonly(self.src_staked_pool_state.key, false),
            AccountMeta::new_readonly(self.src_validator_pool_program.key, false),
            AccountMeta::new_readonly(self.src_validator_pool_program_data.key, false),
            AccountMeta::new_readonly(self.dst_spl_sol_calculator.key, false),
            AccountMeta::new_readonly(self.dst_calculator_state.key, false),
            AccountMeta::new_readonly(self.dst_staked_pool_state.key, false),
            AccountMeta::new_readonly(self.dst_validator_pool_program.key, false),
            AccountMeta::new_readonly(self.dst_validator_pool_program_data.key, false),
            AccountMeta::new_readonly(self.sanctum_flat_fee_pricing.key, false),
            AccountMeta::new_readonly(self.sanctum_src_flat_fee_pricing_account.key, false),
            AccountMeta::new_readonly(self.sanctum_dst_flat_fee_pricing_account.key, false),
        ];
        proof {
            assert(accounts@ =~= self.swap_metas());
        }
        accounts
    }

    fn get_account_infos(&self, offset: usize) -> (account_infos: Vec<AccountRef>)
        requires
            offset + SWAP_LST_LST_ACCOUNTS_LEN <= usize::MAX,
        ensures
            account_infos@ == self.swap_infos(offset),
    {
        let account_infos = vec![
            AccountRef { place: offset + 1, key: self.swap_authority_pubkey.key },
            AccountRef { place: offset + 2, key: self.source_lst_mint.info.key },
            AccountRef { place: offset + 3, key: self.dst_lst_mint.info.key },
            AccountRef { place: offset + 4, key: self.source_lst_account.info.key },
            AccountRef { place: offset + 5, key: self.dst_lst_account.info.key },
            AccountRef { place: offset + 6, key: self.protocol_fee_accumulator.info.key },
            AccountRef { place: offset + 7, key: self.source_token_program.info.key },
            AccountRef { place: offset + 8, key: self.dst_token_program.info.key },
            AccountRef { place: offset + 9, key: self.pool_state.key },
            AccountRef { place: offset + 10, key: self.lst_states_list.key },
            AccountRef { place: offset + 11, key: self.source_pool_reserves.key },
            AccountRef { place: offset + 12, key: self.dst_pool_reserves.key },
            AccountRef { place: offset + 13, key: self.src_spl_sol_calculator.key },
            AccountRef { place: offset + 14, key: self.src_calculator_state.key },
            AccountRef { place: offset + 15, key: self.src_staked_pool_state.key },
            AccountRef { place: offset + 16, key: self.src_validator_pool_program.key },
            AccountRef { place: offset + 17, key: self.src_validator_pool_program_data.key },
            AccountRef { place: offset + 18, key: self.dst_spl_sol_calculator.key },
            AccountRef { place: offset + 19, key: self.dst_calculator_state.key },
            AccountRef { place: offset + 20, key: self.dst_staked_pool_state.key },
            AccountRef { place: offset + 21, key: self.dst_validator_pool_program.key },
            AccountRef { place: offset + 22, key: self.dst_validator_pool_program_data.key },
            AccountRef { place: offset + 23, key: self.sanctum_flat_fee_pricing.key },
            AccountRef { place: offset + 24, key: self.sanctum_src_flat_fee_pricing_account.key },
            AccountRef { place: offset + 25, key: self.sanctum_dst_flat_fee_pricing_account.key },
        ];
        proof {
            assert(account_infos@ =~= self.swap_infos(offset));
        }
        account_infos
    }
}

/// Prepares the call that puts the wrapped native asset into the pool.
pub fn handle_add_wsol_liquidity(
    swap_accounts: &SanctumAddWsolLiqAccounts,
    amount_in: u64,
    offset: usize,
    hop_accounts: &HopAccounts,
    hop: usize,
    proxy_swap: bool,
) -> (r: Result<Invocation, Error>)
    requires
        offset + ADD_WSOL_LIQ_ACCOUNTS_LEN <= usize::MAX,
    ensures
        yields(r, swap_accounts.add_liquidity(amount_in, offset, *hop_accounts, hop, proxy_swap)),
{
    let swap_source_token = swap_accounts.source_lst_acc.key();
    let swap_destination_token = swap_accounts.dst_lp_acc.key();
    handle_prechecks(
        swap_accounts.dex_program_id,
        swap_accounts.swap_authority_pubkey,
        swap_source_token,
        swap_destination_token,
        hop_accounts,
        hop,
        proxy_swap,
    )?;

    let lst_index: u32 = try_get_lst_index(
        swap_accounts.lst_mint.info.key,
        swap_accounts.lst_states_list,
    )?;
    let data = pack_liquidity_instruction(3u8, 1u8, lst_index, amount_in, 1u64);

    let accounts = swap_accounts.get_accountmetas();
    let account_infos = swap_accounts.get_account_infos(offset);

    let instruction = Instruction {
        program_id: Pubkey::new_from_array(SANCTUM_PROGRAM),
        accounts,
        data,
    };

    invoke_process(
        &SanctumProcessor,
        account_infos,
        swap_source_token,
        &swap_accounts.dst_lp_acc,
        offset + 4,
        instruction,
        hop,
        offset,
        ADD_WSOL_LIQ_ACCOUNTS_LEN,
        proxy_swap,
    )
}

/// Prepares the call that puts a liquid-stake token into the pool.
pub fn handle_add_lst_liquidity(
    swap_accounts: &SanctumAddLstLiqAccounts,
    amount_in: u64,
    offset: usize,
    hop_accounts: &HopAccounts,
    hop: usize,
    proxy_swap: bool,
) -> (r: Result<Invocation, Error>)
    requires
        offset + ADD_LST_LIQ_ACCOUNTS_LEN <= usize::MAX,
    ensures
        yields(r, swap_accounts.add_liquidity(amount_in, offset, *hop_accounts, hop, proxy_swap)),
{
    let swap_source_token = swap_accounts.source_lst_acc.key();
    let swap_destination_token = swap_accounts.dst_lp_acc.key();
    handle_prechecks(
        swap_accounts.dex_program_id,
        swap_accounts.swap_authority_pubkey,
        swap_source_token,
        swap_destination_token,
        hop_accounts,
        hop,
        proxy_swap,
    )?;

    let lst_index: u32 = try_get_lst_index(
        swap_accounts.lst_mint.info.key,
        swap_accounts.lst_states_list,
    )?;
    let data = pack_liquidity_instruction(3u8, 5u8, lst_index, amount_in, 1u64);

    let accounts = swap_accounts.get_accountmetas();
    let account_infos = swap_accounts.get_account_infos(offset);

    let instruction = Instruction {
        program_id: Pubkey::new_from_array(SANCTUM_PROGRAM),
        accounts,
        data,
    };

    invoke_process(
        &SanctumProcessor,
        account_infos,
        swap_source_token,
        &swap_accounts.dst_lp_acc,
        offset + 4,
        instruction,
        hop,
        offset,
        ADD_LST_LIQ_ACCOUNTS_LEN,
        proxy_swap,
    )
}

/// Prepares the call that takes the wrapped native asset out of the pool.
pub fn handle_remove_wsol_liquidity(
    swap_accounts: &SanctumRemoveWsolLiqAccounts,
    amount_in: u64,
    offset: usize,
    hop_accounts: &HopAccounts,
    hop: usize,
    proxy_swap: bool,
) -> (r: Result<Invocation, Error>)
    requires
        offset + REMOVE_WSOL_LIQ_ACCOUNTS_LEN <= usize::MAX,
    ensures
        yields(
            r,
            swap_accounts.remove_liquidity(amount_in, offset, *hop_accounts, hop, proxy_swap),
        ),
{
    let swap_source_token = swap_accounts.source_lp_acc.key();
    let swap_destination_token = swap_accounts.dst_lst_acc.key();
    handle_prechecks(
        swap_accounts.dex_program_id,
        swap_accounts.swap_authority_pubkey,
        swap_source_token,
        swap_destination_token,
        hop_accounts,
        hop,
        proxy_swap,
    )?;

    let lst_index: u32 = try_get_lst_index(
        swap_accounts.lst_mint.info.key,
        swap_accounts.lst_states_list,
    )?;
    let data = pack_liquidity_instruction(4u8, 1u8, lst_index, amount_in, 1u64);

    let accounts = swap_accounts.get_accountmetas();
    let account_infos = swap_accounts.get_account_infos(offset);

    let instruction = Instruction {
        program_id: Pubkey::new_from_array(SANCTUM_PROGRAM),
        accounts,
        data,
    };

    invoke_process(
        &SanctumProcessor,
        account_infos,
        swap_source_token,
        &swap_accounts.dst_lst_acc,
        offset + 3,
        instruction,
        hop,
        offset,
        REMOVE_WSOL_LIQ_ACCOUNTS_LEN,
        proxy_swap,
    )
}

/// Prepares the call that takes a liquid-stake token out of the pool.
pub fn handle_remove_lst_liquidity(
    swap_accounts: &SanctumRemoveLstLiqAccounts,
    amount_in: u64,
    offset: usize,
    hop_accounts: &HopAccounts,
    hop: usize,
    proxy_swap: bool,
) -> (r: Result<Invocation, Error>)
    requires
        offset + REMOVE_LST_LIQ_ACCOUNTS_LEN <= usize::MAX,
    ensures
        yields(
            r,
            swap_accounts.remove_liquidity(amount_in, offset, *hop_accounts, hop, proxy_swap),
        ),
{
    let swap_source_token = swap_accounts.source_lp_acc.key();
    let swap_destination_token = swap_accounts.dst_lst_acc.key();
    handle_prechecks(
        swap_accounts.dex_program_id,
        swap_accounts.swap_authority_pubkey,
        swap_source_token,
        swap_destination_token,
        hop_accounts,
        hop,
        proxy_swap,
    )?;

    let lst_index: u32 = try_get_lst_index(
        swap_accounts.lst_mint.info.key,
        swap_accounts.lst_states_list,
    )?;
    let data = pack_liquidity_instruction(4u8, 5u8, lst_index, amount_in, 1u64);

    let accounts = swap_accounts.get_accountmetas();
    let account_infos = swap_accounts.get_account_infos(offset);

    let instruction = Instruction {
        program_id: Pubkey::new_from_array(SANCTUM_PROGRAM),
        accounts,
        data,
    };

    invoke_process(
        &SanctumProcessor,
        account_infos,
        swap_source_token,
        &swap_accounts.dst_lst_acc,
        offset + 3,
        instruction,
        hop,
        offset,
        REMOVE_LST_LIQ_ACCOUNTS_LEN,
        proxy_swap,
    )
}

/// Prepares the exchange of one liquid-stake token for another.
pub fn handle_lst_lst_swap(
    swap_accounts: &SanctumLstLstSwapAccounts,
    amount_in: u64,
    offset: usize,
    hop_accounts: &HopAccounts,
    hop: usize,
    proxy_swap: bool,
) -> (r: Result<Invocation, Error>)
    requires
        offset + SWAP_LST_LST_ACCOUNTS_LEN <= usize::MAX,
    ensures
        yields(r, swap_accounts.swap(amount_in, offset, *hop_accounts, hop, proxy_swap)),
{
    let swap_source_token = swap_accounts.source_lst_account.key();
    let swap_destination_token = swap_accounts.dst_lst_account.key();
    handle_prechecks(
        swap_accounts.dex_program_id,
        swap_accounts.swap_authority_pubkey,
        swap_source_token,
        swap_destination_token,
        hop_accounts,
        hop,
        proxy_swap,
    )?;

    let src_lst_index: u32 = try_get_lst_index(
        swap_accounts.source_lst_mint.info.key,
        swap_accounts.lst_states_list,
    )?;
    let dst_lst_index: u32 = try_get_lst_index(
        swap_accounts.dst_lst_mint.info.key,
        swap_accounts.lst_states_list,
    )?;
    let data = pack_swap_exact_in_instruction(
        5u8,
        5u8,
        src_lst_index,
        dst_lst_index,
        1u64,
        amount_in,
    );

    let accounts = swap_accounts.get_accountmetas();
    let account_infos = swap_accounts.get_account_infos(offset);

    let instruction = Instruction {
        program_id: Pubkey::new_from_array(SANCTUM_PROGRAM),
        accounts,
        data,
    };

    invoke_process(
        &SanctumProcessor,
        account_infos,
        swap_source_token,
        &swap_accounts.dst_lst_account,
        offset + 5,
        instruction,
        hop,
        offset,
        SWAP_LST_LST_ACCOUNTS_LEN,
        proxy_swap,
    )
}

/// Prepares the exchange of the wrapped native asset for a liquid-stake token.
pub fn handle_wsol_lst_swap(
    swap_accounts: &SanctumWsolLstSwapAccounts,
    amount_in: u64,
    offset: usize,
    hop_accounts: &HopAccounts,
    hop: usize,
    proxy_swap: bool,
) -> (r: Result<Invocation, Error>)
    requires
        offset + SWAP_LST_SOL_ACCOUNTS_LEN <= usize::MAX,
    ensures
        yields(r, swap_accounts.swap(amount_in, offset, *hop_accounts, hop, proxy_swap)),
{
    let swap_source_token = swap_accounts.source_lst_account.key();
    let swap_destination_token = swap_accounts.dst_lst_account.key();
    handle_prechecks(
        swap_accounts.dex_program_id,
        swap_accounts.swap_authority_pubkey,
        swap_source_token,
        swap_destination_token,
        hop_accounts,
        hop,
        proxy_swap,
    )?;

    let lst_index: u32 = try_get_lst_index(
        swap_accounts.dst_lst_mint.info.key,
        swap_accounts.lst_states_list,
    )?;
    let data = pack_swap_exact_in_instruction(1u8, 5u8, 1u32, lst_index, 1u64, amount_in);

    let accounts = swap_accounts.get_accountmetas();
    let account_infos = swap_accounts.get_account_infos(offset);

    let instruction = Instruction {
        program_id: Pubkey::new_from_array(SANCTUM_PROGRAM),
        accounts,
        data,
    };

    invoke_process(
        &SanctumProcessor,
        account_infos,
        swap_source_token,
        &swap_accounts.dst_lst_account,
        offset + 5,
        instruction,
        hop,
        offset,
        SWAP_LST_SOL_ACCOUNTS_LEN,
        proxy_swap,
    )
}

/// Prepares the exchange of a liquid-stake token for the wrapped native asset.
pub fn handle_lst_wsol_swap(
    swap_accounts: &SanctumLstWsolSwapAccounts,
    amount_in: u64,
    offset: usize,
    hop_accounts: &HopAccounts,
    hop: usize,
    proxy_swap: bool,
) -> (r: Result<Invocation, Error>)
    requires
        offset + SWAP_LST_SOL_ACCOUNTS_LEN <= usize::MAX,
    ensures
        yields(r, swap_accounts.swap(amount_in, offset, *hop_accounts, hop, proxy_swap)),
{
    let swap_source_token = swap_accounts.source_lst_account.key();
    let swap_destination_token = swap_accounts.dst_lst_account.key();
    handle_prechecks(
        swap_accounts.dex_program_id,
        swap_accounts.swap_authority_pubkey,
        swap_source_token,
        swap_destination_token,
        hop_accounts,
        hop,
        proxy_swap,
    )?;

    let lst_index: u32 = try_get_lst_index(
        swap_accounts.source_lst_mint.info.key,
        swap_accounts.lst_states_list,
    )?;
    let data = pack_swap_exact_in_instruction(5u8, 1u8, lst_index, 1u32, 1u64, amount_in);

    let accounts = swap_accounts.get_accountmetas();
    let account_infos = swap_accounts.get_account_infos(offset);

    let instruction = Instruction {
        program_id: Pubkey::new_from_array(SANCTUM_PROGRAM),
        accounts,
        data,
    };

    invoke_process(
        &SanctumProcessor,
        account_infos,
        swap_source_token,
        &swap_accounts.dst_lst_account,
        offset + 5,
        instruction,
        hop,
        offset,
        SWAP_LST_SOL_ACCOUNTS_LEN,
        proxy_swap,
    )
}

impl<'info> SanctumAddLiqAccounts<'info> {
    /// The accounts at the cursor read as those of putting liquidity in. The mint, the third
    /// account from the cursor, says which kind they are; that many accounts must be there,
    /// each what its place asks for.
    pub open spec fn parsed(accounts: Seq<AccountInfo>, offset: int) -> Result<
        SanctumAddLiqAccounts<'info>,
        Error,
    > {
        if accounts.len() < offset + 3 {
            Err(Error::Router(ErrorCode::InvalidAccountsLength))
        } else if accounts[offset + 2].key == address(WSOL_PROGRAM) {
            if accounts.len() < offset + ADD_WSOL_LIQ_ACCOUNTS_LEN {
                Err(Error::Router(ErrorCode::InvalidAccountsLength))
            } else {
                match SanctumAddWsolLiqAccounts::parsed(
                    accounts.subrange(offset, offset + ADD_WSOL_LIQ_ACCOUNTS_LEN),
                ) {
                    Ok(swap_accounts) => Ok(SanctumAddLiqAccounts::WSOL(swap_accounts)),
                    Err(e) => Err(e),
                }
            }
        } else {
            if accounts.len() < offset + ADD_LST_LIQ_ACCOUNTS_LEN {
                Err(Error::Router(ErrorCode::InvalidAccountsLength))
            } else {
                match SanctumAddLstLiqAccounts::parsed(
                    accounts.subrange(offset, offset + ADD_LST_LIQ_ACCOUNTS_LEN),
                ) {
                    Ok(swap_accounts) => Ok(SanctumAddLiqAccounts::LST(swap_accounts)),
                    Err(e) => Err(e),
                }
            }
        }
    }

    fn parse_accounts(accounts: &'info [AccountInfo], offset: usize) -> (r: Result<
        SanctumAddLiqAccounts<'info>,
        Error,
    >)
        ensures
            r == Self::parsed(accounts@, offset as int),
            r matches Ok(
                SanctumAddLiqAccounts::LST(_),
            ) ==> offset + ADD_LST_LIQ_ACCOUNTS_LEN <= usize::MAX,
            r matches Ok(
                SanctumAddLiqAccounts::WSOL(_),
            ) ==> offset + ADD_WSOL_LIQ_ACCOUNTS_LEN <= usize::MAX,
    {
        if accounts.len() < 3 || offset > accounts.len() - 3 {
            return Err(Error::Router(ErrorCode::InvalidAccountsLength));
        }
        // the mint says whether the token is the wrapped native asset
        let is_wsol: bool = accounts[offset + 2].key.is(WSOL_PROGRAM);
        if is_wsol {
            if accounts.len() < ADD_WSOL_LIQ_ACCOUNTS_LEN || offset > accounts.len()
                - ADD_WSOL_LIQ_ACCOUNTS_LEN {
                return Err(Error::Router(ErrorCode::InvalidAccountsLength));
            }
            Ok(
                SanctumAddLiqAccounts::WSOL(
                    SanctumAddWsolLiqAccounts::parse_accounts(accounts, offset)?,
                ),
            )
        } else {
            if accounts.len() < ADD_LST_LIQ_ACCOUNTS_LEN || offset > accounts.len()
                - ADD_LST_LIQ_ACCOUNTS_LEN {
                return Err(Error::Router(ErrorCode::InvalidAccountsLength));
            }
            Ok(
                SanctumAddLiqAccounts::LST(
                    SanctumAddLstLiqAccounts::parse_accounts(accounts, offset)?,
                ),
            )
        }
    }
}

impl<'info> SanctumRemoveLiqAccounts<'info> {
    /// The accounts at the cursor read as those of taking liquidity out. The mint, the third
    /// account from the cursor, says which kind they are; that many accounts must be there,
    /// each what its place asks for.
    pub open spec fn parsed(accounts: Seq<AccountInfo>, offset: int) -> Result<
        SanctumRemoveLiqAccounts<'info>,
        Error,
    > {
        if accounts.len() < offset + 3 {
            Err(Error::Router(ErrorCode::InvalidAccountsLength))
        } else if accounts[offset + 2].key == address(WSOL_PROGRAM) {
            if accounts.len() < offset + REMOVE_WSOL_LIQ_ACCOUNTS_LEN {
                Err(Error::Router(ErrorCode::InvalidAccountsLength))
            } else {
                match SanctumRemoveWsolLiqAccounts::parsed(
                    accounts.subrange(offset, offset + REMOVE_WSOL_LIQ_ACCOUNTS_LEN),
                ) {
                    Ok(swap_accounts) => Ok(SanctumRemoveLiqAccounts::WSOL(swap_accounts)),
                    Err(e) => Err(e),
                }
            }
        } else {
            if accounts.len() < offset + REMOVE_LST_LIQ_ACCOUNTS_LEN {
                Err(Error::Router(ErrorCode::InvalidAccountsLength))
            } else {
                match SanctumRemoveLstLiqAccounts::parsed(
                    accounts.subrange(offset, offset + REMOVE_LST_LIQ_ACCOUNTS_LEN),
                ) {
                    Ok(swap_accounts) => Ok(SanctumRemoveLiqAccounts::LST(swap_accounts)),
                    Err(e) => Err(e),
                }
            }
        }
    }

    fn parse_accounts(accounts: &'info [AccountInfo], offset: usize) -> (r: Result<
        SanctumRemoveLiqAccounts<'info>,
        Error,
    >)
        ensures
            r == Self::parsed(accounts@, offset as int),
            r matches Ok(
                SanctumRemoveLiqAccounts::LST(_),
            ) ==> offset + REMOVE_LST_LIQ_ACCOUNTS_LEN <= usize::MAX,
            r matches Ok(
                SanctumRemoveLiqAccounts::WSOL(_),
            ) ==> offset + REMOVE_WSOL_LIQ_ACCOUNTS_LEN <= usize::MAX,
    {
        if accounts.len() < 3 || offset > accounts.len() - 3 {
            return Err(Error::Router(ErrorCode::InvalidAccountsLength));
        }
        // the mint says whether the token is the wrapped native asset
        let is_wsol: bool = accounts[offset + 2].key.is(WSOL_PROGRAM);
        if is_wsol {
            if accounts.len() < REMOVE_WSOL_LIQ_ACCOUNTS_LEN || offset > accounts.len()
                - REMOVE_WSOL_LIQ_ACCOUNTS_LEN {
                return Err(Error::Router(ErrorCode::InvalidAccountsLength));
            }
            Ok(
                SanctumRemoveLiqAccounts::WSOL(
                    SanctumRemoveWsolLiqAccounts::parse_accounts(accounts, offset)?,
                ),
            )
        } else {
            if accounts.len() < REMOVE_LST_LIQ_ACCOUNTS_LEN || offset > accounts.len()
                - REMOVE_LST_LIQ_ACCOUNTS_LEN {
                return Err(Error::Router(ErrorCode::InvalidAccountsLength));
            }
            Ok(
                SanctumRemoveLiqAccounts::LST(
                    SanctumRemoveLstLiqAccounts::parse_accounts(accounts, offset)?,
                ),
            )
        }
    }
}

impl<'info> SanctumSwapAccounts<'info> {
    /// The accounts at the cursor read as those of an exchange. The two mints, the third and
    /// fourth account from the cursor, say which kind they are: at most one of them may be
    /// the wrapped native asset. That many accounts must be there, each what its place asks
    /// for.
    pub open spec fn parsed(accounts: Seq<AccountInfo>, offset: int) -> Result<
        SanctumSwapAccounts<'info>,
        Error,
    > {
        if accounts.len() < offset + 4 {
            Err(Error::Router(ErrorCode::InvalidAccountsLength))
        } else {
            let is_src_wsol = accounts[offset + 2].key == address(WSOL_PROGRAM);
            let is_dst_wsol = accounts[offset + 3].key == address(WSOL_PROGRAM);
            if is_src_wsol && is_dst_wsol {
                Err(Error::Router(ErrorCode::InvalidSanctumSwapAccounts))
            } else if !is_src_wsol && !is_dst_wsol {
                if accounts.len() < offset + SWAP_LST_LST_ACCOUNTS_LEN {
                    Err(Error::Router(ErrorCode::InvalidAccountsLength))
                } else {
                    match SanctumLstLstSwapAccounts::parsed(
                        accounts.subrange(offset, offset + SWAP_LST_LST_ACCOUNTS_LEN),
                    ) {
                        Ok(swap_accounts) => Ok(SanctumSwapAccounts::LstLst(swap_accounts)),
                        Err(e) => Err(e),
                    }
                }
            } else if accounts.len() < offset + SWAP_LST_SOL_ACCOUNTS_LEN {
                Err(Error::Router(ErrorCode::InvalidAccountsLength))
            } else if is_src_wsol {
                match SanctumWsolLstSwapAccounts::parsed(
                    accounts.subrange(offset, offset + SWAP_LST_SOL_ACCOUNTS_LEN),
                ) {
                    Ok(swap_accounts) => Ok(SanctumSwapAccounts::WsolLst(swap_accounts)),
                    Err(e) => Err(e),
                }
            } else {
                match SanctumLstWsolSwapAccounts::parsed(
                    accounts.subrange(offset, offset + SWAP_LST_SOL_ACCOUNTS_LEN),
                ) {
                    Ok(swap_accounts) => Ok(SanctumSwapAccounts::LstWsol(swap_accounts)),
                    Err(e) => Err(e),
                }
            }
        }
    }

    fn parse_accounts(accounts: &'info [AccountInfo], offset: usize) -> (r: Result<
        SanctumSwapAccounts<'info>,
        Error,
    >)
        ensures
            r == Self::parsed(accounts@, offset as int),
            r matches Ok(SanctumSwapAccounts::LstLst(_)) ==> offset + SWAP_LST_LST_ACCOUNTS_LEN
                <= usize::MAX,
            r is Ok ==> offset + SWAP_LST_SOL_ACCOUNTS_LEN <= usize::MAX,
    {
        if accounts.len() < 4 || offset > accounts.len() - 4 {
            return Err(Error::Router(ErrorCode::InvalidAccountsLength));
        }
        let is_src_wsol: bool = accounts[offset + 2].key.is(WSOL_PROGRAM);
        let is_dst_wsol: bool = accounts[offset + 3].key.is(WSOL_PROGRAM);
        match (is_src_wsol, is_dst_wsol) {
            (false, false) => {
                if accounts.len() < SWAP_LST_LST_ACCOUNTS_LEN || offset > accounts.len()
                    - SWAP_LST_LST_ACCOUNTS_LEN {
                    return Err(Error::Router(ErrorCode::InvalidAccountsLength));
                }
                Ok(
                    SanctumSwapAccounts::LstLst(
                        SanctumLstLstSwapAccounts::parse_accounts(accounts, offset)?,
                    ),
                )
            },
            (true, false) => {
                if accounts.len() < SWAP_LST_SOL_ACCOUNTS_LEN || offset > accounts.len()
                    - SWAP_LST_SOL_ACCOUNTS_LEN {
                    return Err(Error::Router(ErrorCode::InvalidAccountsLength));
                }
                Ok(
                    SanctumSwapAccounts::WsolLst(
                        SanctumWsolLstSwapAccounts::parse_accounts(accounts, offset)?,
                    ),
                )
            },
            (false, true) => {
                if accounts.len() < SWAP_LST_SOL_ACCOUNTS_LEN || offset > accounts.len()
                    - SWAP_LST_SOL_ACCOUNTS_LEN {
                    return Err(Error::Router(ErrorCode::InvalidAccountsLength));
                }
                Ok(
                    SanctumSwapAccounts::LstWsol(
                        SanctumLstWsolSwapAccounts::parse_accounts(accounts, offset)?,
                    ),
                )
            },
            (true, true) => Err(Error::Router(ErrorCode::InvalidSanctumSwapAccounts)),
        }
    }
}

/// What `add_liquidity_handler` makes of the accounts at the cursor: the call, or the reason
/// why none is made. It reads no account outside the venue's part of the list.
pub open spec fn add_liquidity_handler_call(
    remaining_accounts: Seq<AccountInfo>,
    amount_in: u64,
    offset: usize,
    hop_accounts: HopAccounts,
    hop: usize,
    proxy_swap: bool,
) -> Result<InvocationView, Error> {
    match SanctumAddLiqAccounts::parsed(remaining_accounts, offset as int) {
        Err(e) => Err(e),
        Ok(SanctumAddLiqAccounts::WSOL(swap_accounts)) => swap_accounts.add_liquidity(
            amount_in,
            offset,
            hop_accounts,
            hop,
            proxy_swap,
        ),
        Ok(SanctumAddLiqAccounts::LST(swap_accounts)) => swap_accounts.add_liquidity(
            amount_in,
            offset,
            hop_accounts,
            hop,
            proxy_swap,
        ),
    }
}

/// Prepares the call that puts `amount_in` of a token into the pool, for the pool's own token.
pub fn add_liquidity_handler<'info>(
    remaining_accounts: &'info [AccountInfo],
    amount_in: u64,
    offset: usize,
    hop_accounts: &HopAccounts,
    hop: usize,
    proxy_swap: bool,
) -> (r: Result<Invocation, Error>)
    ensures
        yields(
            r,
            add_liquidity_handler_call(
                remaining_accounts@,
                amount_in,
                offset,
                *hop_accounts,
                hop,
                proxy_swap,
            ),
        ),
{
    let swap_accounts = SanctumAddLiqAccounts::parse_accounts(remaining_accounts, offset)?;
    match swap_accounts {
        SanctumAddLiqAccounts::WSOL(swap_accounts) => handle_add_wsol_liquidity(
            &swap_accounts,
            amount_in,
            offset,
            hop_accounts,
            hop,
            proxy_swap,
        ),
        SanctumAddLiqAccounts::LST(swap_accounts) => handle_add_lst_liquidity(
            &swap_accounts,
            amount_in,
            offset,
            hop_accounts,
            hop,
            proxy_swap,
        ),
    }
}

/// What `remove_liquidity_handler` makes of the accounts at the cursor: the call, or the reason
/// why none is made. It reads no account outside the venue's part of the list.
pub open spec fn remove_liquidity_handler_call(
    remaining_accounts: Seq<AccountInfo>,
    amount_in: u64,
    offset: usize,
    hop_accounts: HopAccounts,
    hop: usize,
    proxy_swap: bool,
) -> Result<InvocationView, Error> {
    match SanctumRemoveLiqAccounts::parsed(remaining_accounts, offset as int) {
        Err(e) => Err(e),
        Ok(SanctumRemoveLiqAccounts::WSOL(swap_accounts)) => swap_accounts.remove_liquidity(
            amount_in,
            offset,
            hop_accounts,
            hop,
            proxy_swap,
        ),
        Ok(SanctumRemoveLiqAccounts::LST(swap_accounts)) => swap_accounts.remove_liquidity(
            amount_in,
            offset,
            hop_accounts,
            hop,
            proxy_swap,
        ),
    }
}

/// Prepares the call that gives `amount_in` of the pool's own token back, for a token of the
/// pool.
pub fn remove_liquidity_handler<'info>(
    remaining_accounts: &'info [AccountInfo],
    amount_in: u64,
    offset: usize,
    hop_accounts: &HopAccounts,
    hop: usize,
    proxy_swap: bool,
) -> (r: Result<Invocation, Error>)
    ensures
        yields(
            r,
            remove_liquidity_handler_call(
                remaining_accounts@,
                amount_in,
                offset,
                *hop_accounts,
                hop,
                proxy_swap,
            ),
        ),
{
    let swap_accounts = SanctumRemoveLiqAccounts::parse_accounts(remaining_accounts, offset)?;
    match swap_accounts {
        SanctumRemoveLiqAccounts::WSOL(swap_accounts) => handle_remove_wsol_liquidity(
            &swap_accounts,
            amount_in,
            offset,
            hop_accounts,
            hop,
            proxy_swap,
        ),
        SanctumRemoveLiqAccounts::LST(swap_accounts) => handle_remove_lst_liquidity(
            &swap_accounts,
            amount_in,
            offset,
            hop_accounts,
            hop,
            proxy_swap,
        ),
    }
}

/// What `swap_with_wsol_handler` makes of the accounts at the cursor: the call, or the reason
/// why none is made. It reads no account outside the venue's part of the list.
pub open spec fn swap_with_wsol_handler_call(
    remaining_accounts: Seq<AccountInfo>,
    amount_in: u64,
    offset: usize,
    hop_accounts: HopAccounts,
    hop: usize,
    proxy_swap: bool,
) -> Result<InvocationView, Error> {
    match SanctumSwapAccounts::parsed(remaining_accounts, offset as int) {
        Err(e) => Err(e),
        Ok(SanctumSwapAccounts::LstWsol(swap_accounts)) => swap_accounts.swap(
            amount_in,
            offset,
            hop_accounts,
            hop,
            proxy_swap,
        ),
        Ok(SanctumSwapAccounts::WsolLst(swap_accounts)) => swap_accounts.swap(
            amount_in,
            offset,
            hop_accounts,
            hop,
            proxy_swap,
        ),
        Ok(SanctumSwapAccounts::LstLst(_)) => Err(
            Error::Router(ErrorCode::InvalidSanctumSwapAccounts),
        ),
    }
}

/// Prepares an exchange between a liquid-stake token and the wrapped native asset, in
/// either direction. Accounts of an exchange between two liquid-stake tokens are refused.
pub fn swap_with_wsol_handler<'info>(
    remaining_accounts: &'info [AccountInfo],
    amount_in: u64,
    offset: usize,
    hop_accounts: &HopAccounts,
    hop: usize,
    proxy_swap: bool,
) -> (r: Result<Invocation, Error>)
    ensures
        yields(
            r,
            swap_with_wsol_handler_call(
                remaining_accounts@,
                amount_in,
                offset,
                *hop_accounts,
                hop,
                proxy_swap,
            ),
        ),
{
    let swap_accounts = SanctumSwapAccounts::parse_accounts(remaining_accounts, offset)?;
    match swap_accounts {
        SanctumSwapAccounts::LstWsol(swap_accounts) => handle_lst_wsol_swap(
            &swap_accounts,
            amount_in,
            offset,
            hop_accounts,
            hop,
            proxy_swap,
        ),
        SanctumSwapAccounts::WsolLst(swap_accounts) => handle_wsol_lst_swap(
            &swap_accounts,
            amount_in,
            offset,
            hop_accounts,
            hop,
            proxy_swap,
        ),
        SanctumSwapAccounts::LstLst(_swap_accounts) => Err(
            Error::Router(ErrorCode::InvalidSanctumSwapAccounts),
        ),
    }
}

/// What `swap_without_wsol_handler` makes of the accounts at the cursor: the call, or the
/// reason why none is made. It reads no account outside the venue's part of the list.
pub open spec fn swap_without_wsol_handler_call(
    remaining_accounts: Seq<AccountInfo>,
    amount_in: u64,
    offset: usize,
    hop_accounts: HopAccounts,
    hop: usize,
    proxy_swap: bool,
) -> Result<InvocationView, Error> {
    match SanctumSwapAccounts::parsed(remaining_accounts, offset as int) {
        Err(e) => Err(e),
        Ok(SanctumSwapAccounts::LstLst(swap_accounts)) => swap_accounts.swap(
            amount_in,
            offset,
            hop_accounts,
            hop,
            proxy_swap,
        ),
        Ok(_) => Err(Error::Router(ErrorCode::InvalidSanctumSwapAccounts)),
    }
}

/// Prepares an exchange of one liquid-stake token for another. Accounts of an exchange
/// with the wrapped native asset are refused.
pub fn swap_without_wsol_handler<'info>(
    remaining_accounts: &'info [AccountInfo],
    amount_in: u64,
    offset: usize,
    hop_accounts: &HopAccounts,
    hop: usize,
    proxy_swap: bool,
) -> (r: Result<Invocation, Error>)
    ensures
        yields(
            r,
            swap_without_wsol_handler_call(
                remaining_accounts@,
                amount_in,
                offset,
                *hop_accounts,
                hop,
                proxy_swap,
            ),
        ),
{
    let swap_accounts = SanctumSwapAccounts::parse_accounts(remaining_accounts, offset)?;
    match swap_accounts {
        SanctumSwapAccounts::LstLst(swap_accounts) => handle_lst_lst_swap(
            &swap_accounts,
            amount_in,
            offset,
            hop_accounts,
            hop,
            proxy_swap,
        ),
        _ => Err(Error::Router(ErrorCode::InvalidSanctumSwapAccounts)),
    }
}

/// Every call that `add_liquidity_handler` hands out continues the hop chain, draws on the
/// venue's own accounts, and leaves the cursor right behind them.
pub proof fn lemma_add_liquidity_handler_call(
    remaining_accounts: Seq<AccountInfo>,
    amount_in: u64,
    offset: usize,
    hop_accounts: HopAccounts,
    hop: usize,
    proxy_swap: bool,
)
    requires
        remaining_accounts.len() <= usize::MAX,
    ensures
        add_liquidity_handler_call(
            remaining_accounts,
            amount_in,
            offset,
            hop_accounts,
            hop,
            proxy_swap,
        ) matches Ok(invocation) ==> {
            &&& continuity_error(
                invocation.swap_source_token,
                invocation.swap_destination_token,
                hop_accounts,
            ) is None
            &&& (invocation.next_offset == offset + ADD_WSOL_LIQ_ACCOUNTS_LEN
                || invocation.next_offset == offset + ADD_LST_LIQ_ACCOUNTS_LEN)
            &&& invocation.next_offset <= remaining_accounts.len()
            &&& offset <= invocation.destination < invocation.next_offset
        },
{
}

/// A call that `add_liquidity_handler` hands out is made of the venue's part of the account list
/// alone: any list with the same accounts in that part gives the same call.
pub proof fn lemma_add_liquidity_handler_call_local(
    first: Seq<AccountInfo>,
    second: Seq<AccountInfo>,
    amount_in: u64,
    offset: usize,
    hop_accounts: HopAccounts,
    hop: usize,
    proxy_swap: bool,
)
    requires
        first.len() <= usize::MAX,
        add_liquidity_handler_call(
            first,
            amount_in,
            offset,
            hop_accounts,
            hop,
            proxy_swap,
        ) matches Ok(invocation) && second.len() >= invocation.next_offset && first.subrange(
            offset as int,
            invocation.next_offset as int,
        ) == second.subrange(offset as int, invocation.next_offset as int),
    ensures
        add_liquidity_handler_call(second, amount_in, offset, hop_accounts, hop, proxy_swap)
            == add_liquidity_handler_call(first, amount_in, offset, hop_accounts, hop, proxy_swap),
{
    let invocation = add_liquidity_handler_call(
        first,
        amount_in,
        offset,
        hop_accounts,
        hop,
        proxy_swap,
    )->Ok_0;
    let end = invocation.next_offset as int;
    assert(first.subrange(offset as int, end)[2] == second.subrange(offset as int, end)[2]);
    assert(first.subrange(offset as int, end)[3] == second.subrange(offset as int, end)[3]);
    if end == offset + ADD_WSOL_LIQ_ACCOUNTS_LEN {
        let taken = offset + ADD_WSOL_LIQ_ACCOUNTS_LEN;
        assert(first.subrange(offset as int, taken) == second.subrange(offset as int, taken));
    }
    if end == offset + ADD_LST_LIQ_ACCOUNTS_LEN {
        let taken = offset + ADD_LST_LIQ_ACCOUNTS_LEN;
        assert(first.subrange(offset as int, taken) == second.subrange(offset as int, taken));
    }
}

/// What `add_liquidity_handler` makes of the accounts depends on what they hold and on nothing
/// else: two lists of accounts that hold the same give the same call, or the same failure.
pub proof fn lemma_add_liquidity_handler_call_same(
    first: Seq<AccountInfo>,
    second: Seq<AccountInfo>,
    amount_in: u64,
    offset: usize,
    hop_accounts: HopAccounts,
    hop: usize,
    proxy_swap: bool,
)
    requires
        same_accounts(first, second),
    ensures
        add_liquidity_handler_call(second, amount_in, offset, hop_accounts, hop, proxy_swap)
            == add_liquidity_handler_call(first, amount_in, offset, hop_accounts, hop, proxy_swap),
{
    if first.len() >= offset + 4 {
        assert(same_account(&first[offset + 2], &second[offset + 2]));
        assert(same_account(&first[offset + 3], &second[offset + 3]));
    }
    if first.len() >= offset + ADD_WSOL_LIQ_ACCOUNTS_LEN {
        let taken = offset + ADD_WSOL_LIQ_ACCOUNTS_LEN;
        let ours = first.subrange(offset as int, taken);
        let theirs = second.subrange(offset as int, taken);
        assert forall|i: int| 0 <= i < ADD_WSOL_LIQ_ACCOUNTS_LEN implies same_account(
            &#[trigger] ours[i],
            &theirs[i],
        ) by {
            assert(same_account(&first[offset + i], &second[offset + i]));
        }
    }
    if first.len() >= offset + ADD_LST_LIQ_ACCOUNTS_LEN {
        let taken = offset + ADD_LST_LIQ_ACCOUNTS_LEN;
        let ours = first.subrange(offset as int, taken);
        let theirs = second.subrange(offset as int, taken);
        assert forall|i: int| 0 <= i < ADD_LST_LIQ_ACCOUNTS_LEN implies same_account(
            &#[trigger] ours[i],
            &theirs[i],
        ) by {
            assert(same_account(&first[offset + i], &second[offset + i]));
        }
    }
}

/// `add_liquidity_handler` holds a call to the hop chain before it looks at anything else that
/// the chain bears on. A call that it would hand out at the start of a chain is handed out
/// unchanged where it continues the chain it is given, and is refused for the break where it
/// does not.
pub proof fn lemma_add_liquidity_handler_call_chained(
    remaining_accounts: Seq<AccountInfo>,
    amount_in: u64,
    offset: usize,
    hop_accounts: HopAccounts,
    hop: usize,
    proxy_swap: bool,
)
    ensures
        add_liquidity_handler_call(
            remaining_accounts,
            amount_in,
            offset,
            HopAccounts::fresh(address(ZERO_ADDRESS)),
            hop,
            proxy_swap,
        ) matches Ok(invocation) ==> add_liquidity_handler_call(
            remaining_accounts,
            amount_in,
            offset,
            hop_accounts,
            hop,
            proxy_swap,
        ) == chained(invocation, hop_accounts),
{
}

/// Every call that `remove_liquidity_handler` hands out continues the hop chain, draws on the
/// venue's own accounts, and leaves the cursor right behind them.
pub proof fn lemma_remove_liquidity_handler_call(
    remaining_accounts: Seq<AccountInfo>,
    amount_in: u64,
    offset: usize,
    hop_accounts: HopAccounts,
    hop: usize,
    proxy_swap: bool,
)
    requires
        remaining_accounts.len() <= usize::MAX,
    ensures
        remove_liquidity_handler_call(
            remaining_accounts,
            amount_in,
            offset,
            hop_accounts,
            hop,
            proxy_swap,
        ) matches Ok(invocation) ==> {
            &&& continuity_error(
                invocation.swap_source_token,
                invocation.swap_destination_token,
                hop_accounts,
            ) is None
            &&& (invocation.next_offset == offset + REMOVE_WSOL_LIQ_ACCOUNTS_LEN
                || invocation.next_offset == offset + REMOVE_LST_LIQ_ACCOUNTS_LEN)
            &&& invocation.next_offset <= remaining_accounts.len()
            &&& offset <= invocation.destination < invocation.next_offset
        },
{
}

/// A call that `remove_liquidity_handler` hands out is made of the venue's part of the account list
/// alone: any list with the same accounts in that part gives the same call.
pub proof fn lemma_remove_liquidity_handler_call_local(
    first: Seq<AccountInfo>,
    second: Seq<AccountInfo>,
    amount_in: u64,
    offset: usize,
    hop_accounts: HopAccounts,
    hop: usize,
    proxy_swap: bool,
)
    requires
        first.len() <= usize::MAX,
        remove_liquidity_handler_call(
            first,
            amount_in,
            offset,
            hop_accounts,
            hop,
            proxy_swap,
        ) matches Ok(invocation) && second.len() >= invocation.next_offset && first.subrange(
            offset as int,
            invocation.next_offset as int,
        ) == second.subrange(offset as int, invocation.next_offset as int),
    ensures
        remove_liquidity_handler_call(second, amount_in, offset, hop_accounts, hop, proxy_swap)
            == remove_liquidity_handler_call(
                first,
                amount_in,
                offset,
                hop_accounts,
                hop,
                proxy_swap,
            ),
{
    let invocation = remove_liquidity_handler_call(
        first,
        amount_in,
        offset,
        hop_accounts,
        hop,
        proxy_swap,
    )->Ok_0;
    let end = invocation.next_offset as int;
    assert(first.subrange(offset as int, end)[2] == second.subrange(offset as int, end)[2]);
    assert(first.subrange(offset as int, end)[3] == second.subrange(offset as int, end)[3]);
    if end == offset + REMOVE_WSOL_LIQ_ACCOUNTS_LEN {
        let taken = offset + REMOVE_WSOL_LIQ_ACCOUNTS_LEN;
        assert(first.subrange(offset as int, taken) == second.subrange(offset as int, taken));
    }
    if end == offset + REMOVE_LST_LIQ_ACCOUNTS_LEN {
        let taken = offset + REMOVE_LST_LIQ_ACCOUNTS_LEN;
        assert(first.subrange(offset as int, taken) == second.subrange(offset as int, taken));
    }
}

/// What `remove_liquidity_handler` makes of the accounts depends on what they hold and on nothing
/// else: two lists of accounts that hold the same give the same call, or the same failure.
pub proof fn lemma_remove_liquidity_handler_call_same(
    first: Seq<AccountInfo>,
    second: Seq<AccountInfo>,
    amount_in: u64,
    offset: usize,
    hop_accounts: HopAccounts,
    hop: usize,
    proxy_swap: bool,
)
    requires
        same_accounts(first, second),
    ensures
        remove_liquidity_handler_call(second, amount_in, offset, hop_accounts, hop, proxy_swap)
            == remove_liquidity_handler_call(
                first,
                amount_in,
                offset,
                hop_accounts,
                hop,
                proxy_swap,
            ),
{
    if first.len() >= offset + 4 {
        assert(same_account(&first[offset + 2], &second[offset + 2]));
        assert(same_account(&first[offset + 3], &second[offset + 3]));
    }
    if first.len() >= offset + REMOVE_WSOL_LIQ_ACCOUNTS_LEN {
        let taken = offset + REMOVE_WSOL_LIQ_ACCOUNTS_LEN;
        let ours = first.subrange(offset as int, taken);
        let theirs = second.subrange(offset as int, taken);
        assert forall|i: int| 0 <= i < REMOVE_WSOL_LIQ_ACCOUNTS_LEN implies same_account(
            &#[trigger] ours[i],
            &theirs[i],
        ) by {
            assert(same_account(&first[offset + i], &second[offset + i]));
        }
    }
    if first.len() >= offset + REMOVE_LST_LIQ_ACCOUNTS_LEN {
        let taken = offset + REMOVE_LST_LIQ_ACCOUNTS_LEN;
        let ours = first.subrange(offset as int, taken);
        let theirs = second.subrange(offset as int, taken);
        assert forall|i: int| 0 <= i < REMOVE_LST_LIQ_ACCOUNTS_LEN implies same_account(
            &#[trigger] ours[i],
            &theirs[i],
        ) by {
            assert(same_account(&first[offset + i], &second[offset + i]));
        }
    }
}

/// `remove_liquidity_handler` holds a call to the hop chain before it looks at anything else
/// that the chain bears on. A call that it would hand out at the start of a chain is handed out
/// unchanged where it continues the chain it is given, and is refused for the break where it
/// does not.
pub proof fn lemma_remove_liquidity_handler_call_chained(
    remaining_accounts: Seq<AccountInfo>,
    amount_in: u64,
    offset: usize,
    hop_accounts: HopAccounts,
    hop: usize,
    proxy_swap: bool,
)
    ensures
        remove_liquidity_handler_call(
            remaining_accounts,
            amount_in,
            offset,
            HopAccounts::fresh(address(ZERO_ADDRESS)),
            hop,
            proxy_swap,
        ) matches Ok(invocation) ==> remove_liquidity_handler_call(
            remaining_accounts,
            amount_in,
            offset,
            hop_accounts,
            hop,
            proxy_swap,
        ) == chained(invocation, hop_accounts),
{
}

/// Every call that `swap_with_wsol_handler` hands out continues the hop chain, draws on the
/// venue's own accounts, and leaves the cursor right behind them.
pub proof fn lemma_swap_with_wsol_handler_call(
    remaining_accounts: Seq<AccountInfo>,
    amount_in: u64,
    offset: usize,
    hop_accounts: HopAccounts,
    hop: usize,
    proxy_swap: bool,
)
    requires
        remaining_accounts.len() <= usize::MAX,
    ensures
        swap_with_wsol_handler_call(
            remaining_accounts,
            amount_in,
            offset,
            hop_accounts,
            hop,
            proxy_swap,
        ) matches Ok(invocation) ==> {
            &&& continuity_error(
                invocation.swap_source_token,
                invocation.swap_destination_token,
                hop_accounts,
            ) is None
            &&& invocation.next_offset == offset + SWAP_LST_SOL_ACCOUNTS_LEN
            &&& invocation.next_offset <= remaining_accounts.len()
            &&& offset <= invocation.destination < invocation.next_offset
        },
{
}

/// A call that `swap_with_wsol_handler` hands out is made of the venue's part of the account list
/// alone: any list with the same accounts in that part gives the same call.
pub proof fn lemma_swap_with_wsol_handler_call_local(
    first: Seq<AccountInfo>,
    second: Seq<AccountInfo>,
    amount_in: u64,
    offset: usize,
    hop_accounts: HopAccounts,
    hop: usize,
    proxy_swap: bool,
)
    requires
        first.len() <= usize::MAX,
        swap_with_wsol_handler_call(
            first,
            amount_in,
            offset,
            hop_accounts,
            hop,
            proxy_swap,
        ) matches Ok(invocation) && second.len() >= invocation.next_offset && first.subrange(
            offset as int,
            invocation.next_offset as int,
        ) == second.subrange(offset as int, invocation.next_offset as int),
    ensures
        swap_with_wsol_handler_call(second, amount_in, offset, hop_accounts, hop, proxy_swap)
            == swap_with_wsol_handler_call(first, amount_in, offset, hop_accounts, hop, proxy_swap),
{
    let invocation = swap_with_wsol_handler_call(
        first,
        amount_in,
        offset,
        hop_accounts,
        hop,
        proxy_swap,
    )->Ok_0;
    let end = invocation.next_offset as int;
    assert(first.subrange(offset as int, end)[2] == second.subrange(offset as int, end)[2]);
    assert(first.subrange(offset as int, end)[3] == second.subrange(offset as int, end)[3]);
    if end == offset + SWAP_LST_SOL_ACCOUNTS_LEN {
        let taken = offset + SWAP_LST_SOL_ACCOUNTS_LEN;
        assert(first.subrange(offset as int, taken) == second.subrange(offset as int, taken));
    }
}

/// What `swap_with_wsol_handler` makes of the accounts depends on what they hold and on nothing
/// else: two lists of accounts that hold the same give the same call, or the same failure.
pub proof fn lemma_swap_with_wsol_handler_call_same(
    first: Seq<AccountInfo>,
    second: Seq<AccountInfo>,
    amount_in: u64,
    offset: usize,
    hop_accounts: HopAccounts,
    hop: usize,
    proxy_swap: bool,
)
    requires
        same_accounts(first, second),
    ensures
        swap_with_wsol_handler_call(second, amount_in, offset, hop_accounts, hop, proxy_swap)
            == swap_with_wsol_handler_call(first, amount_in, offset, hop_accounts, hop, proxy_swap),
{
    if first.len() >= offset + 4 {
        assert(same_account(&first[offset + 2], &second[offset + 2]));
        assert(same_account(&first[offset + 3], &second[offset + 3]));
    }
    if first.len() >= offset + SWAP_LST_SOL_ACCOUNTS_LEN {
        let taken = offset + SWAP_LST_SOL_ACCOUNTS_LEN;
        let ours = first.subrange(offset as int, taken);
        let theirs = second.subrange(offset as int, taken);
        assert forall|i: int| 0 <= i < SWAP_LST_SOL_ACCOUNTS_LEN implies same_account(
            &#[trigger] ours[i],
            &theirs[i],
        ) by {
            assert(same_account(&first[offset + i], &second[offset + i]));
        }
    }
}

/// `swap_with_wsol_handler` holds a call to the hop chain before it looks at anything else that
/// the chain bears on. A call that it would hand out at the start of a chain is handed out
/// unchanged where it continues the chain it is given, and is refused for the break where it
/// does not.
pub proof fn lemma_swap_with_wsol_handler_call_chained(
    remaining_accounts: Seq<AccountInfo>,
    amount_in: u64,
    offset: usize,
    hop_accounts: HopAccounts,
    hop: usize,
    proxy_swap: bool,
)
    ensures
        swap_with_wsol_handler_call(
            remaining_accounts,
            amount_in,
            offset,
            HopAccounts::fresh(address(ZERO_ADDRESS)),
            hop,
            proxy_swap,
        ) matches Ok(invocation) ==> swap_with_wsol_handler_call(
            remaining_accounts,
            amount_in,
            offset,
            hop_accounts,
            hop,
            proxy_swap,
        ) == chained(invocation, hop_accounts),
{
}

/// Every call that `swap_without_wsol_handler` hands out continues the hop chain, draws on the
/// venue's own accounts, and leaves the cursor right behind them.
pub proof fn lemma_swap_without_wsol_handler_call(
    remaining_accounts: Seq<AccountInfo>,
    amount_in: u64,
    offset: usize,
    hop_accounts: HopAccounts,
    hop: usize,
    proxy_swap: bool,
)
    requires
        remaining_accounts.len() <= usize::MAX,
    ensures
        swap_without_wsol_handler_call(
            remaining_accounts,
            amount_in,
            offset,
            hop_accounts,
            hop,
            proxy_swap,
        ) matches Ok(invocation) ==> {
            &&& continuity_error(
                invocation.swap_source_token,
                invocation.swap_destination_token,
                hop_accounts,
            ) is None
            &&& invocation.next_offset == offset + SWAP_LST_LST_ACCOUNTS_LEN
            &&& invocation.next_offset <= remaining_accounts.len()
            &&& offset <= invocation.destination < invocation.next_offset
        },
{
}

/// A call that `swap_without_wsol_handler` hands out is made of the venue's part of the account
/// list alone: any list with the same accounts in that part gives the same call.
pub proof fn lemma_swap_without_wsol_handler_call_local(
    first: Seq<AccountInfo>,
    second: Seq<AccountInfo>,
    amount_in: u64,
    offset: usize,
    hop_accounts: HopAccounts,
    hop: usize,
    proxy_swap: bool,
)
    requires
        first.len() <= usize::MAX,
        swap_without_wsol_handler_call(
            first,
            amount_in,
            offset,
            hop_accounts,
            hop,
            proxy_swap,
        ) matches Ok(invocation) && second.len() >= invocation.next_offset && first.subrange(
            offset as int,
            invocation.next_offset as int,
        ) == second.subrange(offset as int, invocation.next_offset as int),
    ensures
        swap_without_wsol_handler_call(second, amount_in, offset, hop_accounts, hop, proxy_swap)
            == swap_without_wsol_handler_call(
                first,
                amount_in,
                offset,
                hop_accounts,
                hop,
                proxy_swap,
            ),
{
    let invocation = swap_without_wsol_handler_call(
        first,
        amount_in,
        offset,
        hop_accounts,
        hop,
        proxy_swap,
    )->Ok_0;
    let end = invocation.next_offset as int;
    assert(first.subrange(offset as int, end)[2] == second.subrange(offset as int, end)[2]);
    assert(first.subrange(offset as int, end)[3] == second.subrange(offset as int, end)[3]);
    if end == offset + SWAP_LST_LST_ACCOUNTS_LEN {
        let taken = offset + SWAP_LST_LST_ACCOUNTS_LEN;
        assert(first.subrange(offset as int, taken) == second.subrange(offset as int, taken));
    }
}

/// What `swap_without_wsol_handler` makes of the accounts depends on what they hold and on nothing
/// else: two lists of accounts that hold the same give the same call, or the same failure.
pub proof fn lemma_swap_without_wsol_handler_call_same(
    first: Seq<AccountInfo>,
    second: Seq<AccountInfo>,
    amount_in: u64,
    offset: usize,
    hop_accounts: HopAccounts,
    hop: usize,
    proxy_swap: bool,
)
    requires
        same_accounts(first, second),
    ensures
        swap_without_wsol_handler_call(second, amount_in, offset, hop_accounts, hop, proxy_swap)
            == swap_without_wsol_handler_call(
                first,
                amount_in,
                offset,
                hop_accounts,
                hop,
                proxy_swap,
            ),
{
    if first.len() >= offset + 4 {
        assert(same_account(&first[offset + 2], &second[offset + 2]));
        assert(same_account(&first[offset + 3], &second[offset + 3]));
    }
    if first.len() >= offset + SWAP_LST_LST_ACCOUNTS_LEN {
        let taken = offset + SWAP_LST_LST_ACCOUNTS_LEN;
        let ours = first.subrange(offset as int, taken);
        let theirs = second.subrange(offset as int, taken);
        assert forall|i: int| 0 <= i < SWAP_LST_LST_ACCOUNTS_LEN implies same_account(
            &#[trigger] ours[i],
            &theirs[i],
        ) by {
            assert(same_account(&first[offset + i], &second[offset + i]));
        }
    }
}

/// `swap_without_wsol_handler` holds a call to the hop chain before it looks at anything else
/// that the chain bears on. A call that it would hand out at the start of a chain is handed out
/// unchanged where it continues the chain it is given, and is refused for the break where it
/// does not.
pub proof fn lemma_swap_without_wsol_handler_call_chained(
    remaining_accounts: Seq<AccountInfo>,
    amount_in: u64,
    offset: usize,
    hop_accounts: HopAccounts,
    hop: usize,
    proxy_swap: bool,
)
    ensures
        swap_without_wsol_handler_call(
            remaining_accounts,
            amount_in,
            offset,
            HopAccounts::fresh(address(ZERO_ADDRESS)),
            hop,
            proxy_swap,
        ) matches Ok(invocation) ==> swap_without_wsol_handler_call(
            remaining_accounts,
            amount_in,
            offset,
            hop_accounts,
            hop,
            proxy_swap,
        ) == chained(invocation, hop_accounts),
{
}

} // verus!
