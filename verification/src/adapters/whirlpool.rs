//! Orca's whirlpools.

use crate::account::{
    address, readonly, writable, AccountInfo, AccountMeta, Instruction, InstructionView, Interface,
    Mint, Program, ProgramKind, TokenAccount,
};
use crate::adapters::common::{
    account_ref, before_check, before_check_error, chained, continuity_error, direction,
    find_direction, invoke_process, no_call, no_calls, prepared, same_account, same_accounts,
    yields, AccountRef, Call, CallView, DexProcessor, Invocation, InvocationView,
};
use crate::bytes::{le_bytes, push_le};
use crate::constants::{SWAP_SELECTOR, SWAP_V2_SELECTOR, WHIRLPOOL_PROGRAM, ZERO_ADDRESS};
use crate::error::{Error, ErrorCode};
use crate::instructions::common::HopAccounts;
use vstd::prelude::*;

verus! {

/// Length of the venue's instruction payload.
pub const ARGS_LEN: usize = 42;

/// Length of the payload for a whirlpool of either token program.
pub const ARGS_V2_LEN: usize = 43;

/// Number of accounts the venue takes from the flat account list.
pub const ACCOUNTS_LEN: usize = 12;

/// Number of accounts a whirlpool of either token program takes.
pub const ACCOUNTS_V2_LEN: usize = 16;

/// The lowest square-root price the venue supports.
pub const MIN_SQRT_PRICE: u128 = 4295048016;

/// The highest square-root price the venue supports.
pub const MAX_SQRT_PRICE: u128 = 79226673515401279992447579055;

/// Whirlpools add nothing around their call.
pub struct WhirlpoolProcessor;

impl DexProcessor for WhirlpoolProcessor {
    open spec fn calls_before(
        &self,
        account_infos: Seq<AccountRef>,
    ) -> Result<Seq<CallView>, Error> {
        no_calls()
    }

    open spec fn calls_after(
        &self,
        account_infos: Seq<AccountRef>,
    ) -> Result<Seq<CallView>, Error> {
        no_calls()
    }

    fn before_invoke(&self, account_infos: &Vec<AccountRef>) -> (r: Result<Vec<Call>, Error>) {
        no_call()
    }

    fn after_invoke(&self, account_infos: &Vec<AccountRef>) -> (r: Result<Vec<Call>, Error>) {
        no_call()
    }
}

/// The accounts of one exchange on a whirlpool.
#[derive(Clone, Copy, Debug)]
pub struct WhirlpoolAccounts<'info> {
    pub dex_program_id: &'info AccountInfo,
    pub swap_authority_pubkey: &'info AccountInfo,
    pub swap_source_token: TokenAccount<'info>,
    pub swap_destination_token: TokenAccount<'info>,
    pub token_program: Program<'info>,
    pub whirlpool: &'info AccountInfo,
    pub token_vault_a: TokenAccount<'info>,
    pub token_vault_b: TokenAccount<'info>,
    pub tick_array0: &'info AccountInfo,
    pub tick_array1: &'info AccountInfo,
    pub tick_array2: &'info AccountInfo,
    pub oracle: &'info AccountInfo,
}

/// The accounts of one exchange on a whirlpool that may hold tokens of either token
/// program.
#[derive(Clone, Copy, Debug)]
pub struct WhirlpoolV2Accounts<'info> {
    pub dex_program_id: &'info AccountInfo,
    pub swap_authority_pubkey: &'info AccountInfo,
    pub swap_source_token: TokenAccount<'info>,
    pub swap_destination_token: TokenAccount<'info>,
    pub token_program_a: Interface<'info>,
    pub token_program_b: Interface<'info>,
    pub memo_program: &'info AccountInfo,
    pub whirlpool: &'info AccountInfo,
    pub token_mint_a: Mint<'info>,
    pub token_mint_b: Mint<'info>,
    pub token_vault_a: TokenAccount<'info>,
    pub token_vault_b: TokenAccount<'info>,
    pub tick_array0: &'info AccountInfo,
    pub tick_array1: &'info AccountInfo,
    pub tick_array2: &'info AccountInfo,
    pub oracle: &'info AccountInfo,
}

impl<'info> WhirlpoolAccounts<'info> {
    /// The accounts of `slice`, the venue's part of the flat list, each read as what its
    /// place asks for; or the failure of the first that is not that.
    pub open spec fn parsed(slice: Seq<AccountInfo>) -> Result<WhirlpoolAccounts<'info>, Error> {
        let swap_source_token = TokenAccount::parsed(&slice[2]);
        let swap_destination_token = TokenAccount::parsed(&slice[3]);
        let token_program = Program::parsed(&slice[4], ProgramKind::Token);
        let token_vault_a = TokenAccount::parsed(&slice[6]);
        let token_vault_b = TokenAccount::parsed(&slice[7]);
        if swap_source_token is Err {
            Err(swap_source_token->Err_0)
        } else if swap_destination_token is Err {
            Err(swap_destination_token->Err_0)
        } else if token_program is Err {
            Err(token_program->Err_0)
        } else if token_vault_a is Err {
            Err(token_vault_a->Err_0)
        } else if token_vault_b is Err {
            Err(token_vault_b->Err_0)
        } else {
            Ok(
                WhirlpoolAccounts {
                    dex_program_id: &slice[0],
                    swap_authority_pubkey: &slice[1],
                    swap_source_token: swap_source_token->Ok_0,
                    swap_destination_token: swap_destination_token->Ok_0,
                    token_program: token_program->Ok_0,
                    whirlpool: &slice[5],
                    token_vault_a: token_vault_a->Ok_0,
                    token_vault_b: token_vault_b->Ok_0,
                    tick_array0: &slice[8],
                    tick_array1: &slice[9],
                    tick_array2: &slice[10],
                    oracle: &slice[11],
                },
            )
        }
    }

    fn parse_accounts(accounts: &'info [AccountInfo], offset: usize) -> (r: Result<
        WhirlpoolAccounts<'info>,
        Error,
    >)
        requires
            offset + ACCOUNTS_LEN <= accounts@.len(),
        ensures
            r == Self::parsed(accounts@.subrange(offset as int, offset + ACCOUNTS_LEN)),
    {
        Ok(
            WhirlpoolAccounts {
                dex_program_id: &accounts[offset],
                swap_authority_pubkey: &accounts[offset + 1],
                swap_source_token: TokenAccount::try_from(&accounts[offset + 2])?,
                swap_destination_token: TokenAccount::try_from(&accounts[offset + 3])?,
                token_program: Program::try_from(&accounts[offset + 4], ProgramKind::Token)?,
                whirlpool: &accounts[offset + 5],
                token_vault_a: TokenAccount::try_from(&accounts[offset + 6])?,
                token_vault_b: TokenAccount::try_from(&accounts[offset + 7])?,
                tick_array0: &accounts[offset + 8],
                tick_array1: &accounts[offset + 9],
                tick_array2: &accounts[offset + 10],
                oracle: &accounts[offset + 11],
            },
        )
    }
}

impl<'info> WhirlpoolV2Accounts<'info> {
    /// The accounts of `slice`, the venue's part of the flat list, each read as what its
    /// place asks for; or the failure of the first that is not that.
    pub open spec fn parsed(slice: Seq<AccountInfo>) -> Result<WhirlpoolV2Accounts<'info>, Error> {
        let swap_source_token = TokenAccount::parsed(&slice[2]);
        let swap_destination_token = TokenAccount::parsed(&slice[3]);
        let token_program_a = Interface::parsed(&slice[4]);
        let token_program_b = Interface::parsed(&slice[5]);
        let token_mint_a = Mint::parsed(&slice[8]);
        let token_mint_b = Mint::parsed(&slice[9]);
        let token_vault_a = TokenAccount::parsed(&slice[10]);
        let token_vault_b = TokenAccount::parsed(&slice[11]);
        if swap_source_token is Err {
            Err(swap_source_token->Err_0)
        } else if swap_destination_token is Err {
            Err(swap_destination_token->Err_0)
        } else if token_program_a is Err {
            Err(token_program_a->Err_0)
        } else if token_program_b is Err {
            Err(token_program_b->Err_0)
        } else if token_mint_a is Err {
            Err(token_mint_a->Err_0)
        } else if token_mint_b is Err {
            Err(token_mint_b->Err_0)
        } else if token_vault_a is Err {
            Err(token_vault_a->Err_0)
        } else if token_vault_b is Err {
            Err(token_vault_b->Err_0)
        } else {
            Ok(
                WhirlpoolV2Accounts {
                    dex_program_id: &slice[0],
                    swap_authority_pubkey: &slice[1],
                    swap_source_token: swap_source_token->Ok_0,
                    swap_destination_token: swap_destination_token->Ok_0,
                    token_program_a: token_program_a->Ok_0,
                    token_program_b: token_program_b->Ok_0,
                    memo_program: &slice[6],
                    whirlpool: &slice[7],
                    token_mint_a: token_mint_a->Ok_0,
                    token_mint_b: token_mint_b->Ok_0,
                    token_vault_a: token_vault_a->Ok_0,
                    token_vault_b: token_vault_b->Ok_0,
                    tick_array0: &slice[12],
                    tick_array1: &slice[13],
                    tick_array2: &slice[14],
                    oracle: &slice[15],
                },
            )
        }
    }

    fn parse_accounts(accounts: &'info [AccountInfo], offset: usize) -> (r: Result<
        WhirlpoolV2Accounts<'info>,
        Error,
    >)
        requires
            offset + ACCOUNTS_V2_LEN <= accounts@.len(),
        ensures
            r == Self::parsed(accounts@.subrange(offset as int, offset + ACCOUNTS_V2_LEN)),
    {
        Ok(
            WhirlpoolV2Accounts {
                dex_program_id: &accounts[offset],
                swap_authority_pubkey: &accounts[offset + 1],
                swap_source_token: TokenAccount::try_from(&accounts[offset + 2])?,
                swap_destination_token: TokenAccount::try_from(&accounts[offset + 3])?,
                token_program_a: Interface::try_from(&accounts[offset + 4])?,
                token_program_b: Interface::try_from(&accounts[offset + 5])?,
                memo_program: &accounts[offset + 6],
                whirlpool: &accounts[offset + 7],
                token_mint_a: Mint::try_from(&accounts[offset + 8])?,
                token_mint_b: Mint::try_from(&accounts[offset + 9])?,
                token_vault_a: TokenAccount::try_from(&accounts[offset + 10])?,
                token_vault_b: TokenAccount::try_from(&accounts[offset + 11])?,
                tick_array0: &accounts[offset + 12],
                tick_array1: &accounts[offset + 13],
                tick_array2: &accounts[offset + 14],
                oracle: &accounts[offset + 15],
            },
        )
    }
}

/// The payload of an exchange: the selector of the instruction, the amount, the threshold for
/// the other amount, the limit of the square-root price, whether the amount is the one to sell,
/// and whether the first asset is sold for the second.
pub open spec fn swap_data(
    amount: u64,
    other_amount_threshold: u64,
    sqrt_price_limit: u128,
    amount_specified_is_input: bool,
    a_to_b: bool,
) -> Seq<u8> {
    SWAP_SELECTOR@
        + le_bytes(amount as nat, 8)
        + le_bytes(other_amount_threshold as nat, 8)
        + le_bytes(sqrt_price_limit as nat, 16)
        + seq![if amount_specified_is_input { 1u8 } else { 0u8 }]
        + seq![if a_to_b { 1u8 } else { 0u8 }]
}

/// The payload of an exchange: the selector of the instruction, the amount, the threshold for
/// the other amount, the limit of the square-root price, whether the amount is the one to sell,
/// and whether the first asset is sold for the second.
pub fn pack_swap_instruction(
    amount: u64,
    other_amount_threshold: u64,
    sqrt_price_limit: u128,
    amount_specified_is_input: bool,
    a_to_b: bool,
) -> (data: Vec<u8>)
    ensures
        data@ == swap_data(
            amount,
            other_amount_threshold,
            sqrt_price_limit,
            amount_specified_is_input,
            a_to_b,
        ),
        data@.len() == ARGS_LEN,
{
    let mut data: Vec<u8> = Vec::with_capacity(ARGS_LEN);
    data.extend_from_slice(&SWAP_SELECTOR);
    push_le(&mut data, amount as u128, 8);
    push_le(&mut data, other_amount_threshold as u128, 8);
    push_le(&mut data, sqrt_price_limit, 16);
    data.push(if amount_specified_is_input { 1u8 } else { 0u8 });
    data.push(if a_to_b { 1u8 } else { 0u8 });
    data
}

/// The payload of an exchange on a whirlpool of either token program: as for the others, under
/// its own selector, and with the mark that no further accounts are described.
pub open spec fn swap_v2_data(
    amount: u64,
    other_amount_threshold: u64,
    sqrt_price_limit: u128,
    amount_specified_is_input: bool,
    a_to_b: bool,
) -> Seq<u8> {
    SWAP_V2_SELECTOR@
        + le_bytes(amount as nat, 8)
        + le_bytes(other_amount_threshold as nat, 8)
        + le_bytes(sqrt_price_limit as nat, 16)
        + seq![if amount_specified_is_input { 1u8 } else { 0u8 }]
        + seq![if a_to_b { 1u8 } else { 0u8 }]
        + seq![0u8]
}

/// The payload of an exchange on a whirlpool of either token program: as for the others, under
/// its own selector, and with the mark that no further accounts are described.
pub fn pack_swap_v2_instruction(
    amount: u64,
    other_amount_threshold: u64,
    sqrt_price_limit: u128,
    amount_specified_is_input: bool,
    a_to_b: bool,
) -> (data: Vec<u8>)
    ensures
        data@ == swap_v2_data(
            amount,
            other_amount_threshold,
            sqrt_price_limit,
            amount_specified_is_input,
            a_to_b,
        ),
        data@.len() == ARGS_V2_LEN,
{
    let mut data: Vec<u8> = Vec::with_capacity(ARGS_V2_LEN);
    data.extend_from_slice(&SWAP_V2_SELECTOR);
    push_le(&mut data, amount as u128, 8);
    push_le(&mut data, other_amount_threshold as u128, 8);
    push_le(&mut data, sqrt_price_limit, 16);
    data.push(if amount_specified_is_input { 1u8 } else { 0u8 });
    data.push(if a_to_b { 1u8 } else { 0u8 });
    data.push(0u8);
    data
}

impl<'info> WhirlpoolAccounts<'info> {
    /// The accounts of the venue's instruction, in the order the venue wants them.
    pub open spec fn swap_metas(&self, a_to_b: bool) -> Seq<AccountMeta> {
        seq![
            readonly(self.token_program.info.key, false),
            readonly(self.swap_authority_pubkey.key, true),
            writable(self.whirlpool.key, false),
            writable(
                if a_to_b {
                    self.swap_source_token.info.key
                } else {
                    self.swap_destination_token.info.key
                },
                false,
            ),
            writable(self.token_vault_a.info.key, false),
            writable(
                if a_to_b {
                    self.swap_destination_token.info.key
                } else {
                    self.swap_source_token.info.key
                },
                false,
            ),
            writable(self.token_vault_b.info.key, false),
            writable(self.tick_array0.key, false),
            writable(self.tick_array1.key, false),
            writable(self.tick_array2.key, false),
            readonly(self.oracle.key, false),
        ]
    }

    /// The accounts handed to the call.
    pub open spec fn swap_infos(&self, offset: usize, a_to_b: bool) -> Seq<AccountRef> {
        seq![
            account_ref(self.token_program.info.key, offset, 4),
            account_ref(self.swap_authority_pubkey.key, offset, 1),
            account_ref(self.whirlpool.key, offset, 5),
            if a_to_b {
                account_ref(self.swap_source_token.info.key, offset, 2)
            } else {
                account_ref(self.swap_destination_token.info.key, offset, 3)
            },
            account_ref(self.token_vault_a.info.key, offset, 6),
            if a_to_b {
                account_ref(self.swap_destination_token.info.key, offset, 3)
            } else {
                account_ref(self.swap_source_token.info.key, offset, 2)
            },
            account_ref(self.token_vault_b.info.key, offset, 7),
            account_ref(self.tick_array0.key, offset, 8),
            account_ref(self.tick_array1.key, offset, 9),
            account_ref(self.tick_array2.key, offset, 10),
            account_ref(self.oracle.key, offset, 11),
        ]
    }

    /// The call these accounts make for `amount_in` in the given hop, or why none is made.
    pub open spec fn swap(
        &self,
        amount_in: u64,
        offset: usize,
        hop_accounts: HopAccounts,
        hop: usize,
        proxy_swap: bool,
    ) -> Result<InvocationView, Error> {
        if self.dex_program_id.key != address(WHIRLPOOL_PROGRAM) {
            Err(Error::Router(ErrorCode::InvalidProgramId))
        } else {
            match before_check_error(
                self.swap_authority_pubkey,
                self.swap_source_token.info.key,
                self.swap_destination_token.info.key,
                hop_accounts,
                hop,
                proxy_swap,
            ) {
                Some(e) => Err(e),
                None => {
                    match direction(
                        self.swap_source_token.mint,
                        self.swap_destination_token.mint,
                        self.token_vault_a.mint,
                        self.token_vault_b.mint,
                    ) {
                        None => Err(Error::Router(ErrorCode::InvalidTokenMint)),
                        Some(a_to_b) => {
                            let sqrt_price_limit: u128 = if a_to_b {
                            MIN_SQRT_PRICE
                        } else {
                            MAX_SQRT_PRICE
                        };
                            prepared(
                                &WhirlpoolProcessor,
                                self.swap_infos(offset, a_to_b),
                                self.swap_source_token.info.key,
                                self.swap_destination_token,
                                (offset + 3) as usize,
                                InstructionView {
                                    program_id: self.dex_program_id.key,
                                    accounts: self.swap_metas(a_to_b),
                                    data: swap_data(
                                        amount_in,
                                        1u64,
                                        sqrt_price_limit,
                                        true,
                                        a_to_b,
                                    ),
                                },
                                hop,
                                offset,
                                ACCOUNTS_LEN,
                                proxy_swap,
                            )
                        },
                    }
                },
            }
        }
    }
}

impl<'info> WhirlpoolV2Accounts<'info> {
    /// The accounts of the venue's instruction, in the order the venue wants them.
    pub open spec fn swap_v2_metas(&self, a_to_b: bool) -> Seq<AccountMeta> {
        seq![
            readonly(self.token_program_a.info.key, false),
            readonly(self.token_program_b.info.key, false),
            readonly(self.memo_program.key, false),
            readonly(self.swap_authority_pubkey.key, true),
            writable(self.whirlpool.key, false),
            readonly(self.token_mint_a.info.key, false),
            readonly(self.token_mint_b.info.key, false),
            writable(
                if a_to_b {
                    self.swap_source_token.info.key
                } else {
                    self.swap_destination_token.info.key
                },
                false,
            ),
            writable(self.token_vault_a.info.key, false),
            writable(
                if a_to_b {
                    self.swap_destination_token.info.key
                } else {
                    self.swap_source_token.info.key
                },
                false,
            ),
            writable(self.token_vault_b.info.key, false),
            writable(self.tick_array0.key, false),
            writable(self.tick_array1.key, false),
            writable(self.tick_array2.key, false),
            writable(self.oracle.key, false),
        ]
    }

    /// The accounts handed to the call.
    pub open spec fn swap_v2_infos(&self, offset: usize, a_to_b: bool) -> Seq<AccountRef> {
        seq![
            account_ref(self.token_program_a.info.key, offset, 4),
            account_ref(self.token_program_b.info.key, offset, 5),
            account_ref(self.memo_program.key, offset, 6),
            account_ref(self.swap_authority_pubkey.key, offset, 1),
            account_ref(self.whirlpool.key, offset, 7),
            account_ref(self.token_mint_a.info.key, offset, 8),
            account_ref(self.token_mint_b.info.key, offset, 9),
            if a_to_b {
                account_ref(self.swap_source_token.info.key, offset, 2)
            } else {
                account_ref(self.swap_destination_token.info.key, offset, 3)
            },
            account_ref(self.token_vault_a.info.key, offset, 10),
            if a_to_b {
                account_ref(self.swap_destination_token.info.key, offset, 3)
            } else {
                account_ref(self.swap_source_token.info.key, offset, 2)
            },
            account_ref(self.token_vault_b.info.key, offset, 11),
            account_ref(self.tick_array0.key, offset, 12),
            account_ref(self.tick_array1.key, offset, 13),
            account_ref(self.tick_array2.key, offset, 14),
            account_ref(self.oracle.key, offset, 15),
        ]
    }

    /// The call these accounts make for `amount_in` in the given hop, or why none is made.
    pub open spec fn swap_v2(
        &self,
        amount_in: u64,
        offset: usize,
        hop_accounts: HopAccounts,
        hop: usize,
        proxy_swap: bool,
    ) -> Result<InvocationView, Error> {
        if self.dex_program_id.key != address(WHIRLPOOL_PROGRAM) {
            Err(Error::Router(ErrorCode::InvalidProgramId))
        } else {
            match before_check_error(
                self.swap_authority_pubkey,
                self.swap_source_token.info.key,
                self.swap_destination_token.info.key,
                hop_accounts,
                hop,
                proxy_swap,
            ) {
                Some(e) => Err(e),
                None => {
                    match direction(
                        self.swap_source_token.mint,
                        self.swap_destination_token.mint,
                        self.token_vault_a.mint,
                        self.token_vault_b.mint,
                    ) {
                        None => Err(Error::Router(ErrorCode::InvalidTokenMint)),
                        Some(a_to_b) => {
                            let sqrt_price_limit: u128 = if a_to_b {
                            MIN_SQRT_PRICE
                        } else {
                            MAX_SQRT_PRICE
                        };
                            prepared(
                                &WhirlpoolProcessor,
                                self.swap_v2_infos(offset, a_to_b),
                                self.swap_source_token.info.key,
                                self.swap_destination_token,
                                (offset + 3) as usize,
                                InstructionView {
                                    program_id: self.dex_program_id.key,
                                    accounts: self.swap_v2_metas(a_to_b),
                                    data: swap_v2_data(
                                        amount_in,
                                        1u64,
                                        sqrt_price_limit,
                                        true,
                                        a_to_b,
                                    ),
                                },
                                hop,
                                offset,
                                ACCOUNTS_V2_LEN,
                                proxy_swap,
                            )
                        },
                    }
                },
            }
        }
    }
}

/// What `swap` makes of the accounts at the cursor: the call, or the reason why none is made.
/// It reads no account outside the venue's part of the list.
pub open spec fn swap_call(
    remaining_accounts: Seq<AccountInfo>,
    amount_in: u64,
    offset: usize,
    hop_accounts: HopAccounts,
    hop: usize,
    proxy_swap: bool,
) -> Result<InvocationView, Error> {
    if remaining_accounts.len() < offset + ACCOUNTS_LEN {
        Err(Error::Router(ErrorCode::InvalidAccountsLength))
    } else {
        match WhirlpoolAccounts::parsed(
            remaining_accounts.subrange(offset as int, offset + ACCOUNTS_LEN),
        ) {
            Err(e) => Err(e),
            Ok(swap_accounts) => swap_accounts.swap(
                amount_in,
                offset,
                hop_accounts,
                hop,
                proxy_swap,
            ),
        }
    }
}

/// What `swap` makes of the venue's accounts once they are read.
pub fn handle_swap(
    swap_accounts: &WhirlpoolAccounts,
    amount_in: u64,
    offset: usize,
    hop_accounts: &HopAccounts,
    hop: usize,
    proxy_swap: bool,
) -> (r: Result<Invocation, Error>)
    requires
        offset + ACCOUNTS_LEN <= usize::MAX,
    ensures
        yields(r, swap_accounts.swap(amount_in, offset, *hop_accounts, hop, proxy_swap)),
{
    if !swap_accounts.dex_program_id.key.is(WHIRLPOOL_PROGRAM) {
        return Err(Error::Router(ErrorCode::InvalidProgramId));
    }

    // check hop accounts & swap authority
    let swap_source_token = swap_accounts.swap_source_token.key();
    let swap_destination_token = swap_accounts.swap_destination_token.key();
    before_check(
        swap_accounts.swap_authority_pubkey,
        swap_source_token,
        swap_destination_token,
        hop_accounts,
        hop,
        proxy_swap,
    )?;

    let a_to_b: bool = match find_direction(
        swap_accounts.swap_source_token.mint,
        swap_accounts.swap_destination_token.mint,
        swap_accounts.token_vault_a.mint,
        swap_accounts.token_vault_b.mint,
    ) {
        Some(a_to_b) => a_to_b,
        None => {
            return Err(Error::Router(ErrorCode::InvalidTokenMint));
        },
    };
    let sqrt_price_limit: u128 = if a_to_b {
        MIN_SQRT_PRICE
    } else {
        MAX_SQRT_PRICE
    };
    let data = pack_swap_instruction(amount_in, 1u64, sqrt_price_limit, true, a_to_b);

    let accounts = vec![
        AccountMeta::new_readonly(swap_accounts.token_program.info.key, false),
        AccountMeta::new_readonly(swap_accounts.swap_authority_pubkey.key, true),
        AccountMeta::new(swap_accounts.whirlpool.key, false),
        AccountMeta::new(
            if a_to_b {
                swap_accounts.swap_source_token.info.key
            } else {
                swap_accounts.swap_destination_token.info.key
            },
            false,
        ),
        AccountMeta::new(swap_accounts.token_vault_a.info.key, false),
        AccountMeta::new(
            if a_to_b {
                swap_accounts.swap_destination_token.info.key
            } else {
                swap_accounts.swap_source_token.info.key
            },
            false,
        ),
        AccountMeta::new(swap_accounts.token_vault_b.info.key, false),
        AccountMeta::new(swap_accounts.tick_array0.key, false),
        AccountMeta::new(swap_accounts.tick_array1.key, false),
        AccountMeta::new(swap_accounts.tick_array2.key, false),
        AccountMeta::new_readonly(swap_accounts.oracle.key, false),
    ];

    let account_infos = vec![
        AccountRef { place: offset + 4, key: swap_accounts.token_program.info.key },
        AccountRef { place: offset + 1, key: swap_accounts.swap_authority_pubkey.key },
        AccountRef { place: offset + 5, key: swap_accounts.whirlpool.key },
        if a_to_b {
            AccountRef { place: offset + 2, key: swap_accounts.swap_source_token.info.key }
        } else {
            AccountRef { place: offset + 3, key: swap_accounts.swap_destination_token.info.key }
        },
        AccountRef { place: offset + 6, key: swap_accounts.token_vault_a.info.key },
        if a_to_b {
            AccountRef { place: offset + 3, key: swap_accounts.swap_destination_token.info.key }
        } else {
            AccountRef { place: offset + 2, key: swap_accounts.swap_source_token.info.key }
        },
        AccountRef { place: offset + 7, key: swap_accounts.token_vault_b.info.key },
        AccountRef { place: offset + 8, key: swap_accounts.tick_array0.key },
        AccountRef { place: offset + 9, key: swap_accounts.tick_array1.key },
        AccountRef { place: offset + 10, key: swap_accounts.tick_array2.key },
        AccountRef { place: offset + 11, key: swap_accounts.oracle.key },
    ];
    proof {
        assert(accounts@ =~= swap_accounts.swap_metas(a_to_b));
        assert(account_infos@ =~= swap_accounts.swap_infos(offset, a_to_b));
    }

    let instruction = Instruction {
        program_id: swap_accounts.dex_program_id.key,
        accounts,
        data,
    };

    invoke_process(
        &WhirlpoolProcessor,
        account_infos,
        swap_source_token,
        &swap_accounts.swap_destination_token,
        offset + 3,
        instruction,
        hop,
        offset,
        ACCOUNTS_LEN,
        proxy_swap,
    )
}

/// Prepares an exchange on a whirlpool. The mints of the user's accounts give the direction;
/// the price may run to the lowest square-root price the venue supports where the first asset
/// is sold, and to the highest where the second is.
pub fn swap<'info>(
    remaining_accounts: &'info [AccountInfo],
    amount_in: u64,
    offset: usize,
    hop_accounts: &HopAccounts,
    hop: usize,
    proxy_swap: bool,
) -> (r: Result<Invocation, Error>)
    ensures
        yields(
            r,
            swap_call(remaining_accounts@, amount_in, offset, *hop_accounts, hop, proxy_swap),
        ),
{
    if remaining_accounts.len() < ACCOUNTS_LEN || offset > remaining_accounts.len()
        - ACCOUNTS_LEN {
        return Err(Error::Router(ErrorCode::InvalidAccountsLength));
    }
    let swap_accounts = WhirlpoolAccounts::parse_accounts(remaining_accounts, offset)?;
    handle_swap(&swap_accounts, amount_in, offset, hop_accounts, hop, proxy_swap)
}

/// Every call that `swap` hands out continues the hop chain, draws on the venue's own
/// accounts, and leaves the cursor right behind them.
pub proof fn lemma_swap_call(
    remaining_accounts: Seq<AccountInfo>,
    amount_in: u64,
    offset: usize,
    hop_accounts: HopAccounts,
    hop: usize,
    proxy_swap: bool,
)
    requires
        remaining_accounts.len() <= usize::MAX,
    ensures
        swap_call(
            remaining_accounts,
            amount_in,
            offset,
            hop_accounts,
            hop,
            proxy_swap,
        ) matches Ok(invocation) ==> {
            &&& continuity_error(
                invocation.swap_source_token,
                invocation.swap_destination_token,
                hop_accounts,
            ) is None
            &&& invocation.next_offset == offset + ACCOUNTS_LEN
            &&& invocation.next_offset <= remaining_accounts.len()
            &&& offset <= invocation.destination < invocation.next_offset
        },
{
}

/// A call that `swap` hands out is made of the venue's part of the account list alone:
/// any list with the same accounts in that part gives the same call.
pub proof fn lemma_swap_call_local(
    first: Seq<AccountInfo>,
    second: Seq<AccountInfo>,
    amount_in: u64,
    offset: usize,
    hop_accounts: HopAccounts,
    hop: usize,
    proxy_swap: bool,
)
    requires
        first.len() <= usize::MAX,
        swap_call(
            first,
            amount_in,
            offset,
            hop_accounts,
            hop,
            proxy_swap,
        ) matches Ok(invocation) && second.len()
            >= invocation.next_offset && first.subrange(
            offset as int,
            invocation.next_offset as int,
        ) == second.subrange(offset as int, invocation.next_offset as int),
    ensures
        swap_call(
            second,
            amount_in,
            offset,
            hop_accounts,
            hop,
            proxy_swap,
        ) == swap_call(first, amount_in, offset, hop_accounts, hop, proxy_swap),
{
}

/// What `swap` makes of the accounts depends on what they hold and on nothing else: two
/// lists of accounts that hold the same give the same call, or the same failure.
pub proof fn lemma_swap_call_same(
    first: Seq<AccountInfo>,
    second: Seq<AccountInfo>,
    amount_in: u64,
    offset: usize,
    hop_accounts: HopAccounts,
    hop: usize,
    proxy_swap: bool,
)
    requires
        same_accounts(first, second),
    ensures
        swap_call(
            second,
            amount_in,
            offset,
            hop_accounts,
            hop,
            proxy_swap,
        ) == swap_call(first, amount_in, offset, hop_accounts, hop, proxy_swap),
{
    if first.len() >= offset + ACCOUNTS_LEN {
        let taken = offset + ACCOUNTS_LEN;
        let ours = first.subrange(offset as int, taken);
        let theirs = second.subrange(offset as int, taken);
        assert forall|i: int| 0 <= i < ACCOUNTS_LEN implies same_account(
            &#[trigger] ours[i],
            &theirs[i],
        ) by {
            assert(same_account(&first[offset + i], &second[offset + i]));
        }
    }
}

/// `swap` holds a call to the hop chain before it looks at anything else that the chain
/// bears on. A call that it would hand out at the start of a chain is handed out
/// unchanged where it continues the chain it is given, and is refused for the break
/// where it does not.
pub proof fn lemma_swap_call_chained(
    remaining_accounts: Seq<AccountInfo>,
    amount_in: u64,
    offset: usize,
    hop_accounts: HopAccounts,
    hop: usize,
    proxy_swap: bool,
)
    ensures
        swap_call(
            remaining_accounts,
            amount_in,
            offset,
            HopAccounts::fresh(address(ZERO_ADDRESS)),
            hop,
            proxy_swap,
        ) matches Ok(invocation) ==> swap_call(
            remaining_accounts,
            amount_in,
            offset,
            hop_accounts,
            hop,
            proxy_swap,
        ) == chained(invocation, hop_accounts),
{
}

/// What `swap_v2` makes of the accounts at the cursor: the call, or the reason why none is
/// made. It reads no account outside the venue's part of the list.
pub open spec fn swap_v2_call(
    remaining_accounts: Seq<AccountInfo>,
    amount_in: u64,
    offset: usize,
    hop_accounts: HopAccounts,
    hop: usize,
    proxy_swap: bool,
) -> Result<InvocationView, Error> {
    if remaining_accounts.len() < offset + ACCOUNTS_V2_LEN {
        Err(Error::Router(ErrorCode::InvalidAccountsLength))
    } else {
        match WhirlpoolV2Accounts::parsed(
            remaining_accounts.subrange(offset as int, offset + ACCOUNTS_V2_LEN),
        ) {
            Err(e) => Err(e),
            Ok(swap_accounts) => swap_accounts.swap_v2(
                amount_in,
                offset,
                hop_accounts,
                hop,
                proxy_swap,
            ),
        }
    }
}

/// What `swap_v2` makes of the venue's accounts once they are read.
pub fn handle_swap_v2(
    swap_accounts: &WhirlpoolV2Accounts,
    amount_in: u64,
    offset: usize,
    hop_accounts: &HopAccounts,
    hop: usize,
    proxy_swap: bool,
) -> (r: Result<Invocation, Error>)
    requires
        offset + ACCOUNTS_V2_LEN <= usize::MAX,
    ensures
        yields(r, swap_accounts.swap_v2(amount_in, offset, *hop_accounts, hop, proxy_swap)),
{
    if !swap_accounts.dex_program_id.key.is(WHIRLPOOL_PROGRAM) {
        return Err(Error::Router(ErrorCode::InvalidProgramId));
    }

    // check hop accounts & swap authority
    let swap_source_token = swap_accounts.swap_source_token.key();
    let swap_destination_token = swap_accounts.swap_destination_token.key();
    before_check(
        swap_accounts.swap_authority_pubkey,
        swap_source_token,
        swap_destination_token,
        hop_accounts,
        hop,
        proxy_swap,
    )?;

    let a_to_b: bool = match find_direction(
        swap_accounts.swap_source_token.mint,
        swap_accounts.swap_destination_token.mint,
        swap_accounts.token_vault_a.mint,
        swap_accounts.token_vault_b.mint,
    ) {
        Some(a_to_b) => a_to_b,
        None => {
            return Err(Error::Router(ErrorCode::InvalidTokenMint));
        },
    };
    let sqrt_price_limit: u128 = if a_to_b {
        MIN_SQRT_PRICE
    } else {
        MAX_SQRT_PRICE
    };
    let data = pack_swap_v2_instruction(amount_in, 1u64, sqrt_price_limit, true, a_to_b);

    let accounts = vec![
        AccountMeta::new_readonly(swap_accounts.token_program_a.info.key, false),
        AccountMeta::new_readonly(swap_accounts.token_program_b.info.key, false),
        AccountMeta::new_readonly(swap_accounts.memo_program.key, false),
        AccountMeta::new_readonly(swap_accounts.swap_authority_pubkey.key, true),
        AccountMeta::new(swap_accounts.whirlpool.key, false),
        AccountMeta::new_readonly(swap_accounts.token_mint_a.info.key, false),
        AccountMeta::new_readonly(swap_accounts.token_mint_b.info.key, false),
        AccountMeta::new(
            if a_to_b {
                swap_accounts.swap_source_token.info.key
            } else {
                swap_accounts.swap_destination_token.info.key
            },
            false,
        ),
        AccountMeta::new(swap_accounts.token_vault_a.info.key, false),
        AccountMeta::new(
            if a_to_b {
                swap_accounts.swap_destination_token.info.key
            } else {
                swap_accounts.swap_source_token.info.key
            },
            false,
        ),
        AccountMeta::new(swap_accounts.token_vault_b.info.key, false),
        AccountMeta::new(swap_accounts.tick_array0.key, false),
        AccountMeta::new(swap_accounts.tick_array1.key, false),
        AccountMeta::new(swap_accounts.tick_array2.key, false),
        AccountMeta::new(swap_accounts.oracle.key, false),
    ];

    let account_infos = vec![
        AccountRef { place: offset + 4, key: swap_accounts.token_program_a.info.key },
        AccountRef { place: offset + 5, key: swap_accounts.token_program_b.info.key },
        AccountRef { place: offset + 6, key: swap_accounts.memo_program.key },
        AccountRef { place: offset + 1, key: swap_accounts.swap_authority_pubkey.key },
        AccountRef { place: offset + 7, key: swap_accounts.whirlpool.key },
        AccountRef { place: offset + 8, key: swap_accounts.token_mint_a.info.key },
        AccountRef { place: offset + 9, key: swap_accounts.token_mint_b.info.key },
        if a_to_b {
            AccountRef { place: offset + 2, key: swap_accounts.swap_source_token.info.key }
        } else {
            AccountRef { place: offset + 3, key: swap_accounts.swap_destination_token.info.key }
        },
        AccountRef { place: offset + 10, key: swap_accounts.token_vault_a.info.key },
        if a_to_b {
            AccountRef { place: offset + 3, key: swap_accounts.swap_destination_token.info.key }
        } else {
            AccountRef { place: offset + 2, key: swap_accounts.swap_source_token.info.key }
        },
        AccountRef { place: offset + 11, key: swap_accounts.token_vault_b.info.key },
        AccountRef { place: offset + 12, key: swap_accounts.tick_array0.key },
        AccountRef { place: offset + 13, key: swap_accounts.tick_array1.key },
        AccountRef { place: offset + 14, key: swap_accounts.tick_array2.key },
        AccountRef { place: offset + 15, key: swap_accounts.oracle.key },
    ];
    proof {
        assert(accounts@ =~= swap_accounts.swap_v2_metas(a_to_b));
        assert(account_infos@ =~= swap_accounts.swap_v2_infos(offset, a_to_b));
    }

    let instruction = Instruction {
        program_id: swap_accounts.dex_program_id.key,
        accounts,
        data,
    };

    invoke_process(
        &WhirlpoolProcessor,
        account_infos,
        swap_source_token,
        &swap_accounts.swap_destination_token,
        offset + 3,
        instruction,
        hop,
        offset,
        ACCOUNTS_V2_LEN,
        proxy_swap,
    )
}

/// Prepares an exchange on a whirlpool of either token program. The mints of the user's
/// accounts give the direction; the price may run to the lowest square-root price the venue
/// supports where the first asset is sold, and to the highest where the second is.
pub fn swap_v2<'info>(
    remaining_accounts: &'info [AccountInfo],
    amount_in: u64,
    offset: usize,
    hop_accounts: &HopAccounts,
    hop: usize,
    proxy_swap: bool,
) -> (r: Result<Invocation, Error>)
    ensures
        yields(
            r,
            swap_v2_call(remaining_accounts@, amount_in, offset, *hop_accounts, hop, proxy_swap),
        ),
{
    if remaining_accounts.len() < ACCOUNTS_V2_LEN || offset > remaining_accounts.len()
        - ACCOUNTS_V2_LEN {
        return Err(Error::Router(ErrorCode::InvalidAccountsLength));
    }
    let swap_accounts = WhirlpoolV2Accounts::parse_accounts(remaining_accounts, offset)?;
    handle_swap_v2(&swap_accounts, amount_in, offset, hop_accounts, hop, proxy_swap)
}

/// Every call that `swap_v2` hands out continues the hop chain, draws on the venue's own
/// accounts, and leaves the cursor right behind them.
pub proof fn lemma_swap_v2_call(
    remaining_accounts: Seq<AccountInfo>,
    amount_in: u64,
    offset: usize,
    hop_accounts: HopAccounts,
    hop: usize,
    proxy_swap: bool,
)
    requires
        remaining_accounts.len() <= usize::MAX,
    ensures
        swap_v2_call(
            remaining_accounts,
            amount_in,
            offset,
            hop_accounts,
            hop,
            proxy_swap,
        ) matches Ok(invocation) ==> {
            &&& continuity_error(
                invocation.swap_source_token,
                invocation.swap_destination_token,
                hop_accounts,
            ) is None
            &&& invocation.next_offset == offset + ACCOUNTS_V2_LEN
            &&& invocation.next_offset <= remaining_accounts.len()
            &&& offset <= invocation.destination < invocation.next_offset
        },
{
}

/// A call that `swap_v2` hands out is made of the venue's part of the account list alone:
/// any list with the same accounts in that part gives the same call.
pub proof fn lemma_swap_v2_call_local(
    first: Seq<AccountInfo>,
    second: Seq<AccountInfo>,
    amount_in: u64,
    offset: usize,
    hop_accounts: HopAccounts,
    hop: usize,
    proxy_swap: bool,
)
    requires
        first.len() <= usize::MAX,
        swap_v2_call(
            first,
            amount_in,
            offset,
            hop_accounts,
            hop,
            proxy_swap,
        ) matches Ok(invocation) && second.len()
            >= invocation.next_offset && first.subrange(
            offset as int,
            invocation.next_offset as int,
        ) == second.subrange(offset as int, invocation.next_offset as int),
    ensures
        swap_v2_call(
            second,
            amount_in,
            offset,
            hop_accounts,
            hop,
            proxy_swap,
        ) == swap_v2_call(first, amount_in, offset, hop_accounts, hop, proxy_swap),
{
}

/// What `swap_v2` makes of the accounts depends on what they hold and on nothing else: two
/// lists of accounts that hold the same give the same call, or the same failure.
pub proof fn lemma_swap_v2_call_same(
    first: Seq<AccountInfo>,
    second: Seq<AccountInfo>,
    amount_in: u64,
    offset: usize,
    hop_accounts: HopAccounts,
    hop: usize,
    proxy_swap: bool,
)
    requires
        same_accounts(first, second),
    ensures
        swap_v2_call(
            second,
            amount_in,
            offset,
            hop_accounts,
            hop,
            proxy_swap,
        ) == swap_v2_call(first, amount_in, offset, hop_accounts, hop, proxy_swap),
{
    if first.len() >= offset + ACCOUNTS_V2_LEN {
        let taken = offset + ACCOUNTS_V2_LEN;
        let ours = first.subrange(offset as int, taken);
        let theirs = second.subrange(offset as int, taken);
        assert forall|i: int| 0 <= i < ACCOUNTS_V2_LEN implies same_account(
            &#[trigger] ours[i],
            &theirs[i],
        ) by {
            assert(same_account(&first[offset + i], &second[offset + i]));
        }
    }
}

/// `swap_v2` holds a call to the hop chain before it looks at anything else that the chain
/// bears on. A call that it would hand out at the start of a chain is handed out
/// unchanged where it continues the chain it is given, and is refused for the break
/// where it does not.
pub proof fn lemma_swap_v2_call_chained(
    remaining_accounts: Seq<AccountInfo>,
    amount_in: u64,
    offset: usize,
    hop_accounts: HopAccounts,
    hop: usize,
    proxy_swap: bool,
)
    ensures
        swap_v2_call(
            remaining_accounts,
            amount_in,
            offset,
            HopAccounts::fresh(address(ZERO_ADDRESS)),
            hop,
            proxy_swap,
        ) matches Ok(invocation) ==> swap_v2_call(
            remaining_accounts,
            amount_in,
            offset,
            hop_accounts,
            hop,
            proxy_swap,
        ) == chained(invocation, hop_accounts),
{
}

} // verus!
