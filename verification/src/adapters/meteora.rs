//! Meteora's dynamic pools and liquidity-bin pools.

use crate::account::{
    address, readonly, writable, AccountInfo, AccountMeta, Instruction, InstructionView, Mint,
    Program, ProgramKind, TokenAccount,
};
use crate::adapters::common::{
    account_ref, before_check, before_check_error, chained, continuity_error, invoke_process,
    no_call, no_calls, optional_meta, optional_ref, prepared, same_account, same_accounts, yields,
    AccountRef, Call, CallView, DexProcessor, Invocation, InvocationView,
};
use crate::bytes::{le_bytes, push_le};
use crate::constants::{
    METEORA_DLMM_PROGRAM, METEORA_DYNAMICPOOL_PROGRAM, SWAP_SELECTOR, ZERO_ADDRESS,
};
use crate::error::{Error, ErrorCode};
use crate::instructions::common::HopAccounts;
use vstd::prelude::*;

verus! {

/// Length of the venue's instruction payload.
pub const ARGS_LEN: usize = 24;

/// Number of accounts the venue takes from the flat account list.
pub const ACCOUNTS_LEN: usize = 16;

/// Number of accounts a liquidity-bin pool takes from the flat account list.
pub const DLMM_ACCOUNTS_LEN: usize = 18;

/// Meteora's pools add nothing around their call.
pub struct MeteoraDynamicPoolProcessor;

impl DexProcessor for MeteoraDynamicPoolProcessor {
    open spec fn calls_before(
        &self,
        account_infos: Seq<AccountRef>,
    ) -> Result<Seq<CallView>, Error> {
        no_calls()
    }

    open spec fn calls_after(
        &self,
        account_infos: Seq<AccountRef>,
    ) -> Result<Seq<CallView>, Error> {
        no_calls()
    }

    fn before_invoke(&self, account_infos: &Vec<AccountRef>) -> (r: Result<Vec<Call>, Error>) {
        no_call()
    }

    fn after_invoke(&self, account_infos: &Vec<AccountRef>) -> (r: Result<Vec<Call>, Error>) {
        no_call()
    }
}

/// The accounts of one exchange on a dynamic pool.
#[derive(Clone, Copy, Debug)]
pub struct MeteoraDynamicPoolAccounts<'info> {
    pub dex_program_id: &'info AccountInfo,
    pub swap_authority_pubkey: &'info AccountInfo,
    pub swap_source_token: TokenAccount<'info>,
    pub swap_destination_token: TokenAccount<'info>,
    pub pool: &'info AccountInfo,
    pub a_vault: &'info AccountInfo,
    pub b_vault: &'info AccountInfo,
    pub a_token_vault: &'info AccountInfo,
    pub b_token_vault: &'info AccountInfo,
    pub a_vault_lp_mint: Mint<'info>,
    pub b_vault_lp_mint: Mint<'info>,
    pub a_vault_lp: TokenAccount<'info>,
    pub b_vault_lp: TokenAccount<'info>,
    pub admin_token_fee: &'info AccountInfo,
    pub vault_program: &'info AccountInfo,
    pub token_program: Program<'info>,
}

/// The accounts of one exchange on a liquidity-bin pool. The last two bin arrays are
/// optional: the address of zeros stands for none.
#[derive(Clone, Copy, Debug)]
pub struct MeteoraDlmmAccounts<'info> {
    pub dex_program_id: &'info AccountInfo,
    pub swap_authority_pubkey: &'info AccountInfo,
    pub swap_source_token: TokenAccount<'info>,
    pub swap_destination_token: TokenAccount<'info>,
    pub lb_pair: &'info AccountInfo,
    pub bin_array_bitmap_extension: &'info AccountInfo,
    pub reserve_x: TokenAccount<'info>,
    pub reserve_y: TokenAccount<'info>,
    pub token_x_mint: Mint<'info>,
    pub token_y_mint: Mint<'info>,
    pub oracle: &'info AccountInfo,
    pub host_fee_in: &'info AccountInfo,
    pub token_x_program: &'info AccountInfo,
    pub token_y_program: &'info AccountInfo,
    pub event_authority: &'info AccountInfo,
    pub bin_array0: &'info AccountInfo,
    pub bin_array1: &'info AccountInfo,
    pub bin_array2: &'info AccountInfo,
}

impl<'info> MeteoraDynamicPoolAccounts<'info> {
    /// The accounts of `slice`, the venue's part of the flat list, each read as what its
    /// place asks for; or the failure of the first that is not that.
    pub open spec fn parsed(
        slice: Seq<AccountInfo>,
    ) -> Result<MeteoraDynamicPoolAccounts<'info>, Error> {
        let swap_source_token = TokenAccount::parsed(&slice[2]);
        let swap_destination_token = TokenAccount::parsed(&slice[3]);
        let a_vault_lp_mint = Mint::parsed(&slice[9]);
        let b_vault_lp_mint = Mint::parsed(&slice[10]);
        let a_vault_lp = TokenAccount::parsed(&slice[11]);
        let b_vault_lp = TokenAccount::parsed(&slice[12]);
        let token_program = Program::parsed(&slice[15], ProgramKind::Token);
        if swap_source_token is Err {
            Err(swap_source_token->Err_0)
        } else if swap_destination_token is Err {
            Err(swap_destination_token->Err_0)
        } else if a_vault_lp_mint is Err {
            Err(a_vault_lp_mint->Err_0)
        } else if b_vault_lp_mint is Err {
            Err(b_vault_lp_mint->Err_0)
        } else if a_vault_lp is Err {
            Err(a_vault_lp->Err_0)
        } else if b_vault_lp is Err {
            Err(b_vault_lp->Err_0)
        } else if token_program is Err {
            Err(token_program->Err_0)
        } else {
            Ok(
                MeteoraDynamicPoolAccounts {
                    dex_program_id: &slice[0],
                    swap_authority_pubkey: &slice[1],
                    swap_source_token: swap_source_token->Ok_0,
                    swap_destination_token: swap_destination_token->Ok_0,
                    pool: &slice[4],
                    a_vault: &slice[5],
                    b_vault: &slice[6],
                    a_token_vault: &slice[7],
                    b_token_vault: &slice[8],
                    a_vault_lp_mint: a_vault_lp_mint->Ok_0,
                    b_vault_lp_mint: b_vault_lp_mint->Ok_0,
                    a_vault_lp: a_vault_lp->Ok_0,
                    b_vault_lp: b_vault_lp->Ok_0,
                    admin_token_fee: &slice[13],
                    vault_program: &slice[14],
                    token_program: token_program->Ok_0,
                },
            )
        }
    }

    fn parse_accounts(accounts: &'info [AccountInfo], offset: usize) -> (r: Result<
        MeteoraDynamicPoolAccounts<'info>,
        Error,
    >)
        requires
            offset + ACCOUNTS_LEN <= accounts@.len(),
        ensures
            r == Self::parsed(accounts@.subrange(offset as int, offset + ACCOUNTS_LEN)),
    {
        Ok(
            MeteoraDynamicPoolAccounts {
                dex_program_id: &accounts[offset],
                swap_authority_pubkey: &accounts[offset + 1],
                swap_source_token: TokenAccount::try_from(&accounts[offset + 2])?,
                swap_destination_token: TokenAccount::try_from(&accounts[offset + 3])?,
                pool: &accounts[offset + 4],
                a_vault: &accounts[offset + 5],
                b_vault: &accounts[offset + 6],
                a_token_vault: &accounts[offset + 7],
                b_token_vault: &accounts[offset + 8],
                a_vault_lp_mint: Mint::try_from(&accounts[offset + 9])?,
                b_vault_lp_mint: Mint::try_from(&accounts[offset + 10])?,
                a_vault_lp: TokenAccount::try_from(&accounts[offset + 11])?,
                b_vault_lp: TokenAccount::try_from(&accounts[offset + 12])?,
                admin_token_fee: &accounts[offset + 13],
                vault_program: &accounts[offset + 14],
                token_program: Program::try_from(&accounts[offset + 15], ProgramKind::Token)?,
            },
        )
    }
}

impl<'info> MeteoraDlmmAccounts<'info> {
    /// The accounts of `slice`, the venue's part of the flat list, each read as what its
    /// place asks for; or the failure of the first that is not that.
    pub open spec fn parsed(slice: Seq<AccountInfo>) -> Result<MeteoraDlmmAccounts<'info>, Error> {
        let swap_source_token = TokenAccount::parsed(&slice[2]);
        let swap_destination_token = TokenAccount::parsed(&slice[3]);
        let reserve_x = TokenAccount::parsed(&slice[6]);
        let reserve_y = TokenAccount::parsed(&slice[7]);
        let token_x_mint = Mint::parsed(&slice[8]);
        let token_y_mint = Mint::parsed(&slice[9]);
        if swap_source_token is Err {
            Err(swap_source_token->Err_0)
        } else if swap_destination_token is Err {
            Err(swap_destination_token->Err_0)
        } else if reserve_x is Err {
            Err(reserve_x->Err_0)
        } else if reserve_y is Err {
            Err(reserve_y->Err_0)
        } else if token_x_mint is Err {
            Err(token_x_mint->Err_0)
        } else if token_y_mint is Err {
            Err(token_y_mint->Err_0)
        } else {
            Ok(
                MeteoraDlmmAccounts {
                    dex_program_id: &slice[0],
                    swap_authority_pubkey: &slice[1],
                    swap_source_token: swap_source_token->Ok_0,
                    swap_destination_token: swap_destination_token->Ok_0,
                    lb_pair: &slice[4],
                    bin_array_bitmap_extension: &slice[5],
                    reserve_x: reserve_x->Ok_0,
                    reserve_y: reserve_y->Ok_0,
                    token_x_mint: token_x_mint->Ok_0,
                    token_y_mint: token_y_mint->Ok_0,
                    oracle: &slice[10],
                    host_fee_in: &slice[11],
                    token_x_program: &slice[12],
                    token_y_program: &slice[13],
                    event_authority: &slice[14],
                    bin_array0: &slice[15],
                    bin_array1: &slice[16],
                    bin_array2: &slice[17],
                },
            )
        }
    }

    fn parse_accounts(accounts: &'info [AccountInfo], offset: usize) -> (r: Result<
        MeteoraDlmmAccounts<'info>,
        Error,
    >)
        requires
            offset + DLMM_ACCOUNTS_LEN <= accounts@.len(),
        ensures
            r == Self::parsed(accounts@.subrange(offset as int, offset + DLMM_ACCOUNTS_LEN)),
    {
        Ok(
            MeteoraDlmmAccounts {
                dex_program_id: &accounts[offset],
                swap_authority_pubkey: &accounts[offset + 1],
                swap_source_token: TokenAccount::try_from(&accounts[offset + 2])?,
                swap_destination_token: TokenAccount::try_from(&accounts[offset + 3])?,
                lb_pair: &accounts[offset + 4],
                bin_array_bitmap_extension: &accounts[offset + 5],
                reserve_x: TokenAccount::try_from(&accounts[offset + 6])?,
                reserve_y: TokenAccount::try_from(&accounts[offset + 7])?,
                token_x_mint: Mint::try_from(&accounts[offset + 8])?,
                token_y_mint: Mint::try_from(&accounts[offset + 9])?,
                oracle: &accounts[offset + 10],
                host_fee_in: &accounts[offset + 11],
                token_x_program: &accounts[offset + 12],
                token_y_program: &accounts[offset + 13],
                event_authority: &accounts[offset + 14],
                bin_array0: &accounts[offset + 15],
                bin_array1: &accounts[offset + 16],
                bin_array2: &accounts[offset + 17],
            },
        )
    }
}

/// The payload of an exchange: the selector of the instruction, the amount to sell and the
/// least amount to take for it.
pub open spec fn swap_data(amount_in: u64, minimum_amount_out: u64) -> Seq<u8> {
    SWAP_SELECTOR@ + le_bytes(amount_in as nat, 8) + le_bytes(minimum_amount_out as nat, 8)
}

/// The payload of an exchange: the selector of the instruction, the amount to sell and the
/// least amount to take for it.
pub fn pack_swap_instruction(amount_in: u64, minimum_amount_out: u64) -> (data: Vec<u8>)
    ensures
        data@ == swap_data(amount_in, minimum_amount_out),
        data@.len() == ARGS_LEN,
{
    let mut data: Vec<u8> = Vec::with_capacity(ARGS_LEN);
    data.extend_from_slice(&SWAP_SELECTOR);
    push_le(&mut data, amount_in as u128, 8);
    push_le(&mut data, minimum_amount_out as u128, 8);
    data
}

impl<'info> MeteoraDynamicPoolAccounts<'info> {
    /// The accounts of the venue's instruction, in the order the venue wants them.
    pub open spec fn swap_metas(&self) -> Seq<AccountMeta> {
        seq![
            writable(self.pool.key, false),
            writable(self.swap_source_token.info.key, false),
            writable(self.swap_destination_token.info.key, false),
            writable(self.a_vault.key, false),
            writable(self.b_vault.key, false),
            writable(self.a_token_vault.key, false),
            writable(self.b_token_vault.key, false),
            writable(self.a_vault_lp_mint.info.key, false),
            writable(self.b_vault_lp_mint.info.key, false),
            writable(self.a_vault_lp.info.key, false),
            writable(self.b_vault_lp.info.key, false),
            writable(self.admin_token_fee.key, false),
            readonly(self.swap_authority_pubkey.key, true),
            readonly(self.vault_program.key, false),
            readonly(self.token_program.info.key, false),
        ]
    }

    /// The accounts handed to the call.
    pub open spec fn swap_infos(&self, offset: usize) -> Seq<AccountRef> {
        seq![
            account_ref(self.pool.key, offset, 4),
            account_ref(self.swap_source_token.info.key, offset, 2),
            account_ref(self.swap_destination_token.info.key, offset, 3),
            account_ref(self.a_vault.key, offset, 5),
            account_ref(self.b_vault.key, offset, 6),
            account_ref(self.a_token_vault.key, offset, 7),
            account_ref(self.b_token_vault.key, offset, 8),
            account_ref(self.a_vault_lp_mint.info.key, offset, 9),
            account_ref(self.b_vault_lp_mint.info.key, offset, 10),
            account_ref(self.a_vault_lp.info.key, offset, 11),
            account_ref(self.b_vault_lp.info.key, offset, 12),
            account_ref(self.admin_token_fee.key, offset, 13),
            account_ref(self.swap_authority_pubkey.key, offset, 1),
            account_ref(self.vault_program.key, offset, 14),
            account_ref(self.token_program.info.key, offset, 15),
        ]
    }

    /// The call these accounts make for `amount_in` in the given hop, or why none is made.
    pub open spec fn swap(
        &self,
        amount_in: u64,
        offset: usize,
        hop_accounts: HopAccounts,
        hop: usize,
        proxy_swap: bool,
    ) -> Result<InvocationView, Error> {
        if self.dex_program_id.key != address(METEORA_DYNAMICPOOL_PROGRAM) {
            Err(Error::Router(ErrorCode::InvalidProgramId))
        } else {
            match before_check_error(
                self.swap_authority_pubkey,
                self.swap_source_token.info.key,
                self.swap_destination_token.info.key,
                hop_accounts,
                hop,
                proxy_swap,
            ) {
                Some(e) => Err(e),
                None => {
                    prepared(
                        &MeteoraDynamicPoolProcessor,
                        self.swap_infos(offset),
                        self.swap_source_token.info.key,
                        self.swap_destination_token,
                        (offset + 3) as usize,
                        InstructionView {
                            program_id: self.dex_program_id.key,
                            accounts: self.swap_metas(),
                            data: swap_data(amount_in, 1u64),
                        },
                        hop,
                        offset,
                        ACCOUNTS_LEN,
                        proxy_swap,
                    )
                },
            }
        }
    }
}

impl<'info> MeteoraDlmmAccounts<'info> {
    /// The accounts of the venue's instruction, in the order the venue wants them.
    pub open spec fn swap_dlmm_metas(&self) -> Seq<AccountMeta> {
        seq![
            writable(self.lb_pair.key, false),
            readonly(self.bin_array_bitmap_extension.key, false),
            writable(self.reserve_x.info.key, false),
            writable(self.reserve_y.info.key, false),
            writable(self.swap_source_token.info.key, false),
            writable(self.swap_destination_token.info.key, false),
            readonly(self.token_x_mint.info.key, false),
            readonly(self.token_y_mint.info.key, false),
            writable(self.oracle.key, false),
            writable(self.host_fee_in.key, false),
            readonly(self.swap_authority_pubkey.key, true),
            readonly(self.token_x_program.key, false),
            readonly(self.token_y_program.key, false),
            readonly(self.event_authority.key, false),
            readonly(self.dex_program_id.key, false),
            writable(self.bin_array0.key, false),
        ]
            + optional_meta(self.bin_array1.key)
            + optional_meta(self.bin_array2.key)
    }

    /// The accounts handed to the call.
    pub open spec fn swap_dlmm_infos(&self, offset: usize) -> Seq<AccountRef> {
        seq![
            account_ref(self.lb_pair.key, offset, 4),
            account_ref(self.bin_array_bitmap_extension.key, offset, 5),
            account_ref(self.reserve_x.info.key, offset, 6),
            account_ref(self.reserve_y.info.key, offset, 7),
            account_ref(self.swap_source_token.info.key, offset, 2),
            account_ref(self.swap_destination_token.info.key, offset, 3),
            account_ref(self.token_x_mint.info.key, offset, 8),
            account_ref(self.token_y_mint.info.key, offset, 9),
            account_ref(self.oracle.key, offset, 10),
            account_ref(self.host_fee_in.key, offset, 11),
            account_ref(self.swap_authority_pubkey.key, offset, 1),
            account_ref(self.token_x_program.key, offset, 12),
            account_ref(self.token_y_program.key, offset, 13),
            account_ref(self.event_authority.key, offset, 14),
            account_ref(self.dex_program_id.key, offset, 0),
            account_ref(self.bin_array0.key, offset, 15),
        ]
            + optional_ref(account_ref(self.bin_array1.key, offset, 16))
            + optional_ref(account_ref(self.bin_array2.key, offset, 17))
    }

    /// The call these accounts make for `amount_in` in the given hop, or why none is made.
    pub open spec fn swap_dlmm(
        &self,
        amount_in: u64,
        offset: usize,
        hop_accounts: HopAccounts,
        hop: usize,
        proxy_swap: bool,
    ) -> Result<InvocationView, Error> {
        if self.dex_program_id.key != address(METEORA_DLMM_PROGRAM) {
            Err(Error::Router(ErrorCode::InvalidProgramId))
        } else {
            match before_check_error(
                self.swap_authority_pubkey,
                self.swap_source_token.info.key,
                self.swap_destination_token.info.key,
                hop_accounts,
                hop,
                proxy_swap,
            ) {
                Some(e) => Err(e),
                None => {
                    prepared(
                        &MeteoraDynamicPoolProcessor,
                        self.swap_dlmm_infos(offset),
                        self.swap_source_token.info.key,
                        self.swap_destination_token,
                        (offset + 3) as usize,
                        InstructionView {
                            program_id: self.dex_program_id.key,
                            accounts: self.swap_dlmm_metas(),
                            data: swap_data(amount_in, 1u64),
                        },
                        hop,
                        offset,
                        DLMM_ACCOUNTS_LEN,
                        proxy_swap,
                    )
                },
            }
        }
    }
}

/// What `swap` makes of the accounts at the cursor: the call, or the reason why none is made.
/// It reads no account outside the venue's part of the list.
pub open spec fn swap_call(
    remaining_accounts: Seq<AccountInfo>,
    amount_in: u64,
    offset: usize,
    hop_accounts: HopAccounts,
    hop: usize,
    proxy_swap: bool,
) -> Result<InvocationView, Error> {
    if remaining_accounts.len() < offset + ACCOUNTS_LEN {
        Err(Error::Router(ErrorCode::InvalidAccountsLength))
    } else {
        match MeteoraDynamicPoolAccounts::parsed(
            remaining_accounts.subrange(offset as int, offset + ACCOUNTS_LEN),
        ) {
            Err(e) => Err(e),
            Ok(swap_accounts) => swap_accounts.swap(
                amount_in,
                offset,
                hop_accounts,
                hop,
                proxy_swap,
            ),
        }
    }
}

/// What `swap` makes of the venue's accounts once they are read.
pub fn handle_swap(
    swap_accounts: &MeteoraDynamicPoolAccounts,
    amount_in: u64,
    offset: usize,
    hop_accounts: &HopAccounts,
    hop: usize,
    proxy_swap: bool,
) -> (r: Result<Invocation, Error>)
    requires
        offset + ACCOUNTS_LEN <= usize::MAX,
    ensures
        yields(r, swap_accounts.swap(amount_in, offset, *hop_accounts, hop, proxy_swap)),
{
    if !swap_accounts.dex_program_id.key.is(METEORA_DYNAMICPOOL_PROGRAM) {
        return Err(Error::Router(ErrorCode::InvalidProgramId));
    }

    // check hop accounts & swap authority
    let swap_source_token = swap_accounts.swap_source_token.key();
    let swap_destination_token = swap_accounts.swap_destination_token.key();
    before_check(
        swap_accounts.swap_authority_pubkey,
        swap_source_token,
        swap_destination_token,
        hop_accounts,
        hop,
        proxy_swap,
    )?;

    let data = pack_swap_instruction(amount_in, 1u64);

    let accounts = vec![
        AccountMeta::new(swap_accounts.pool.key, false),
        AccountMeta::new(swap_accounts.swap_source_token.info.key, false),
        AccountMeta::new(swap_accounts.swap_destination_token.info.key, false),
        AccountMeta::new(swap_accounts.a_vault.key, false),
        AccountMeta::new(swap_accounts.b_vault.key, false),
        AccountMeta::new(swap_accounts.a_token_vault.key, false),
        AccountMeta::new(swap_accounts.b_token_vault.key, false),
        AccountMeta::new(swap_accounts.a_vault_lp_mint.info.key, false),
        AccountMeta::new(swap_accounts.b_vault_lp_mint.info.key, false),
        AccountMeta::new(swap_accounts.a_vault_lp.info.key, false),
        AccountMeta::new(swap_accounts.b_vault_lp.info.key, false),
        AccountMeta::new(swap_accounts.admin_token_fee.key, false),
        AccountMeta::new_readonly(swap_accounts.swap_authority_pubkey.key, true),
        AccountMeta::new_readonly(swap_accounts.vault_program.key, false),
        AccountMeta::new_readonly(swap_accounts.token_program.info.key, false),
    ];

    let account_infos = vec![
        AccountRef { place: offset + 4, key: swap_accounts.pool.key },
        AccountRef { place: offset + 2, key: swap_accounts.swap_source_token.info.key },
        AccountRef { place: offset + 3, key: swap_accounts.swap_destination_token.info.key },
        AccountRef { place: offset + 5, key: swap_accounts.a_vault.key },
        AccountRef { place: offset + 6, key: swap_accounts.b_vault.key },
        AccountRef { place: offset + 7, key: swap_accounts.a_token_vault.key },
        AccountRef { place: offset + 8, key: swap_accounts.b_token_vault.key },
        AccountRef { place: offset + 9, key: swap_accounts.a_vault_lp_mint.info.key },
        AccountRef { place: offset + 10, key: swap_accounts.b_vault_lp_mint.info.key },
        AccountRef { place: offset + 11, key: swap_accounts.a_vault_lp.info.key },
        AccountRef { place: offset + 12, key: swap_accounts.b_vault_lp.info.key },
        AccountRef { place: offset + 13, key: swap_accounts.admin_token_fee.key },
        AccountRef { place: offset + 1, key: swap_accounts.swap_authority_pubkey.key },
        AccountRef { place: offset + 14, key: swap_accounts.vault_program.key },
        AccountRef { place: offset + 15, key: swap_accounts.token_program.info.key },
    ];
    proof {
        assert(accounts@ =~= swap_accounts.swap_metas());
        assert(account_infos@ =~= swap_accounts.swap_infos(offset));
    }

    let instruction = Instruction {
        program_id: swap_accounts.dex_program_id.key,
        accounts,
        data,
    };

    invoke_process(
        &MeteoraDynamicPoolProcessor,
        account_infos,
        swap_source_token,
        &swap_accounts.swap_destination_token,
        offset + 3,
        instruction,
        hop,
        offset,
        ACCOUNTS_LEN,
        proxy_swap,
    )
}

/// Prepares an exchange on a dynamic pool.
pub fn swap<'info>(
    remaining_accounts: &'info [AccountInfo],
    amount_in: u64,
    offset: usize,
    hop_accounts: &HopAccounts,
    hop: usize,
    proxy_swap: bool,
) -> (r: Result<Invocation, Error>)
    ensures
        yields(
            r,
            swap_call(remaining_accounts@, amount_in, offset, *hop_accounts, hop, proxy_swap),
        ),
{
    if remaining_accounts.len() < ACCOUNTS_LEN || offset > remaining_accounts.len()
        - ACCOUNTS_LEN {
        return Err(Error::Router(ErrorCode::InvalidAccountsLength));
    }
    let swap_accounts = MeteoraDynamicPoolAccounts::parse_accounts(remaining_accounts, offset)?;
    handle_swap(&swap_accounts, amount_in, offset, hop_accounts, hop, proxy_swap)
}

/// Every call that `swap` hands out continues the hop chain, draws on the venue's own
/// accounts, and leaves the cursor right behind them.
pub proof fn lemma_swap_call(
    remaining_accounts: Seq<AccountInfo>,
    amount_in: u64,
    offset: usize,
    hop_accounts: HopAccounts,
    hop: usize,
    proxy_swap: bool,
)
    requires
        remaining_accounts.len() <= usize::MAX,
    ensures
        swap_call(
            remaining_accounts,
            amount_in,
            offset,
            hop_accounts,
            hop,
            proxy_swap,
        ) matches Ok(invocation) ==> {
            &&& continuity_error(
                invocation.swap_source_token,
                invocation.swap_destination_token,
                hop_accounts,
            ) is None
            &&& invocation.next_offset == offset + ACCOUNTS_LEN
            &&& invocation.next_offset <= remaining_accounts.len()
            &&& offset <= invocation.destination < invocation.next_offset
        },
{
}

/// A call that `swap` hands out is made of the venue's part of the account list alone:
/// any list with the same accounts in that part gives the same call.
pub proof fn lemma_swap_call_local(
    first: Seq<AccountInfo>,
    second: Seq<AccountInfo>,
    amount_in: u64,
    offset: usize,
    hop_accounts: HopAccounts,
    hop: usize,
    proxy_swap: bool,
)
    requires
        first.len() <= usize::MAX,
        swap_call(
            first,
            amount_in,
            offset,
            hop_accounts,
            hop,
            proxy_swap,
        ) matches Ok(invocation) && second.len()
            >= invocation.next_offset && first.subrange(
            offset as int,
            invocation.next_offset as int,
        ) == second.subrange(offset as int, invocation.next_offset as int),
    ensures
        swap_call(
            second,
            amount_in,
            offset,
            hop_accounts,
            hop,
            proxy_swap,
        ) == swap_call(first, amount_in, offset, hop_accounts, hop, proxy_swap),
{
}

/// What `swap` makes of the accounts depends on what they hold and on nothing else: two
/// lists of accounts that hold the same give the same call, or the same failure.
pub proof fn lemma_swap_call_same(
    first: Seq<AccountInfo>,
    second: Seq<AccountInfo>,
    amount_in: u64,
    offset: usize,
    hop_accounts: HopAccounts,
    hop: usize,
    proxy_swap: bool,
)
    requires
        same_accounts(first, second),
    ensures
        swap_call(
            second,
            amount_in,
            offset,
            hop_accounts,
            hop,
            proxy_swap,
        ) == swap_call(first, amount_in, offset, hop_accounts, hop, proxy_swap),
{
    if first.len() >= offset + ACCOUNTS_LEN {
        let taken = offset + ACCOUNTS_LEN;
        let ours = first.subrange(offset as int, taken);
        let theirs = second.subrange(offset as int, taken);
        assert forall|i: int| 0 <= i < ACCOUNTS_LEN implies same_account(
            &#[trigger] ours[i],
            &theirs[i],
        ) by {
            assert(same_account(&first[offset + i], &second[offset + i]));
        }
    }
}

/// `swap` holds a call to the hop chain before it looks at anything else that the chain
/// bears on. A call that it would hand out at the start of a chain is handed out
/// unchanged where it continues the chain it is given, and is refused for the break
/// where it does not.
pub proof fn lemma_swap_call_chained(
    remaining_accounts: Seq<AccountInfo>,
    amount_in: u64,
    offset: usize,
    hop_accounts: HopAccounts,
    hop: usize,
    proxy_swap: bool,
)
    ensures
        swap_call(
            remaining_accounts,
            amount_in,
            offset,
            HopAccounts::fresh(address(ZERO_ADDRESS)),
            hop,
            proxy_swap,
        ) matches Ok(invocation) ==> swap_call(
            remaining_accounts,
            amount_in,
            offset,
            hop_accounts,
            hop,
            proxy_swap,
        ) == chained(invocation, hop_accounts),
{
}

/// What `swap_dlmm` makes of the accounts at the cursor: the call, or the reason why none is
/// made. It reads no account outside the venue's part of the list.
pub open spec fn swap_dlmm_call(
    remaining_accounts: Seq<AccountInfo>,
    amount_in: u64,
    offset: usize,
    hop_accounts: HopAccounts,
    hop: usize,
    proxy_swap: bool,
) -> Result<InvocationView, Error> {
    if remaining_accounts.len() < offset + DLMM_ACCOUNTS_LEN {
        Err(Error::Router(ErrorCode::InvalidAccountsLength))
    } else {
        match MeteoraDlmmAccounts::parsed(
            remaining_accounts.subrange(offset as int, offset + DLMM_ACCOUNTS_LEN),
        ) {
            Err(e) => Err(e),
            Ok(swap_accounts) => swap_accounts.swap_dlmm(
                amount_in,
                offset,
                hop_accounts,
                hop,
                proxy_swap,
            ),
        }
    }
}

/// What `swap_dlmm` makes of the venue's accounts once they are read.
pub fn handle_swap_dlmm(
    swap_accounts: &MeteoraDlmmAccounts,
    amount_in: u64,
    offset: usize,
    hop_accounts: &HopAccounts,
    hop: usize,
    proxy_swap: bool,
) -> (r: Result<Invocation, Error>)
    requires
        offset + DLMM_ACCOUNTS_LEN <= usize::MAX,
    ensures
        yields(r, swap_accounts.swap_dlmm(amount_in, offset, *hop_accounts, hop, proxy_swap)),
{
    if !swap_accounts.dex_program_id.key.is(METEORA_DLMM_PROGRAM) {
        return Err(Error::Router(ErrorCode::InvalidProgramId));
    }

    // check hop accounts & swap authority
    let swap_source_token = swap_accounts.swap_source_token.key();
    let swap_destination_token = swap_accounts.swap_destination_token.key();
    before_check(
        swap_accounts.swap_authority_pubkey,
        swap_source_token,
        swap_destination_token,
        hop_accounts,
        hop,
        proxy_swap,
    )?;

    let data = pack_swap_instruction(amount_in, 1u64);

    let mut accounts = vec![
        AccountMeta::new(swap_accounts.lb_pair.key, false),
        AccountMeta::new_readonly(swap_accounts.bin_array_bitmap_extension.key, false),
        AccountMeta::new(swap_accounts.reserve_x.info.key, false),
        AccountMeta::new(swap_accounts.reserve_y.info.key, false),
        AccountMeta::new(swap_accounts.swap_source_token.info.key, false),
        AccountMeta::new(swap_accounts.swap_destination_token.info.key, false),
        AccountMeta::new_readonly(swap_accounts.token_x_mint.info.key, false),
        AccountMeta::new_readonly(swap_accounts.token_y_mint.info.key, false),
        AccountMeta::new(swap_accounts.oracle.key, false),
        AccountMeta::new(swap_accounts.host_fee_in.key, false),
        AccountMeta::new_readonly(swap_accounts.swap_authority_pubkey.key, true),
        AccountMeta::new_readonly(swap_accounts.token_x_program.key, false),
        AccountMeta::new_readonly(swap_accounts.token_y_program.key, false),
        AccountMeta::new_readonly(swap_accounts.event_authority.key, false),
        AccountMeta::new_readonly(swap_accounts.dex_program_id.key, false),
        AccountMeta::new(swap_accounts.bin_array0.key, false),
    ];

    let mut account_infos = vec![
        AccountRef { place: offset + 4, key: swap_accounts.lb_pair.key },
        AccountRef { place: offset + 5, key: swap_accounts.bin_array_bitmap_extension.key },
        AccountRef { place: offset + 6, key: swap_accounts.reserve_x.info.key },
        AccountRef { place: offset + 7, key: swap_accounts.reserve_y.info.key },
        AccountRef { place: offset + 2, key: swap_accounts.swap_source_token.info.key },
        AccountRef { place: offset + 3, key: swap_accounts.swap_destination_token.info.key },
        AccountRef { place: offset + 8, key: swap_accounts.token_x_mint.info.key },
        AccountRef { place: offset + 9, key: swap_accounts.token_y_mint.info.key },
        AccountRef { place: offset + 10, key: swap_accounts.oracle.key },
        AccountRef { place: offset + 11, key: swap_accounts.host_fee_in.key },
        AccountRef { place: offset + 1, key: swap_accounts.swap_authority_pubkey.key },
        AccountRef { place: offset + 12, key: swap_accounts.token_x_program.key },
        AccountRef { place: offset + 13, key: swap_accounts.token_y_program.key },
        AccountRef { place: offset + 14, key: swap_accounts.event_authority.key },
        AccountRef { place: offset, key: swap_accounts.dex_program_id.key },
        AccountRef { place: offset + 15, key: swap_accounts.bin_array0.key },
    ];

    if !swap_accounts.bin_array1.key.is(ZERO_ADDRESS) {
        accounts.push(AccountMeta::new(swap_accounts.bin_array1.key, false));
        account_infos.push(AccountRef { place: offset + 16, key: swap_accounts.bin_array1.key });
    }
    if !swap_accounts.bin_array2.key.is(ZERO_ADDRESS) {
        accounts.push(AccountMeta::new(swap_accounts.bin_array2.key, false));
        account_infos.push(AccountRef { place: offset + 17, key: swap_accounts.bin_array2.key });
    }
    proof {
        assert(accounts@ =~= swap_accounts.swap_dlmm_metas());
        assert(account_infos@ =~= swap_accounts.swap_dlmm_infos(offset));
    }

    let instruction = Instruction {
        program_id: swap_accounts.dex_program_id.key,
        accounts,
        data,
    };

    invoke_process(
        &MeteoraDynamicPoolProcessor,
        account_infos,
        swap_source_token,
        &swap_accounts.swap_destination_token,
        offset + 3,
        instruction,
        hop,
        offset,
        DLMM_ACCOUNTS_LEN,
        proxy_swap,
    )
}

/// Prepares an exchange on a liquidity-bin pool. The optional bin arrays go into the
/// instruction and into the accounts handed to the call together, or not at all.
pub fn swap_dlmm<'info>(
    remaining_accounts: &'info [AccountInfo],
    amount_in: u64,
    offset: usize,
    hop_accounts: &HopAccounts,
    hop: usize,
    proxy_swap: bool,
) -> (r: Result<Invocation, Error>)
    ensures
        yields(
            r,
            swap_dlmm_call(remaining_accounts@, amount_in, offset, *hop_accounts, hop, proxy_swap),
        ),
{
    if remaining_accounts.len() < DLMM_ACCOUNTS_LEN || offset > remaining_accounts.len()
        - DLMM_ACCOUNTS_LEN {
        return Err(Error::Router(ErrorCode::InvalidAccountsLength));
    }
    let swap_accounts = MeteoraDlmmAccounts::parse_accounts(remaining_accounts, offset)?;
    handle_swap_dlmm(&swap_accounts, amount_in, offset, hop_accounts, hop, proxy_swap)
}

/// Every call that `swap_dlmm` hands out continues the hop chain, draws on the venue's own
/// accounts, and leaves the cursor right behind them.
pub proof fn lemma_swap_dlmm_call(
    remaining_accounts: Seq<AccountInfo>,
    amount_in: u64,
    offset: usize,
    hop_accounts: HopAccounts,
    hop: usize,
    proxy_swap: bool,
)
    requires
        remaining_accounts.len() <= usize::MAX,
    ensures
        swap_dlmm_call(
            remaining_accounts,
            amount_in,
            offset,
            hop_accounts,
            hop,
            proxy_swap,
        ) matches Ok(invocation) ==> {
            &&& continuity_error(
                invocation.swap_source_token,
                invocation.swap_destination_token,
                hop_accounts,
            ) is None
            &&& invocation.next_offset == offset + DLMM_ACCOUNTS_LEN
            &&& invocation.next_offset <= remaining_accounts.len()
            &&& offset <= invocation.destination < invocation.next_offset
        },
{
}

/// A call that `swap_dlmm` hands out is made of the venue's part of the account list alone:
/// any list with the same accounts in that part gives the same call.
pub proof fn lemma_swap_dlmm_call_local(
    first: Seq<AccountInfo>,
    second: Seq<AccountInfo>,
    amount_in: u64,
    offset: usize,
    hop_accounts: HopAccounts,
    hop: usize,
    proxy_swap: bool,
)
    requires
        first.len() <= usize::MAX,
        swap_dlmm_call(
            first,
            amount_in,
            offset,
            hop_accounts,
            hop,
            proxy_swap,
        ) matches Ok(invocation) && second.len()
            >= invocation.next_offset && first.subrange(
            offset as int,
            invocation.next_offset as int,
        ) == second.subrange(offset as int, invocation.next_offset as int),
    ensures
        swap_dlmm_call(
            second,
            amount_in,
            offset,
            hop_accounts,
            hop,
            proxy_swap,
        ) == swap_dlmm_call(first, amount_in, offset, hop_accounts, hop, proxy_swap),
{
}

/// What `swap_dlmm` makes of the accounts depends on what they hold and on nothing else: two
/// lists of accounts that hold the same give the same call, or the same failure.
pub proof fn lemma_swap_dlmm_call_same(
    first: Seq<AccountInfo>,
    second: Seq<AccountInfo>,
    amount_in: u64,
    offset: usize,
    hop_accounts: HopAccounts,
    hop: usize,
    proxy_swap: bool,
)
    requires
        same_accounts(first, second),
    ensures
        swap_dlmm_call(
            second,
            amount_in,
            offset,
            hop_accounts,
            hop,
            proxy_swap,
        ) == swap_dlmm_call(first, amount_in, offset, hop_accounts, hop, proxy_swap),
{
    if first.len() >= offset + DLMM_ACCOUNTS_LEN {
        let taken = offset + DLMM_ACCOUNTS_LEN;
        let ours = first.subrange(offset as int, taken);
        let theirs = second.subrange(offset as int, taken);
        assert forall|i: int| 0 <= i < DLMM_ACCOUNTS_LEN implies same_account(
            &#[trigger] ours[i],
            &theirs[i],
        ) by {
            assert(same_account(&first[offset + i], &second[offset + i]));
        }
    }
}

/// `swap_dlmm` holds a call to the hop chain before it looks at anything else that the chain
/// bears on. A call that it would hand out at the start of a chain is handed out
/// unchanged where it continues the chain it is given, and is refused for the break
/// where it does not.
pub proof fn lemma_swap_dlmm_call_chained(
    remaining_accounts: Seq<AccountInfo>,
    amount_in: u64,
    offset: usize,
    hop_accounts: HopAccounts,
    hop: usize,
    proxy_swap: bool,
)
    ensures
        swap_dlmm_call(
            remaining_accounts,
            amount_in,
            offset,
            HopAccounts::fresh(address(ZERO_ADDRESS)),
            hop,
            proxy_swap,
        ) matches Ok(invocation) ==> swap_dlmm_call(
            remaining_accounts,
            amount_in,
            offset,
            hop_accounts,
            hop,
            proxy_swap,
        ) == chained(invocation, hop_accounts),
{
}

} // verus!
