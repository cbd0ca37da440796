//! Aldrin's two exchanges.

use crate::account::{
    address, readonly, writable, AccountInfo, AccountMeta, Instruction, InstructionView, Mint,
    Program, ProgramKind, Pubkey, TokenAccount,
};
use crate::adapters::common::{
    account_ref, before_check, before_check_error, chained, continuity_error, direction,
    find_direction, invoke_process, no_call, no_calls, prepared, same_account, same_accounts,
    yields, AccountRef, Call, CallView, DexProcessor, Invocation, InvocationView,
};
use crate::bytes::{le_bytes, push_le};
use crate::constants::{ALDRIN_V1_PROGRAM, ALDRIN_V2_PROGRAM, SWAP_SELECTOR, ZERO_ADDRESS};
use crate::error::{Error, ErrorCode};
use crate::instructions::common::HopAccounts;
use vstd::prelude::*;

verus! {

/// Length of the venue's instruction payload.
pub const ARGS_LEN: usize = 25;

/// Number of accounts the first exchange takes from the flat account list.
pub const V1_ACCOUNTS_LEN: usize = 11;

/// Number of accounts the second exchange takes from the flat account list.
pub const V2_ACCOUNTS_LEN: usize = 12;

/// The side of the book an order is placed on.
#[derive(Clone, Copy, Debug, PartialEq, Eq, Structural)]
pub enum Side {
    Bid,
    Ask,
}

impl Side {
    /// The byte that stands for the side in a payload.
    pub open spec fn tag(self) -> u8 {
        match self {
            Side::Bid => 0,
            Side::Ask => 1,
        }
    }

    /// The side that the byte `tag` stands for, if it stands for one.
    pub open spec fn of_tag(tag: u8) -> Option<Side> {
        if tag == 0 {
            Some(Side::Bid)
        } else if tag == 1 {
            Some(Side::Ask)
        } else {
            None
        }
    }

    pub fn into(self) -> (tag: u8)
        ensures
            tag == self.tag(),
    {
        match self {
            Side::Bid => 0,
            Side::Ask => 1,
        }
    }

    pub fn try_from_primitive(tag: u8) -> (side: Option<Side>)
        ensures
            side == Side::of_tag(tag),
    {
        if tag == 0 {
            Some(Side::Bid)
        } else if tag == 1 {
            Some(Side::Ask)
        } else {
            None
        }
    }
}

/// The side of an exchange: the user sells the coin (`Ask`) where the source is of the coin
/// vault's mint, and buys it (`Bid`) otherwise.
pub open spec fn sold(source_mint: Pubkey, coin_mint: Pubkey) -> Side {
    if source_mint == coin_mint {
        Side::Ask
    } else {
        Side::Bid
    }
}

fn side_of(source_mint: Pubkey, coin_mint: Pubkey) -> (side: Side)
    ensures
        side == sold(source_mint, coin_mint),
{
    if source_mint == coin_mint {
        Side::Ask
    } else {
        Side::Bid
    }
}

/// Aldrin's exchanges add nothing around their call.
pub struct AldrinProcessor;

impl DexProcessor for AldrinProcessor {
    open spec fn calls_before(
        &self,
        account_infos: Seq<AccountRef>,
    ) -> Result<Seq<CallView>, Error> {
        no_calls()
    }

    open spec fn calls_after(
        &self,
        account_infos: Seq<AccountRef>,
    ) -> Result<Seq<CallView>, Error> {
        no_calls()
    }

    fn before_invoke(&self, account_infos: &Vec<AccountRef>) -> (r: Result<Vec<Call>, Error>) {
        no_call()
    }

    fn after_invoke(&self, account_infos: &Vec<AccountRef>) -> (r: Result<Vec<Call>, Error>) {
        no_call()
    }
}

/// The accounts of one exchange on the first exchange.
#[derive(Clone, Copy, Debug)]
pub struct AldrinSwapAccountsV1<'info> {
    pub dex_program_id: &'info AccountInfo,
    pub swap_authority_pubkey: &'info AccountInfo,
    pub swap_source_token: TokenAccount<'info>,
    pub swap_destination_token: TokenAccount<'info>,
    pub pool_info: &'info AccountInfo,
    pub pool_authority: &'info AccountInfo,
    pub pool_mint: Mint<'info>,
    pub pool_coin_token_vault: TokenAccount<'info>,
    pub pool_pc_token_vault: TokenAccount<'info>,
    pub pool_fee_account: TokenAccount<'info>,
    pub token_program: Program<'info>,
}

/// The accounts of one exchange on the second exchange.
#[derive(Clone, Copy, Debug)]
pub struct AldrinSwapAccountsV2<'info> {
    pub dex_program_id: &'info AccountInfo,
    pub swap_authority_pubkey: &'info AccountInfo,
    pub swap_source_token: TokenAccount<'info>,
    pub swap_destination_token: TokenAccount<'info>,
    pub pool_info: &'info AccountInfo,
    pub pool_authority: &'info AccountInfo,
    pub pool_mint: Mint<'info>,
    pub pool_coin_token_vault: TokenAccount<'info>,
    pub pool_pc_token_vault: TokenAccount<'info>,
    pub pool_fee_account: TokenAccount<'info>,
    pub pool_curve: &'info AccountInfo,
    pub token_program: Program<'info>,
}

impl<'info> AldrinSwapAccountsV1<'info> {
    /// The accounts of `slice`, the venue's part of the flat list, each read as what its
    /// place asks for; or the failure of the first that is not that.
    pub open spec fn parsed(slice: Seq<AccountInfo>) -> Result<AldrinSwapAccountsV1<'info>, Error> {
        let swap_source_token = TokenAccount::parsed(&slice[2]);
        let swap_destination_token = TokenAccount::parsed(&slice[3]);
        let pool_mint = Mint::parsed(&slice[6]);
        let pool_coin_token_vault = TokenAccount::parsed(&slice[7]);
        let pool_pc_token_vault = TokenAccount::parsed(&slice[8]);
        let pool_fee_account = TokenAccount::parsed(&slice[9]);
        let token_program = Program::parsed(&slice[10], ProgramKind::Token);
        if swap_source_token is Err {
            Err(swap_source_token->Err_0)
        } else if swap_destination_token is Err {
            Err(swap_destination_token->Err_0)
        } else if pool_mint is Err {
            Err(pool_mint->Err_0)
        } else if pool_coin_token_vault is Err {
            Err(pool_coin_token_vault->Err_0)
        } else if pool_pc_token_vault is Err {
            Err(pool_pc_token_vault->Err_0)
        } else if pool_fee_account is Err {
            Err(pool_fee_account->Err_0)
        } else if token_program is Err {
            Err(token_program->Err_0)
        } else {
            Ok(
                AldrinSwapAccountsV1 {
                    dex_program_id: &slice[0],
                    swap_authority_pubkey: &slice[1],
                    swap_source_token: swap_source_token->Ok_0,
                    swap_destination_token: swap_destination_token->Ok_0,
                    pool_info: &slice[4],
                    pool_authority: &slice[5],
                    pool_mint: pool_mint->Ok_0,
                    pool_coin_token_vault: pool_coin_token_vault->Ok_0,
                    pool_pc_token_vault: pool_pc_token_vault->Ok_0,
                    pool_fee_account: pool_fee_account->Ok_0,
                    token_program: token_program->Ok_0,
                },
            )
        }
    }

    fn parse_accounts(accounts: &'info [AccountInfo], offset: usize) -> (r: Result<
        AldrinSwapAccountsV1<'info>,
        Error,
    >)
        requires
            offset + V1_ACCOUNTS_LEN <= accounts@.len(),
        ensures
            r == Self::parsed(accounts@.subrange(offset as int, offset + V1_ACCOUNTS_LEN)),
    {
        Ok(
            AldrinSwapAccountsV1 {
                dex_program_id: &accounts[offset],
                swap_authority_pubkey: &accounts[offset + 1],
                swap_source_token: TokenAccount::try_from(&accounts[offset + 2])?,
                swap_destination_token: TokenAccount::try_from(&accounts[offset + 3])?,
                pool_info: &accounts[offset + 4],
                pool_authority: &accounts[offset + 5],
                pool_mint: Mint::try_from(&accounts[offset + 6])?,
                pool_coin_token_vault: TokenAccount::try_from(&accounts[offset + 7])?,
                pool_pc_token_vault: TokenAccount::try_from(&accounts[offset + 8])?,
                pool_fee_account: TokenAccount::try_from(&accounts[offset + 9])?,
                token_program: Program::try_from(&accounts[offset + 10], ProgramKind::Token)?,
            },
        )
    }
}

impl<'info> AldrinSwapAccountsV2<'info> {
    /// The accounts of `slice`, the venue's part of the flat list, each read as what its
    /// place asks for; or the failure of the first that is not that.
    pub open spec fn parsed(slice: Seq<AccountInfo>) -> Result<AldrinSwapAccountsV2<'info>, Error> {
        let swap_source_token = TokenAccount::parsed(&slice[2]);
        let swap_destination_token = TokenAccount::parsed(&slice[3]);
        let pool_mint = Mint::parsed(&slice[6]);
        let pool_coin_token_vault = TokenAccount::parsed(&slice[7]);
        let pool_pc_token_vault = TokenAccount::parsed(&slice[8]);
        let pool_fee_account = TokenAccount::parsed(&slice[9]);
        let token_program = Program::parsed(&slice[11], ProgramKind::Token);
        if swap_source_token is Err {
            Err(swap_source_token->Err_0)
        } else if swap_destination_token is Err {
            Err(swap_destination_token->Err_0)
        } else if pool_mint is Err {
            Err(pool_mint->Err_0)
        } else if pool_coin_token_vault is Err {
            Err(pool_coin_token_vault->Err_0)
        } else if pool_pc_token_vault is Err {
            Err(pool_pc_token_vault->Err_0)
        } else if pool_fee_account is Err {
            Err(pool_fee_account->Err_0)
        } else if token_program is Err {
            Err(token_program->Err_0)
        } else {
            Ok(
                AldrinSwapAccountsV2 {
                    dex_program_id: &slice[0],
                    swap_authority_pubkey: &slice[1],
                    swap_source_token: swap_source_token->Ok_0,
                    swap_destination_token: swap_destination_token->Ok_0,
                    pool_info: &slice[4],
                    pool_authority: &slice[5],
                    pool_mint: pool_mint->Ok_0,
                    pool_coin_token_vault: pool_coin_token_vault->Ok_0,
                    pool_pc_token_vault: pool_pc_token_vault->Ok_0,
                    pool_fee_account: pool_fee_account->Ok_0,
                    pool_curve: &slice[10],
                    token_program: token_program->Ok_0,
                },
            )
        }
    }

    fn parse_accounts(accounts: &'info [AccountInfo], offset: usize) -> (r: Result<
        AldrinSwapAccountsV2<'info>,
        Error,
    >)
        requires
            offset + V2_ACCOUNTS_LEN <= accounts@.len(),
        ensures
            r == Self::parsed(accounts@.subrange(offset as int, offset + V2_ACCOUNTS_LEN)),
    {
        Ok(
            AldrinSwapAccountsV2 {
                dex_program_id: &accounts[offset],
                swap_authority_pubkey: &accounts[offset + 1],
                swap_source_token: TokenAccount::try_from(&accounts[offset + 2])?,
                swap_destination_token: TokenAccount::try_from(&accounts[offset + 3])?,
                pool_info: &accounts[offset + 4],
                pool_authority: &accounts[offset + 5],
                pool_mint: Mint::try_from(&accounts[offset + 6])?,
                pool_coin_token_vault: TokenAccount::try_from(&accounts[offset + 7])?,
                pool_pc_token_vault: TokenAccount::try_from(&accounts[offset + 8])?,
                pool_fee_account: TokenAccount::try_from(&accounts[offset + 9])?,
                pool_curve: &accounts[offset + 10],
                token_program: Program::try_from(&accounts[offset + 11], ProgramKind::Token)?,
            },
        )
    }
}

/// The payload of an exchange: the selector of the instruction, the amount to sell, the least
/// amount to take for it, and the side.
pub open spec fn swap_data(amount_in: u64, minimum_amount_out: u64, side: Side) -> Seq<u8> {
    SWAP_SELECTOR@
        + le_bytes(amount_in as nat, 8)
        + le_bytes(minimum_amount_out as nat, 8)
        + seq![side.tag()]
}

/// The payload of an exchange: the selector of the instruction, the amount to sell, the least
/// amount to take for it, and the side.
pub fn pack_swap_instruction(amount_in: u64, minimum_amount_out: u64, side: Side) -> (data: Vec<u8>)
    ensures
        data@ == swap_data(amount_in, minimum_amount_out, side),
        data@.len() == ARGS_LEN,
{
    let mut data: Vec<u8> = Vec::with_capacity(ARGS_LEN);
    data.extend_from_slice(&SWAP_SELECTOR);
    push_le(&mut data, amount_in as u128, 8);
    push_le(&mut data, minimum_amount_out as u128, 8);
    data.push(side.into());
    data
}

impl<'info> AldrinSwapAccountsV1<'info> {
    /// The accounts of the venue's instruction, in the order the venue wants them.
    pub open spec fn swap_v1_metas(&self, forward: bool) -> Seq<AccountMeta> {
        seq![
            readonly(self.pool_info.key, false),
            readonly(self.pool_authority.key, false),
            writable(self.pool_mint.info.key, false),
            writable(self.pool_coin_token_vault.info.key, false),
            writable(self.pool_pc_token_vault.info.key, false),
            writable(self.pool_fee_account.info.key, false),
            readonly(self.swap_authority_pubkey.key, true),
            writable(
                if forward {
                    self.swap_source_token.info.key
                } else {
                    self.swap_destination_token.info.key
                },
                false,
            ),
            writable(
                if forward {
                    self.swap_destination_token.info.key
                } else {
                    self.swap_source_token.info.key
                },
                false,
            ),
            readonly(self.token_program.info.key, false),
        ]
    }

    /// The accounts handed to the call.
    pub open spec fn swap_v1_infos(&self, offset: usize) -> Seq<AccountRef> {
        seq![
            account_ref(self.pool_info.key, offset, 4),
            account_ref(self.pool_authority.key, offset, 5),
            account_ref(self.pool_mint.info.key, offset, 6),
            account_ref(self.pool_coin_token_vault.info.key, offset, 7),
            account_ref(self.pool_pc_token_vault.info.key, offset, 8),
            account_ref(self.pool_fee_account.info.key, offset, 9),
            account_ref(self.swap_authority_pubkey.key, offset, 1),
            account_ref(self.swap_source_token.info.key, offset, 2),
            account_ref(self.swap_destination_token.info.key, offset, 3),
            account_ref(self.token_program.info.key, offset, 10),
        ]
    }

    /// The call these accounts make for `amount_in` in the given hop, or why none is made.
    pub open spec fn swap_v1(
        &self,
        amount_in: u64,
        offset: usize,
        hop_accounts: HopAccounts,
        hop: usize,
        proxy_swap: bool,
    ) -> Result<InvocationView, Error> {
        if self.dex_program_id.key != address(ALDRIN_V1_PROGRAM) {
            Err(Error::Router(ErrorCode::InvalidProgramId))
        } else {
            match before_check_error(
                self.swap_authority_pubkey,
                self.swap_source_token.info.key,
                self.swap_destination_token.info.key,
                hop_accounts,
                hop,
                proxy_swap,
            ) {
                Some(e) => Err(e),
                None => {
                    let side: Side = sold(
                        self.swap_source_token.mint,
                        self.pool_coin_token_vault.mint,
                    );
                    match direction(
                        self.swap_source_token.mint,
                        self.swap_destination_token.mint,
                        self.pool_coin_token_vault.mint,
                        self.pool_pc_token_vault.mint,
                    ) {
                        None => Err(Error::Router(ErrorCode::InvalidTokenMint)),
                        Some(forward) => {
                            prepared(
                                &AldrinProcessor,
                                self.swap_v1_infos(offset),
                                self.swap_source_token.info.key,
                                self.swap_destination_token,
                                (offset + 3) as usize,
                                InstructionView {
                                    program_id: self.dex_program_id.key,
                                    accounts: self.swap_v1_metas(forward),
                                    data: swap_data(amount_in, 1u64, side),
                                },
                                hop,
                                offset,
                                V1_ACCOUNTS_LEN,
                                proxy_swap,
                            )
                        },
                    }
                },
            }
        }
    }
}

impl<'info> AldrinSwapAccountsV2<'info> {
    /// The accounts of the venue's instruction, in the order the venue wants them.
    pub open spec fn swap_v2_metas(&self, forward: bool) -> Seq<AccountMeta> {
        seq![
            readonly(self.pool_info.key, false),
            readonly(self.pool_authority.key, false),
            writable(self.pool_mint.info.key, false),
            writable(self.pool_coin_token_vault.info.key, false),
            writable(self.pool_pc_token_vault.info.key, false),
            writable(self.pool_fee_account.info.key, false),
            readonly(self.swap_authority_pubkey.key, true),
            writable(
                if forward {
                    self.swap_source_token.info.key
                } else {
                    self.swap_destination_token.info.key
                },
                false,
            ),
            writable(
                if forward {
                    self.swap_destination_token.info.key
                } else {
                    self.swap_source_token.info.key
                },
                false,
            ),
            readonly(self.pool_curve.key, false),
            readonly(self.token_program.info.key, false),
        ]
    }

    /// The accounts handed to the call.
    pub open spec fn swap_v2_infos(&self, offset: usize) -> Seq<AccountRef> {
        seq![
            account_ref(self.pool_info.key, offset, 4),
            account_ref(self.pool_authority.key, offset, 5),
            account_ref(self.pool_mint.info.key, offset, 6),
            account_ref(self.pool_coin_token_vault.info.key, offset, 7),
            account_ref(self.pool_pc_token_vault.info.key, offset, 8),
            account_ref(self.pool_fee_account.info.key, offset, 9),
            account_ref(self.swap_authority_pubkey.key, offset, 1),
            account_ref(self.swap_source_token.info.key, offset, 2),
            account_ref(self.swap_destination_token.info.key, offset, 3),
            account_ref(self.pool_curve.key, offset, 10),
            account_ref(self.token_program.info.key, offset, 11),
        ]
    }

    /// The call these accounts make for `amount_in` in the given hop, or why none is made.
    pub open spec fn swap_v2(
        &self,
        amount_in: u64,
        offset: usize,
        hop_accounts: HopAccounts,
        hop: usize,
        proxy_swap: bool,
    ) -> Result<InvocationView, Error> {
        if self.dex_program_id.key != address(ALDRIN_V2_PROGRAM) {
            Err(Error::Router(ErrorCode::InvalidProgramId))
        } else {
            match before_check_error(
                self.swap_authority_pubkey,
                self.swap_source_token.info.key,
                self.swap_destination_token.info.key,
                hop_accounts,
                hop,
                proxy_swap,
            ) {
                Some(e) => Err(e),
                None => {
                    let side: Side = sold(
                        self.swap_source_token.mint,
                        self.pool_coin_token_vault.mint,
                    );
                    match direction(
                        self.swap_source_token.mint,
                        self.swap_destination_token.mint,
                        self.pool_coin_token_vault.mint,
                        self.pool_pc_token_vault.mint,
                    ) {
                        None => Err(Error::Router(ErrorCode::InvalidTokenMint)),
                        Some(forward) => {
                            prepared(
                                &AldrinProcessor,
                                self.swap_v2_infos(offset),
                                self.swap_source_token.info.key,
                                self.swap_destination_token,
                                (offset + 3) as usize,
                                InstructionView {
                                    program_id: self.dex_program_id.key,
                                    accounts: self.swap_v2_metas(forward),
                                    data: swap_data(amount_in, 1u64, side),
                                },
                                hop,
                                offset,
                                V2_ACCOUNTS_LEN,
                                proxy_swap,
                            )
                        },
                    }
                },
            }
        }
    }
}

/// What `swap_v1` makes of the accounts at the cursor: the call, or the reason why none is
/// made. It reads no account outside the venue's part of the list.
pub open spec fn swap_v1_call(
    remaining_accounts: Seq<AccountInfo>,
    amount_in: u64,
    offset: usize,
    hop_accounts: HopAccounts,
    hop: usize,
    proxy_swap: bool,
) -> Result<InvocationView, Error> {
    if remaining_accounts.len() < offset + V1_ACCOUNTS_LEN {
        Err(Error::Router(ErrorCode::InvalidAccountsLength))
    } else {
        match AldrinSwapAccountsV1::parsed(
            remaining_accounts.subrange(offset as int, offset + V1_ACCOUNTS_LEN),
        ) {
            Err(e) => Err(e),
            Ok(swap_accounts) => swap_accounts.swap_v1(
                amount_in,
                offset,
                hop_accounts,
                hop,
                proxy_swap,
            ),
        }
    }
}

/// What `swap_v1` makes of the venue's accounts once they are read.
pub fn handle_swap_v1(
    swap_accounts: &AldrinSwapAccountsV1,
    amount_in: u64,
    offset: usize,
    hop_accounts: &HopAccounts,
    hop: usize,
    proxy_swap: bool,
) -> (r: Result<Invocation, Error>)
    requires
        offset + V1_ACCOUNTS_LEN <= usize::MAX,
    ensures
        yields(r, swap_accounts.swap_v1(amount_in, offset, *hop_accounts, hop, proxy_swap)),
{
    if !swap_accounts.dex_program_id.key.is(ALDRIN_V1_PROGRAM) {
        return Err(Error::Router(ErrorCode::InvalidProgramId));
    }

    // check hop accounts & swap authority
    let swap_source_token = swap_accounts.swap_source_token.key();
    let swap_destination_token = swap_accounts.swap_destination_token.key();
    before_check(
        swap_accounts.swap_authority_pubkey,
        swap_source_token,
        swap_destination_token,
        hop_accounts,
        hop,
        proxy_swap,
    )?;

    let side: Side = side_of(
        swap_accounts.swap_source_token.mint,
        swap_accounts.pool_coin_token_vault.mint,
    );
    let forward: bool = match find_direction(
        swap_accounts.swap_source_token.mint,
        swap_accounts.swap_destination_token.mint,
        swap_accounts.pool_coin_token_vault.mint,
        swap_accounts.pool_pc_token_vault.mint,
    ) {
        Some(forward) => forward,
        None => {
            return Err(Error::Router(ErrorCode::InvalidTokenMint));
        },
    };
    let data = pack_swap_instruction(amount_in, 1u64, side);

    let accounts = vec![
        AccountMeta::new_readonly(swap_accounts.pool_info.key, false),
        AccountMeta::new_readonly(swap_accounts.pool_authority.key, false),
        AccountMeta::new(swap_accounts.pool_mint.info.key, false),
        AccountMeta::new(swap_accounts.pool_coin_token_vault.info.key, false),
        AccountMeta::new(swap_accounts.pool_pc_token_vault.info.key, false),
        AccountMeta::new(swap_accounts.pool_fee_account.info.key, false),
        AccountMeta::new_readonly(swap_accounts.swap_authority_pubkey.key, true),
        AccountMeta::new(
            if forward {
                swap_accounts.swap_source_token.info.key
            } else {
                swap_accounts.swap_destination_token.info.key
            },
            false,
        ),
        AccountMeta::new(
            if forward {
                swap_accounts.swap_destination_token.info.key
            } else {
                swap_accounts.swap_source_token.info.key
            },
            false,
        ),
        AccountMeta::new_readonly(swap_accounts.token_program.info.key, false),
    ];

    let account_infos = vec![
        AccountRef { place: offset + 4, key: swap_accounts.pool_info.key },
        AccountRef { place: offset + 5, key: swap_accounts.pool_authority.key },
        AccountRef { place: offset + 6, key: swap_accounts.pool_mint.info.key },
        AccountRef { place: offset + 7, key: swap_accounts.pool_coin_token_vault.info.key },
        AccountRef { place: offset + 8, key: swap_accounts.pool_pc_token_vault.info.key },
        AccountRef { place: offset + 9, key: swap_accounts.pool_fee_account.info.key },
        AccountRef { place: offset + 1, key: swap_accounts.swap_authority_pubkey.key },
        AccountRef { place: offset + 2, key: swap_accounts.swap_source_token.info.key },
        AccountRef { place: offset + 3, key: swap_accounts.swap_destination_token.info.key },
        AccountRef { place: offset + 10, key: swap_accounts.token_program.info.key },
    ];
    proof {
        assert(accounts@ =~= swap_accounts.swap_v1_metas(forward));
        assert(account_infos@ =~= swap_accounts.swap_v1_infos(offset));
    }

    let instruction = Instruction {
        program_id: swap_accounts.dex_program_id.key,
        accounts,
        data,
    };

    invoke_process(
        &AldrinProcessor,
        account_infos,
        swap_source_token,
        &swap_accounts.swap_destination_token,
        offset + 3,
        instruction,
        hop,
        offset,
        V1_ACCOUNTS_LEN,
        proxy_swap,
    )
}

/// Prepares an exchange on the first exchange. The user sells the coin (`Ask`) where the source
/// is of the coin vault's mint, and buys it (`Bid`) otherwise; the user's two accounts are put
/// to the coin and the price side by their mints.
pub fn swap_v1<'info>(
    remaining_accounts: &'info [AccountInfo],
    amount_in: u64,
    offset: usize,
    hop_accounts: &HopAccounts,
    hop: usize,
    proxy_swap: bool,
) -> (r: Result<Invocation, Error>)
    ensures
        yields(
            r,
            swap_v1_call(remaining_accounts@, amount_in, offset, *hop_accounts, hop, proxy_swap),
        ),
{
    if remaining_accounts.len() < V1_ACCOUNTS_LEN || offset > remaining_accounts.len()
        - V1_ACCOUNTS_LEN {
        return Err(Error::Router(ErrorCode::InvalidAccountsLength));
    }
    let swap_accounts = AldrinSwapAccountsV1::parse_accounts(remaining_accounts, offset)?;
    handle_swap_v1(&swap_accounts, amount_in, offset, hop_accounts, hop, proxy_swap)
}

/// Every call that `swap_v1` hands out continues the hop chain, draws on the venue's own
/// accounts, and leaves the cursor right behind them.
pub proof fn lemma_swap_v1_call(
    remaining_accounts: Seq<AccountInfo>,
    amount_in: u64,
    offset: usize,
    hop_accounts: HopAccounts,
    hop: usize,
    proxy_swap: bool,
)
    requires
        remaining_accounts.len() <= usize::MAX,
    ensures
        swap_v1_call(
            remaining_accounts,
            amount_in,
            offset,
            hop_accounts,
            hop,
            proxy_swap,
        ) matches Ok(invocation) ==> {
            &&& continuity_error(
                invocation.swap_source_token,
                invocation.swap_destination_token,
                hop_accounts,
            ) is None
            &&& invocation.next_offset == offset + V1_ACCOUNTS_LEN
            &&& invocation.next_offset <= remaining_accounts.len()
            &&& offset <= invocation.destination < invocation.next_offset
        },
{
}

/// A call that `swap_v1` hands out is made of the venue's part of the account list alone:
/// any list with the same accounts in that part gives the same call.
pub proof fn lemma_swap_v1_call_local(
    first: Seq<AccountInfo>,
    second: Seq<AccountInfo>,
    amount_in: u64,
    offset: usize,
    hop_accounts: HopAccounts,
    hop: usize,
    proxy_swap: bool,
)
    requires
        first.len() <= usize::MAX,
        swap_v1_call(
            first,
            amount_in,
            offset,
            hop_accounts,
            hop,
            proxy_swap,
        ) matches Ok(invocation) && second.len()
            >= invocation.next_offset && first.subrange(
            offset as int,
            invocation.next_offset as int,
        ) == second.subrange(offset as int, invocation.next_offset as int),
    ensures
        swap_v1_call(
            second,
            amount_in,
            offset,
            hop_accounts,
            hop,
            proxy_swap,
        ) == swap_v1_call(first, amount_in, offset, hop_accounts, hop, proxy_swap),
{
}

/// What `swap_v1` makes of the accounts depends on what they hold and on nothing else: two
/// lists of accounts that hold the same give the same call, or the same failure.
pub proof fn lemma_swap_v1_call_same(
    first: Seq<AccountInfo>,
    second: Seq<AccountInfo>,
    amount_in: u64,
    offset: usize,
    hop_accounts: HopAccounts,
    hop: usize,
    proxy_swap: bool,
)
    requires
        same_accounts(first, second),
    ensures
        swap_v1_call(
            second,
            amount_in,
            offset,
            hop_accounts,
            hop,
            proxy_swap,
        ) == swap_v1_call(first, amount_in, offset, hop_accounts, hop, proxy_swap),
{
    if first.len() >= offset + V1_ACCOUNTS_LEN {
        let taken = offset + V1_ACCOUNTS_LEN;
        let ours = first.subrange(offset as int, taken);
        let theirs = second.subrange(offset as int, taken);
        assert forall|i: int| 0 <= i < V1_ACCOUNTS_LEN implies same_account(
            &#[trigger] ours[i],
            &theirs[i],
        ) by {
            assert(same_account(&first[offset + i], &second[offset + i]));
        }
    }
}

/// `swap_v1` holds a call to the hop chain before it looks at anything else that the chain
/// bears on. A call that it would hand out at the start of a chain is handed out
/// unchanged where it continues the chain it is given, and is refused for the break
/// where it does not.
pub proof fn lemma_swap_v1_call_chained(
    remaining_accounts: Seq<AccountInfo>,
    amount_in: u64,
    offset: usize,
    hop_accounts: HopAccounts,
    hop: usize,
    proxy_swap: bool,
)
    ensures
        swap_v1_call(
            remaining_accounts,
            amount_in,
            offset,
            HopAccounts::fresh(address(ZERO_ADDRESS)),
            hop,
            proxy_swap,
        ) matches Ok(invocation) ==> swap_v1_call(
            remaining_accounts,
            amount_in,
            offset,
            hop_accounts,
            hop,
            proxy_swap,
        ) == chained(invocation, hop_accounts),
{
}

/// What `swap_v2` makes of the accounts at the cursor: the call, or the reason why none is
/// made. It reads no account outside the venue's part of the list.
pub open spec fn swap_v2_call(
    remaining_accounts: Seq<AccountInfo>,
    amount_in: u64,
    offset: usize,
    hop_accounts: HopAccounts,
    hop: usize,
    proxy_swap: bool,
) -> Result<InvocationView, Error> {
    if remaining_accounts.len() < offset + V2_ACCOUNTS_LEN {
        Err(Error::Router(ErrorCode::InvalidAccountsLength))
    } else {
        match AldrinSwapAccountsV2::parsed(
            remaining_accounts.subrange(offset as int, offset + V2_ACCOUNTS_LEN),
        ) {
            Err(e) => Err(e),
            Ok(swap_accounts) => swap_accounts.swap_v2(
                amount_in,
                offset,
                hop_accounts,
                hop,
                proxy_swap,
            ),
        }
    }
}

/// What `swap_v2` makes of the venue's accounts once they are read.
pub fn handle_swap_v2(
    swap_accounts: &AldrinSwapAccountsV2,
    amount_in: u64,
    offset: usize,
    hop_accounts: &HopAccounts,
    hop: usize,
    proxy_swap: bool,
) -> (r: Result<Invocation, Error>)
    requires
        offset + V2_ACCOUNTS_LEN <= usize::MAX,
    ensures
        yields(r, swap_accounts.swap_v2(amount_in, offset, *hop_accounts, hop, proxy_swap)),
{
    if !swap_accounts.dex_program_id.key.is(ALDRIN_V2_PROGRAM) {
        return Err(Error::Router(ErrorCode::InvalidProgramId));
    }

    // check hop accounts & swap authority
    let swap_source_token = swap_accounts.swap_source_token.key();
    let swap_destination_token = swap_accounts.swap_destination_token.key();
    before_check(
        swap_accounts.swap_authority_pubkey,
        swap_source_token,
        swap_destination_token,
        hop_accounts,
        hop,
        proxy_swap,
    )?;

    let side: Side = side_of(
        swap_accounts.swap_source_token.mint,
        swap_accounts.pool_coin_token_vault.mint,
    );
    let forward: bool = match find_direction(
        swap_accounts.swap_source_token.mint,
        swap_accounts.swap_destination_token.mint,
        swap_accounts.pool_coin_token_vault.mint,
        swap_accounts.pool_pc_token_vault.mint,
    ) {
        Some(forward) => forward,
        None => {
            return Err(Error::Router(ErrorCode::InvalidTokenMint));
        },
    };
    let data = pack_swap_instruction(amount_in, 1u64, side);

    let accounts = vec![
        AccountMeta::new_readonly(swap_accounts.pool_info.key, false),
        AccountMeta::new_readonly(swap_accounts.pool_authority.key, false),
        AccountMeta::new(swap_accounts.pool_mint.info.key, false),
        AccountMeta::new(swap_accounts.pool_coin_token_vault.info.key, false),
        AccountMeta::new(swap_accounts.pool_pc_token_vault.info.key, false),
        AccountMeta::new(swap_accounts.pool_fee_account.info.key, false),
        AccountMeta::new_readonly(swap_accounts.swap_authority_pubkey.key, true),
        AccountMeta::new(
            if forward {
                swap_accounts.swap_source_token.info.key
            } else {
                swap_accounts.swap_destination_token.info.key
            },
            false,
        ),
        AccountMeta::new(
            if forward {
                swap_accounts.swap_destination_token.info.key
            } else {
                swap_accounts.swap_source_token.info.key
            },
            false,
        ),
        AccountMeta::new_readonly(swap_accounts.pool_curve.key, false),
        AccountMeta::new_readonly(swap_accounts.token_program.info.key, false),
    ];

    let account_infos = vec![
        AccountRef { place: offset + 4, key: swap_accounts.pool_info.key },
        AccountRef { place: offset + 5, key: swap_accounts.pool_authority.key },
        AccountRef { place: offset + 6, key: swap_accounts.pool_mint.info.key },
        AccountRef { place: offset + 7, key: swap_accounts.pool_coin_token_vault.info.key },
        AccountRef { place: offset + 8, key: swap_accounts.pool_pc_token_vault.info.key },
        AccountRef { place: offset + 9, key: swap_accounts.pool_fee_account.info.key },
        AccountRef { place: offset + 1, key: swap_accounts.swap_authority_pubkey.key },
        AccountRef { place: offset + 2, key: swap_accounts.swap_source_token.info.key },
        AccountRef { place: offset + 3, key: swap_accounts.swap_destination_token.info.key },
        AccountRef { place: offset + 10, key: swap_accounts.pool_curve.key },
        AccountRef { place: offset + 11, key: swap_accounts.token_program.info.key },
    ];
    proof {
        assert(accounts@ =~= swap_accounts.swap_v2_metas(forward));
        assert(account_infos@ =~= swap_accounts.swap_v2_infos(offset));
    }

    let instruction = Instruction {
        program_id: swap_accounts.dex_program_id.key,
        accounts,
        data,
    };

    invoke_process(
        &AldrinProcessor,
        account_infos,
        swap_source_token,
        &swap_accounts.swap_destination_token,
        offset + 3,
        instruction,
        hop,
        offset,
        V2_ACCOUNTS_LEN,
        proxy_swap,
    )
}

/// Prepares an exchange on the second exchange. The user sells the coin (`Ask`) where the
/// source is of the coin vault's mint, and buys it (`Bid`) otherwise; the user's two accounts
/// are put to the coin and the price side by their mints.
pub fn swap_v2<'info>(
    remaining_accounts: &'info [AccountInfo],
    amount_in: u64,
    offset: usize,
    hop_accounts: &HopAccounts,
    hop: usize,
    proxy_swap: bool,
) -> (r: Result<Invocation, Error>)
    ensures
        yields(
            r,
            swap_v2_call(remaining_accounts@, amount_in, offset, *hop_accounts, hop, proxy_swap),
        ),
{
    if remaining_accounts.len() < V2_ACCOUNTS_LEN || offset > remaining_accounts.len()
        - V2_ACCOUNTS_LEN {
        return Err(Error::Router(ErrorCode::InvalidAccountsLength));
    }
    let swap_accounts = AldrinSwapAccountsV2::parse_accounts(remaining_accounts, offset)?;
    handle_swap_v2(&swap_accounts, amount_in, offset, hop_accounts, hop, proxy_swap)
}

/// Every call that `swap_v2` hands out continues the hop chain, draws on the venue's own
/// accounts, and leaves the cursor right behind them.
pub proof fn lemma_swap_v2_call(
    remaining_accounts: Seq<AccountInfo>,
    amount_in: u64,
    offset: usize,
    hop_accounts: HopAccounts,
    hop: usize,
    proxy_swap: bool,
)
    requires
        remaining_accounts.len() <= usize::MAX,
    ensures
        swap_v2_call(
            remaining_accounts,
            amount_in,
            offset,
            hop_accounts,
            hop,
            proxy_swap,
        ) matches Ok(invocation) ==> {
            &&& continuity_error(
                invocation.swap_source_token,
                invocation.swap_destination_token,
                hop_accounts,
            ) is None
            &&& invocation.next_offset == offset + V2_ACCOUNTS_LEN
            &&& invocation.next_offset <= remaining_accounts.len()
            &&& offset <= invocation.destination < invocation.next_offset
        },
{
}

/// A call that `swap_v2` hands out is made of the venue's part of the account list alone:
/// any list with the same accounts in that part gives the same call.
pub proof fn lemma_swap_v2_call_local(
    first: Seq<AccountInfo>,
    second: Seq<AccountInfo>,
    amount_in: u64,
    offset: usize,
    hop_accounts: HopAccounts,
    hop: usize,
    proxy_swap: bool,
)
    requires
        first.len() <= usize::MAX,
        swap_v2_call(
            first,
            amount_in,
            offset,
            hop_accounts,
            hop,
            proxy_swap,
        ) matches Ok(invocation) && second.len()
            >= invocation.next_offset && first.subrange(
            offset as int,
            invocation.next_offset as int,
        ) == second.subrange(offset as int, invocation.next_offset as int),
    ensures
        swap_v2_call(
            second,
            amount_in,
            offset,
            hop_accounts,
            hop,
            proxy_swap,
        ) == swap_v2_call(first, amount_in, offset, hop_accounts, hop, proxy_swap),
{
}

/// What `swap_v2` makes of the accounts depends on what they hold and on nothing else: two
/// lists of accounts that hold the same give the same call, or the same failure.
pub proof fn lemma_swap_v2_call_same(
    first: Seq<AccountInfo>,
    second: Seq<AccountInfo>,
    amount_in: u64,
    offset: usize,
    hop_accounts: HopAccounts,
    hop: usize,
    proxy_swap: bool,
)
    requires
        same_accounts(first, second),
    ensures
        swap_v2_call(
            second,
            amount_in,
            offset,
            hop_accounts,
            hop,
            proxy_swap,
        ) == swap_v2_call(first, amount_in, offset, hop_accounts, hop, proxy_swap),
{
    if first.len() >= offset + V2_ACCOUNTS_LEN {
        let taken = offset + V2_ACCOUNTS_LEN;
        let ours = first.subrange(offset as int, taken);
        let theirs = second.subrange(offset as int, taken);
        assert forall|i: int| 0 <= i < V2_ACCOUNTS_LEN implies same_account(
            &#[trigger] ours[i],
            &theirs[i],
        ) by {
            assert(same_account(&first[offset + i], &second[offset + i]));
        }
    }
}

/// `swap_v2` holds a call to the hop chain before it looks at anything else that the chain
/// bears on. A call that it would hand out at the start of a chain is handed out
/// unchanged where it continues the chain it is given, and is refused for the break
/// where it does not.
pub proof fn lemma_swap_v2_call_chained(
    remaining_accounts: Seq<AccountInfo>,
    amount_in: u64,
    offset: usize,
    hop_accounts: HopAccounts,
    hop: usize,
    proxy_swap: bool,
)
    ensures
        swap_v2_call(
            remaining_accounts,
            amount_in,
            offset,
            HopAccounts::fresh(address(ZERO_ADDRESS)),
            hop,
            proxy_swap,
        ) matches Ok(invocation) ==> swap_v2_call(
            remaining_accounts,
            amount_in,
            offset,
            hop_accounts,
            hop,
            proxy_swap,
        ) == chained(invocation, hop_accounts),
{
}

} // verus!
