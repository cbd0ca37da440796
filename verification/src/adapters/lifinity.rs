//! Lifinity pools, of both kinds.

use crate::account::{
    address, readonly, writable, AccountInfo, AccountMeta, Instruction, InstructionView, Mint,
    Program, ProgramKind, TokenAccount,
};
use crate::adapters::common::{
    account_ref, before_check, before_check_error, chained, continuity_error, invoke_process,
    no_call, no_calls, prepared, same_account, same_accounts, yields, AccountRef, Call, CallView,
    DexProcessor, Invocation, InvocationView,
};
use crate::bytes::{le_bytes, push_le};
use crate::constants::{
    LIFINITY_V1POOL_PROGRAM, LIFINITY_V2POOL_PROGRAM, SWAP_SELECTOR, ZERO_ADDRESS,
};
use crate::error::{Error, ErrorCode};
use crate::instructions::common::HopAccounts;
use vstd::prelude::*;

verus! {

/// Length of the venue's instruction payload.
pub const ARGS_LEN: usize = 24;

/// Number of accounts the venue takes from the flat account list.
pub const ACCOUNTS_LEN: usize = 14;

/// Lifinity pools add nothing around their call.
pub struct LifinityProcessor;

impl DexProcessor for LifinityProcessor {
    open spec fn calls_before(
        &self,
        account_infos: Seq<AccountRef>,
    ) -> Result<Seq<CallView>, Error> {
        no_calls()
    }

    open spec fn calls_after(
        &self,
        account_infos: Seq<AccountRef>,
    ) -> Result<Seq<CallView>, Error> {
        no_calls()
    }

    fn before_invoke(&self, account_infos: &Vec<AccountRef>) -> (r: Result<Vec<Call>, Error>) {
        no_call()
    }

    fn after_invoke(&self, account_infos: &Vec<AccountRef>) -> (r: Result<Vec<Call>, Error>) {
        no_call()
    }
}

/// The accounts of one exchange on a pool of the first kind.
#[derive(Clone, Copy, Debug)]
pub struct LifinitySwapAccountsV1<'info> {
    pub dex_program_id: &'info AccountInfo,
    pub swap_authority_pubkey: &'info AccountInfo,
    pub swap_source_token: TokenAccount<'info>,
    pub swap_destination_token: TokenAccount<'info>,
    pub authority: &'info AccountInfo,
    pub amm_info: &'info AccountInfo,
    pub swap_source: TokenAccount<'info>,
    pub swap_destination: TokenAccount<'info>,
    pub pool_mint: Mint<'info>,
    pub fee_account: &'info AccountInfo,
    pub pyth_account: &'info AccountInfo,
    pub pyth_pc_account: &'info AccountInfo,
    pub config_account: &'info AccountInfo,
    pub token_program: Program<'info>,
}

/// The accounts of one exchange on a pool of the second kind.
#[derive(Clone, Copy, Debug)]
pub struct LifinitySwapAccountsV2<'info> {
    pub dex_program_id: &'info AccountInfo,
    pub swap_authority_pubkey: &'info AccountInfo,
    pub swap_source_token: TokenAccount<'info>,
    pub swap_destination_token: TokenAccount<'info>,
    pub authority: &'info AccountInfo,
    pub amm_info: &'info AccountInfo,
    pub swap_source: TokenAccount<'info>,
    pub swap_destination: TokenAccount<'info>,
    pub pool_mint: Mint<'info>,
    pub fee_account: &'info AccountInfo,
    pub oracle_main_account: &'info AccountInfo,
    pub oracle_sub_account: &'info AccountInfo,
    pub oracle_pc_account: &'info AccountInfo,
    pub token_program: Program<'info>,
}

impl<'info> LifinitySwapAccountsV1<'info> {
    /// The accounts of `slice`, the venue's part of the flat list, each read as what its
    /// place asks for; or the failure of the first that is not that.
    pub open spec fn parsed(
        slice: Seq<AccountInfo>,
    ) -> Result<LifinitySwapAccountsV1<'info>, Error> {
        let swap_source_token = TokenAccount::parsed(&slice[2]);
        let swap_destination_token = TokenAccount::parsed(&slice[3]);
        let swap_source = TokenAccount::parsed(&slice[6]);
        let swap_destination = TokenAccount::parsed(&slice[7]);
        let pool_mint = Mint::parsed(&slice[8]);
        let token_program = Program::parsed(&slice[13], ProgramKind::Token);
        if swap_source_token is Err {
            Err(swap_source_token->Err_0)
        } else if swap_destination_token is Err {
            Err(swap_destination_token->Err_0)
        } else if swap_source is Err {
            Err(swap_source->Err_0)
        } else if swap_destination is Err {
            Err(swap_destination->Err_0)
        } else if pool_mint is Err {
            Err(pool_mint->Err_0)
        } else if token_program is Err {
            Err(token_program->Err_0)
        } else {
            Ok(
                LifinitySwapAccountsV1 {
                    dex_program_id: &slice[0],
                    swap_authority_pubkey: &slice[1],
                    swap_source_token: swap_source_token->Ok_0,
                    swap_destination_token: swap_destination_token->Ok_0,
                    authority: &slice[4],
                    amm_info: &slice[5],
                    swap_source: swap_source->Ok_0,
                    swap_destination: swap_destination->Ok_0,
                    pool_mint: pool_mint->Ok_0,
                    fee_account: &slice[9],
                    pyth_account: &slice[10],
                    pyth_pc_account: &slice[11],
                    config_account: &slice[12],
                    token_program: token_program->Ok_0,
                },
            )
        }
    }

    fn parse_accounts(accounts: &'info [AccountInfo], offset: usize) -> (r: Result<
        LifinitySwapAccountsV1<'info>,
        Error,
    >)
        requires
            offset + ACCOUNTS_LEN <= accounts@.len(),
        ensures
            r == Self::parsed(accounts@.subrange(offset as int, offset + ACCOUNTS_LEN)),
    {
        Ok(
            LifinitySwapAccountsV1 {
                dex_program_id: &accounts[offset],
                swap_authority_pubkey: &accounts[offset + 1],
                swap_source_token: TokenAccount::try_from(&accounts[offset + 2])?,
                swap_destination_token: TokenAccount::try_from(&accounts[offset + 3])?,
                authority: &accounts[offset + 4],
                amm_info: &accounts[offset + 5],
                swap_source: TokenAccount::try_from(&accounts[offset + 6])?,
                swap_destination: TokenAccount::try_from(&accounts[offset + 7])?,
                pool_mint: Mint::try_from(&accounts[offset + 8])?,
                fee_account: &accounts[offset + 9],
                pyth_account: &accounts[offset + 10],
                pyth_pc_account: &accounts[offset + 11],
                config_account: &accounts[offset + 12],
                token_program: Program::try_from(&accounts[offset + 13], ProgramKind::Token)?,
            },
        )
    }
}

impl<'info> LifinitySwapAccountsV2<'info> {
    /// The accounts of `slice`, the venue's part of the flat list, each read as what its
    /// place asks for; or the failure of the first that is not that.
    pub open spec fn parsed(
        slice: Seq<AccountInfo>,
    ) -> Result<LifinitySwapAccountsV2<'info>, Error> {
        let swap_source_token = TokenAccount::parsed(&slice[2]);
        let swap_destination_token = TokenAccount::parsed(&slice[3]);
        let swap_source = TokenAccount::parsed(&slice[6]);
        let swap_destination = TokenAccount::parsed(&slice[7]);
        let pool_mint = Mint::parsed(&slice[8]);
        let token_program = Program::parsed(&slice[13], ProgramKind::Token);
        if swap_source_token is Err {
            Err(swap_source_token->Err_0)
        } else if swap_destination_token is Err {
            Err(swap_destination_token->Err_0)
        } else if swap_source is Err {
            Err(swap_source->Err_0)
        } else if swap_destination is Err {
            Err(swap_destination->Err_0)
        } else if pool_mint is Err {
            Err(pool_mint->Err_0)
        } else if token_program is Err {
            Err(token_program->Err_0)
        } else {
            Ok(
                LifinitySwapAccountsV2 {
                    dex_program_id: &slice[0],
                    swap_authority_pubkey: &slice[1],
                    swap_source_token: swap_source_token->Ok_0,
                    swap_destination_token: swap_destination_token->Ok_0,
                    authority: &slice[4],
                    amm_info: &slice[5],
                    swap_source: swap_source->Ok_0,
                    swap_destination: swap_destination->Ok_0,
                    pool_mint: pool_mint->Ok_0,
                    fee_account: &slice[9],
                    oracle_main_account: &slice[10],
                    oracle_sub_account: &slice[11],
                    oracle_pc_account: &slice[12],
                    token_program: token_program->Ok_0,
                },
            )
        }
    }

    fn parse_accounts(accounts: &'info [AccountInfo], offset: usize) -> (r: Result<
        LifinitySwapAccountsV2<'info>,
        Error,
    >)
        requires
            offset + ACCOUNTS_LEN <= accounts@.len(),
        ensures
            r == Self::parsed(accounts@.subrange(offset as int, offset + ACCOUNTS_LEN)),
    {
        Ok(
            LifinitySwapAccountsV2 {
                dex_program_id: &accounts[offset],
                swap_authority_pubkey: &accounts[offset + 1],
                swap_source_token: TokenAccount::try_from(&accounts[offset + 2])?,
                swap_destination_token: TokenAccount::try_from(&accounts[offset + 3])?,
                authority: &accounts[offset + 4],
                amm_info: &accounts[offset + 5],
                swap_source: TokenAccount::try_from(&accounts[offset + 6])?,
                swap_destination: TokenAccount::try_from(&accounts[offset + 7])?,
                pool_mint: Mint::try_from(&accounts[offset + 8])?,
                fee_account: &accounts[offset + 9],
                oracle_main_account: &accounts[offset + 10],
                oracle_sub_account: &accounts[offset + 11],
                oracle_pc_account: &accounts[offset + 12],
                token_program: Program::try_from(&accounts[offset + 13], ProgramKind::Token)?,
            },
        )
    }
}

/// The payload of an exchange: the selector of the instruction, the amount to sell and the
/// least amount to take for it.
pub open spec fn swap_data(amount_in: u64, minimum_amount_out: u64) -> Seq<u8> {
    SWAP_SELECTOR@ + le_bytes(amount_in as nat, 8) + le_bytes(minimum_amount_out as nat, 8)
}

/// The payload of an exchange: the selector of the instruction, the amount to sell and the
/// least amount to take for it.
pub fn pack_swap_instruction(amount_in: u64, minimum_amount_out: u64) -> (data: Vec<u8>)
    ensures
        data@ == swap_data(amount_in, minimum_amount_out),
        data@.len() == ARGS_LEN,
{
    let mut data: Vec<u8> = Vec::with_capacity(ARGS_LEN);
    data.extend_from_slice(&SWAP_SELECTOR);
    push_le(&mut data, amount_in as u128, 8);
    push_le(&mut data, minimum_amount_out as u128, 8);
    data
}

impl<'info> LifinitySwapAccountsV1<'info> {
    /// The accounts of the venue's instruction, in the order the venue wants them.
    pub open spec fn swap_v1_metas(&self) -> Seq<AccountMeta> {
        seq![
            readonly(self.authority.key, false),
            readonly(self.amm_info.key, false),
            readonly(self.swap_authority_pubkey.key, true),
            writable(self.swap_source_token.info.key, false),
            writable(self.swap_destination_token.info.key, false),
            writable(self.swap_source.info.key, false),
            writable(self.swap_destination.info.key, false),
            writable(self.pool_mint.info.key, false),
            writable(self.fee_account.key, false),
            readonly(self.token_program.info.key, false),
            readonly(self.pyth_account.key, false),
            readonly(self.pyth_pc_account.key, false),
            writable(self.config_account.key, false),
        ]
    }

    /// The accounts handed to the call.
    pub open spec fn swap_v1_infos(&self, offset: usize) -> Seq<AccountRef> {
        seq![
            account_ref(self.authority.key, offset, 4),
            account_ref(self.amm_info.key, offset, 5),
            account_ref(self.swap_authority_pubkey.key, offset, 1),
            account_ref(self.swap_source_token.info.key, offset, 2),
            account_ref(self.swap_destination_token.info.key, offset, 3),
            account_ref(self.swap_source.info.key, offset, 6),
            account_ref(self.swap_destination.info.key, offset, 7),
            account_ref(self.pool_mint.info.key, offset, 8),
            account_ref(self.fee_account.key, offset, 9),
            account_ref(self.token_program.info.key, offset, 13),
            account_ref(self.pyth_account.key, offset, 10),
            account_ref(self.pyth_pc_account.key, offset, 11),
            account_ref(self.config_account.key, offset, 12),
        ]
    }

    /// The call these accounts make for `amount_in` in the given hop, or why none is made.
    pub open spec fn swap_v1(
        &self,
        amount_in: u64,
        offset: usize,
        hop_accounts: HopAccounts,
        hop: usize,
        proxy_swap: bool,
    ) -> Result<InvocationView, Error> {
        if self.dex_program_id.key != address(LIFINITY_V1POOL_PROGRAM) {
            Err(Error::Router(ErrorCode::InvalidProgramId))
        } else {
            match before_check_error(
                self.swap_authority_pubkey,
                self.swap_source_token.info.key,
                self.swap_destination_token.info.key,
                hop_accounts,
                hop,
                proxy_swap,
            ) {
                Some(e) => Err(e),
                None => {
                    prepared(
                        &LifinityProcessor,
                        self.swap_v1_infos(offset),
                        self.swap_source_token.info.key,
                        self.swap_destination_token,
                        (offset + 3) as usize,
                        InstructionView {
                            program_id: self.dex_program_id.key,
                            accounts: self.swap_v1_metas(),
                            data: swap_data(amount_in, 1u64),
                        },
                        hop,
                        offset,
                        ACCOUNTS_LEN,
                        proxy_swap,
                    )
                },
            }
        }
    }
}

impl<'info> LifinitySwapAccountsV2<'info> {
    /// The accounts of the venue's instruction, in the order the venue wants them.
    pub open spec fn swap_v2_metas(&self) -> Seq<AccountMeta> {
        seq![
            readonly(self.authority.key, false),
            writable(self.amm_info.key, false),
            readonly(self.swap_authority_pubkey.key, true),
            writable(self.swap_source_token.info.key, false),
            writable(self.swap_destination_token.info.key, false),
            writable(self.swap_source.info.key, false),
            writable(self.swap_destination.info.key, false),
            writable(self.pool_mint.info.key, false),
            writable(self.fee_account.key, false),
            readonly(self.token_program.info.key, false),
            readonly(self.oracle_main_account.key, false),
            readonly(self.oracle_sub_account.key, false),
            readonly(self.oracle_pc_account.key, false),
        ]
    }

    /// The accounts handed to the call.
    pub open spec fn swap_v2_infos(&self, offset: usize) -> Seq<AccountRef> {
        seq![
            account_ref(self.authority.key, offset, 4),
            account_ref(self.amm_info.key, offset, 5),
            account_ref(self.swap_authority_pubkey.key, offset, 1),
            account_ref(self.swap_source_token.info.key, offset, 2),
            account_ref(self.swap_destination_token.info.key, offset, 3),
            account_ref(self.swap_source.info.key, offset, 6),
            account_ref(self.swap_destination.info.key, offset, 7),
            account_ref(self.pool_mint.info.key, offset, 8),
            account_ref(self.fee_account.key, offset, 9),
            account_ref(self.token_program.info.key, offset, 13),
            account_ref(self.oracle_main_account.key, offset, 10),
            account_ref(self.oracle_sub_account.key, offset, 11),
            account_ref(self.oracle_pc_account.key, offset, 12),
        ]
    }

    /// The call these accounts make for `amount_in` in the given hop, or why none is made.
    pub open spec fn swap_v2(
        &self,
        amount_in: u64,
        offset: usize,
        hop_accounts: HopAccounts,
        hop: usize,
        proxy_swap: bool,
    ) -> Result<InvocationView, Error> {
        if self.dex_program_id.key != address(LIFINITY_V2POOL_PROGRAM) {
            Err(Error::Router(ErrorCode::InvalidProgramId))
        } else {
            match before_check_error(
                self.swap_authority_pubkey,
                self.swap_source_token.info.key,
                self.swap_destination_token.info.key,
                hop_accounts,
                hop,
                proxy_swap,
            ) {
                Some(e) => Err(e),
                None => {
                    prepared(
                        &LifinityProcessor,
                        self.swap_v2_infos(offset),
                        self.swap_source_token.info.key,
                        self.swap_destination_token,
                        (offset + 3) as usize,
                        InstructionView {
                            program_id: self.dex_program_id.key,
                            accounts: self.swap_v2_metas(),
                            data: swap_data(amount_in, 1u64),
                        },
                        hop,
                        offset,
                        ACCOUNTS_LEN,
                        proxy_swap,
                    )
                },
            }
        }
    }
}

/// What `swap_v1` makes of the accounts at the cursor: the call, or the reason why none is
/// made. It reads no account outside the venue's part of the list.
pub open spec fn swap_v1_call(
    remaining_accounts: Seq<AccountInfo>,
    amount_in: u64,
    offset: usize,
    hop_accounts: HopAccounts,
    hop: usize,
    proxy_swap: bool,
) -> Result<InvocationView, Error> {
    if remaining_accounts.len() < offset + ACCOUNTS_LEN {
        Err(Error::Router(ErrorCode::InvalidAccountsLength))
    } else {
        match LifinitySwapAccountsV1::parsed(
            remaining_accounts.subrange(offset as int, offset + ACCOUNTS_LEN),
        ) {
            Err(e) => Err(e),
            Ok(swap_accounts) => swap_accounts.swap_v1(
                amount_in,
                offset,
                hop_accounts,
                hop,
                proxy_swap,
            ),
        }
    }
}

/// What `swap_v1` makes of the venue's accounts once they are read.
pub fn handle_swap_v1(
    swap_accounts: &LifinitySwapAccountsV1,
    amount_in: u64,
    offset: usize,
    hop_accounts: &HopAccounts,
    hop: usize,
    proxy_swap: bool,
) -> (r: Result<Invocation, Error>)
    requires
        offset + ACCOUNTS_LEN <= usize::MAX,
    ensures
        yields(r, swap_accounts.swap_v1(amount_in, offset, *hop_accounts, hop, proxy_swap)),
{
    if !swap_accounts.dex_program_id.key.is(LIFINITY_V1POOL_PROGRAM) {
        return Err(Error::Router(ErrorCode::InvalidProgramId));
    }

    // check hop accounts & swap authority
    let swap_source_token = swap_accounts.swap_source_token.key();
    let swap_destination_token = swap_accounts.swap_destination_token.key();
    before_check(
        swap_accounts.swap_authority_pubkey,
        swap_source_token,
        swap_destination_token,
        hop_accounts,
        hop,
        proxy_swap,
    )?;

    let data = pack_swap_instruction(amount_in, 1u64);

    let accounts = vec![
        AccountMeta::new_readonly(swap_accounts.authority.key, false),
        AccountMeta::new_readonly(swap_accounts.amm_info.key, false),
        AccountMeta::new_readonly(swap_accounts.swap_authority_pubkey.key, true),
        AccountMeta::new(swap_accounts.swap_source_token.info.key, false),
        AccountMeta::new(swap_accounts.swap_destination_token.info.key, false),
        AccountMeta::new(swap_accounts.swap_source.info.key, false),
        AccountMeta::new(swap_accounts.swap_destination.info.key, false),
        AccountMeta::new(swap_accounts.pool_mint.info.key, false),
        AccountMeta::new(swap_accounts.fee_account.key, false),
        AccountMeta::new_readonly(swap_accounts.token_program.info.key, false),
        AccountMeta::new_readonly(swap_accounts.pyth_account.key, false),
        AccountMeta::new_readonly(swap_accounts.pyth_pc_account.key, false),
        AccountMeta::new(swap_accounts.config_account.key, false),
    ];

    let account_infos = vec![
        AccountRef { place: offset + 4, key: swap_accounts.authority.key },
        AccountRef { place: offset + 5, key: swap_accounts.amm_info.key },
        AccountRef { place: offset + 1, key: swap_accounts.swap_authority_pubkey.key },
        AccountRef { place: offset + 2, key: swap_accounts.swap_source_token.info.key },
        AccountRef { place: offset + 3, key: swap_accounts.swap_destination_token.info.key },
        AccountRef { place: offset + 6, key: swap_accounts.swap_source.info.key },
        AccountRef { place: offset + 7, key: swap_accounts.swap_destination.info.key },
        AccountRef { place: offset + 8, key: swap_accounts.pool_mint.info.key },
        AccountRef { place: offset + 9, key: swap_accounts.fee_account.key },
        AccountRef { place: offset + 13, key: swap_accounts.token_program.info.key },
        AccountRef { place: offset + 10, key: swap_accounts.pyth_account.key },
        AccountRef { place: offset + 11, key: swap_accounts.pyth_pc_account.key },
        AccountRef { place: offset + 12, key: swap_accounts.config_account.key },
    ];
    proof {
        assert(accounts@ =~= swap_accounts.swap_v1_metas());
        assert(account_infos@ =~= swap_accounts.swap_v1_infos(offset));
    }

    let instruction = Instruction {
        program_id: swap_accounts.dex_program_id.key,
        accounts,
        data,
    };

    invoke_process(
        &LifinityProcessor,
        account_infos,
        swap_source_token,
        &swap_accounts.swap_destination_token,
        offset + 3,
        instruction,
        hop,
        offset,
        ACCOUNTS_LEN,
        proxy_swap,
    )
}

/// Prepares an exchange on a pool of the first kind.
pub fn swap_v1<'info>(
    remaining_accounts: &'info [AccountInfo],
    amount_in: u64,
    offset: usize,
    hop_accounts: &HopAccounts,
    hop: usize,
    proxy_swap: bool,
) -> (r: Result<Invocation, Error>)
    ensures
        yields(
            r,
            swap_v1_call(remaining_accounts@, amount_in, offset, *hop_accounts, hop, proxy_swap),
        ),
{
    if remaining_accounts.len() < ACCOUNTS_LEN || offset > remaining_accounts.len()
        - ACCOUNTS_LEN {
        return Err(Error::Router(ErrorCode::InvalidAccountsLength));
    }
    let swap_accounts = LifinitySwapAccountsV1::parse_accounts(remaining_accounts, offset)?;
    handle_swap_v1(&swap_accounts, amount_in, offset, hop_accounts, hop, proxy_swap)
}

/// Every call that `swap_v1` hands out continues the hop chain, draws on the venue's own
/// accounts, and leaves the cursor right behind them.
pub proof fn lemma_swap_v1_call(
    remaining_accounts: Seq<AccountInfo>,
    amount_in: u64,
    offset: usize,
    hop_accounts: HopAccounts,
    hop: usize,
    proxy_swap: bool,
)
    requires
        remaining_accounts.len() <= usize::MAX,
    ensures
        swap_v1_call(
            remaining_accounts,
            amount_in,
            offset,
            hop_accounts,
            hop,
            proxy_swap,
        ) matches Ok(invocation) ==> {
            &&& continuity_error(
                invocation.swap_source_token,
                invocation.swap_destination_token,
                hop_accounts,
            ) is None
            &&& invocation.next_offset == offset + ACCOUNTS_LEN
            &&& invocation.next_offset <= remaining_accounts.len()
            &&& offset <= invocation.destination < invocation.next_offset
        },
{
}

/// A call that `swap_v1` hands out is made of the venue's part of the account list alone:
/// any list with the same accounts in that part gives the same call.
pub proof fn lemma_swap_v1_call_local(
    first: Seq<AccountInfo>,
    second: Seq<AccountInfo>,
    amount_in: u64,
    offset: usize,
    hop_accounts: HopAccounts,
    hop: usize,
    proxy_swap: bool,
)
    requires
        first.len() <= usize::MAX,
        swap_v1_call(
            first,
            amount_in,
            offset,
            hop_accounts,
            hop,
            proxy_swap,
        ) matches Ok(invocation) && second.len()
            >= invocation.next_offset && first.subrange(
            offset as int,
            invocation.next_offset as int,
        ) == second.subrange(offset as int, invocation.next_offset as int),
    ensures
        swap_v1_call(
            second,
            amount_in,
            offset,
            hop_accounts,
            hop,
            proxy_swap,
        ) == swap_v1_call(first, amount_in, offset, hop_accounts, hop, proxy_swap),
{
}

/// What `swap_v1` makes of the accounts depends on what they hold and on nothing else: two
/// lists of accounts that hold the same give the same call, or the same failure.
pub proof fn lemma_swap_v1_call_same(
    first: Seq<AccountInfo>,
    second: Seq<AccountInfo>,
    amount_in: u64,
    offset: usize,
    hop_accounts: HopAccounts,
    hop: usize,
    proxy_swap: bool,
)
    requires
        same_accounts(first, second),
    ensures
        swap_v1_call(
            second,
            amount_in,
            offset,
            hop_accounts,
            hop,
            proxy_swap,
        ) == swap_v1_call(first, amount_in, offset, hop_accounts, hop, proxy_swap),
{
    if first.len() >= offset + ACCOUNTS_LEN {
        let taken = offset + ACCOUNTS_LEN;
        let ours = first.subrange(offset as int, taken);
        let theirs = second.subrange(offset as int, taken);
        assert forall|i: int| 0 <= i < ACCOUNTS_LEN implies same_account(
            &#[trigger] ours[i],
            &theirs[i],
        ) by {
            assert(same_account(&first[offset + i], &second[offset + i]));
        }
    }
}

/// `swap_v1` holds a call to the hop chain before it looks at anything else that the chain
/// bears on. A call that it would hand out at the start of a chain is handed out
/// unchanged where it continues the chain it is given, and is refused for the break
/// where it does not.
pub proof fn lemma_swap_v1_call_chained(
    remaining_accounts: Seq<AccountInfo>,
    amount_in: u64,
    offset: usize,
    hop_accounts: HopAccounts,
    hop: usize,
    proxy_swap: bool,
)
    ensures
        swap_v1_call(
            remaining_accounts,
            amount_in,
            offset,
            HopAccounts::fresh(address(ZERO_ADDRESS)),
            hop,
            proxy_swap,
        ) matches Ok(invocation) ==> swap_v1_call(
            remaining_accounts,
            amount_in,
            offset,
            hop_accounts,
            hop,
            proxy_swap,
        ) == chained(invocation, hop_accounts),
{
}

/// What `swap_v2` makes of the accounts at the cursor: the call, or the reason why none is
/// made. It reads no account outside the venue's part of the list.
pub open spec fn swap_v2_call(
    remaining_accounts: Seq<AccountInfo>,
    amount_in: u64,
    offset: usize,
    hop_accounts: HopAccounts,
    hop: usize,
    proxy_swap: bool,
) -> Result<InvocationView, Error> {
    if remaining_accounts.len() < offset + ACCOUNTS_LEN {
        Err(Error::Router(ErrorCode::InvalidAccountsLength))
    } else {
        match LifinitySwapAccountsV2::parsed(
            remaining_accounts.subrange(offset as int, offset + ACCOUNTS_LEN),
        ) {
            Err(e) => Err(e),
            Ok(swap_accounts) => swap_accounts.swap_v2(
                amount_in,
                offset,
                hop_accounts,
                hop,
                proxy_swap,
            ),
        }
    }
}

/// What `swap_v2` makes of the venue's accounts once they are read.
pub fn handle_swap_v2(
    swap_accounts: &LifinitySwapAccountsV2,
    amount_in: u64,
    offset: usize,
    hop_accounts: &HopAccounts,
    hop: usize,
    proxy_swap: bool,
) -> (r: Result<Invocation, Error>)
    requires
        offset + ACCOUNTS_LEN <= usize::MAX,
    ensures
        yields(r, swap_accounts.swap_v2(amount_in, offset, *hop_accounts, hop, proxy_swap)),
{
    if !swap_accounts.dex_program_id.key.is(LIFINITY_V2POOL_PROGRAM) {
        return Err(Error::Router(ErrorCode::InvalidProgramId));
    }

    // check hop accounts & swap authority
    let swap_source_token = swap_accounts.swap_source_token.key();
    let swap_destination_token = swap_accounts.swap_destination_token.key();
    before_check(
        swap_accounts.swap_authority_pubkey,
        swap_source_token,
        swap_destination_token,
        hop_accounts,
        hop,
        proxy_swap,
    )?;

    let data = pack_swap_instruction(amount_in, 1u64);

    let accounts = vec![
        AccountMeta::new_readonly(swap_accounts.authority.key, false),
        AccountMeta::new(swap_accounts.amm_info.key, false),
        AccountMeta::new_readonly(swap_accounts.swap_authority_pubkey.key, true),
        AccountMeta::new(swap_accounts.swap_source_token.info.key, false),
        AccountMeta::new(swap_accounts.swap_destination_token.info.key, false),
        AccountMeta::new(swap_accounts.swap_source.info.key, false),
        AccountMeta::new(swap_accounts.swap_destination.info.key, false),
        AccountMeta::new(swap_accounts.pool_mint.info.key, false),
        AccountMeta::new(swap_accounts.fee_account.key, false),
        AccountMeta::new_readonly(swap_accounts.token_program.info.key, false),
        AccountMeta::new_readonly(swap_accounts.oracle_main_account.key, false),
        AccountMeta::new_readonly(swap_accounts.oracle_sub_account.key, false),
        AccountMeta::new_readonly(swap_accounts.oracle_pc_account.key, false),
    ];

    let account_infos = vec![
        AccountRef { place: offset + 4, key: swap_accounts.authority.key },
        AccountRef { place: offset + 5, key: swap_accounts.amm_info.key },
        AccountRef { place: offset + 1, key: swap_accounts.swap_authority_pubkey.key },
        AccountRef { place: offset + 2, key: swap_accounts.swap_source_token.info.key },
        AccountRef { place: offset + 3, key: swap_accounts.swap_destination_token.info.key },
        AccountRef { place: offset + 6, key: swap_accounts.swap_source.info.key },
        AccountRef { place: offset + 7, key: swap_accounts.swap_destination.info.key },
        AccountRef { place: offset + 8, key: swap_accounts.pool_mint.info.key },
        AccountRef { place: offset + 9, key: swap_accounts.fee_account.key },
        AccountRef { place: offset + 13, key: swap_accounts.token_program.info.key },
        AccountRef { place: offset + 10, key: swap_accounts.oracle_main_account.key },
        AccountRef { place: offset + 11, key: swap_accounts.oracle_sub_account.key },
        AccountRef { place: offset + 12, key: swap_accounts.oracle_pc_account.key },
    ];
    proof {
        assert(accounts@ =~= swap_accounts.swap_v2_metas());
        assert(account_infos@ =~= swap_accounts.swap_v2_infos(offset));
    }

    let instruction = Instruction {
        program_id: swap_accounts.dex_program_id.key,
        accounts,
        data,
    };

    invoke_process(
        &LifinityProcessor,
        account_infos,
        swap_source_token,
        &swap_accounts.swap_destination_token,
        offset + 3,
        instruction,
        hop,
        offset,
        ACCOUNTS_LEN,
        proxy_swap,
    )
}

/// Prepares an exchange on a pool of the second kind.
pub fn swap_v2<'info>(
    remaining_accounts: &'info [AccountInfo],
    amount_in: u64,
    offset: usize,
    hop_accounts: &HopAccounts,
    hop: usize,
    proxy_swap: bool,
) -> (r: Result<Invocation, Error>)
    ensures
        yields(
            r,
            swap_v2_call(remaining_accounts@, amount_in, offset, *hop_accounts, hop, proxy_swap),
        ),
{
    if remaining_accounts.len() < ACCOUNTS_LEN || offset > remaining_accounts.len()
        - ACCOUNTS_LEN {
        return Err(Error::Router(ErrorCode::InvalidAccountsLength));
    }
    let swap_accounts = LifinitySwapAccountsV2::parse_accounts(remaining_accounts, offset)?;
    handle_swap_v2(&swap_accounts, amount_in, offset, hop_accounts, hop, proxy_swap)
}

/// Every call that `swap_v2` hands out continues the hop chain, draws on the venue's own
/// accounts, and leaves the cursor right behind them.
pub proof fn lemma_swap_v2_call(
    remaining_accounts: Seq<AccountInfo>,
    amount_in: u64,
    offset: usize,
    hop_accounts: HopAccounts,
    hop: usize,
    proxy_swap: bool,
)
    requires
        remaining_accounts.len() <= usize::MAX,
    ensures
        swap_v2_call(
            remaining_accounts,
            amount_in,
            offset,
            hop_accounts,
            hop,
            proxy_swap,
        ) matches Ok(invocation) ==> {
            &&& continuity_error(
                invocation.swap_source_token,
                invocation.swap_destination_token,
                hop_accounts,
            ) is None
            &&& invocation.next_offset == offset + ACCOUNTS_LEN
            &&& invocation.next_offset <= remaining_accounts.len()
            &&& offset <= invocation.destination < invocation.next_offset
        },
{
}

/// A call that `swap_v2` hands out is made of the venue's part of the account list alone:
/// any list with the same accounts in that part gives the same call.
pub proof fn lemma_swap_v2_call_local(
    first: Seq<AccountInfo>,
    second: Seq<AccountInfo>,
    amount_in: u64,
    offset: usize,
    hop_accounts: HopAccounts,
    hop: usize,
    proxy_swap: bool,
)
    requires
        first.len() <= usize::MAX,
        swap_v2_call(
            first,
            amount_in,
            offset,
            hop_accounts,
            hop,
            proxy_swap,
        ) matches Ok(invocation) && second.len()
            >= invocation.next_offset && first.subrange(
            offset as int,
            invocation.next_offset as int,
        ) == second.subrange(offset as int, invocation.next_offset as int),
    ensures
        swap_v2_call(
            second,
            amount_in,
            offset,
            hop_accounts,
            hop,
            proxy_swap,
        ) == swap_v2_call(first, amount_in, offset, hop_accounts, hop, proxy_swap),
{
}

/// What `swap_v2` makes of the accounts depends on what they hold and on nothing else: two
/// lists of accounts that hold the same give the same call, or the same failure.
pub proof fn lemma_swap_v2_call_same(
    first: Seq<AccountInfo>,
    second: Seq<AccountInfo>,
    amount_in: u64,
    offset: usize,
    hop_accounts: HopAccounts,
    hop: usize,
    proxy_swap: bool,
)
    requires
        same_accounts(first, second),
    ensures
        swap_v2_call(
            second,
            amount_in,
            offset,
            hop_accounts,
            hop,
            proxy_swap,
        ) == swap_v2_call(first, amount_in, offset, hop_accounts, hop, proxy_swap),
{
    if first.len() >= offset + ACCOUNTS_LEN {
        let taken = offset + ACCOUNTS_LEN;
        let ours = first.subrange(offset as int, taken);
        let theirs = second.subrange(offset as int, taken);
        assert forall|i: int| 0 <= i < ACCOUNTS_LEN implies same_account(
            &#[trigger] ours[i],
            &theirs[i],
        ) by {
            assert(same_account(&first[offset + i], &second[offset + i]));
        }
    }
}

/// `swap_v2` holds a call to the hop chain before it looks at anything else that the chain
/// bears on. A call that it would hand out at the start of a chain is handed out
/// unchanged where it continues the chain it is given, and is refused for the break
/// where it does not.
pub proof fn lemma_swap_v2_call_chained(
    remaining_accounts: Seq<AccountInfo>,
    amount_in: u64,
    offset: usize,
    hop_accounts: HopAccounts,
    hop: usize,
    proxy_swap: bool,
)
    ensures
        swap_v2_call(
            remaining_accounts,
            amount_in,
            offset,
            HopAccounts::fresh(address(ZERO_ADDRESS)),
            hop,
            proxy_swap,
        ) matches Ok(invocation) ==> swap_v2_call(
            remaining_accounts,
            amount_in,
            offset,
            hop_accounts,
            hop,
            proxy_swap,
        ) == chained(invocation, hop_accounts),
{
}

} // verus!
