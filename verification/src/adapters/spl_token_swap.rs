//! Token-swap pools.

use crate::account::{
    address, readonly, writable, AccountInfo, AccountMeta, Instruction, InstructionView, Program,
    ProgramKind, TokenAccount,
};
use crate::adapters::common::{
    account_ref, before_check, before_check_error, chained, continuity_error, direction,
    find_direction, invoke_process, no_call, no_calls, prepared, same_account, same_accounts,
    yields, AccountRef, Call, CallView, DexProcessor, Invocation, InvocationView,
};
use crate::bytes::{le_bytes, push_le};
use crate::constants::ZERO_ADDRESS;
use crate::error::{Error, ErrorCode};
use crate::instructions::common::HopAccounts;
use vstd::prelude::*;

verus! {

/// Length of the venue's instruction payload.
pub const ARGS_LEN: usize = 17;

/// Number of accounts the venue takes from the flat account list.
pub const ACCOUNTS_LEN: usize = 11;

/// Token-swap pools add nothing around their call.
pub struct SplTokenSwapProcessor;

impl DexProcessor for SplTokenSwapProcessor {
    open spec fn calls_before(
        &self,
        account_infos: Seq<AccountRef>,
    ) -> Result<Seq<CallView>, Error> {
        no_calls()
    }

    open spec fn calls_after(
        &self,
        account_infos: Seq<AccountRef>,
    ) -> Result<Seq<CallView>, Error> {
        no_calls()
    }

    fn before_invoke(&self, account_infos: &Vec<AccountRef>) -> (r: Result<Vec<Call>, Error>) {
        no_call()
    }

    fn after_invoke(&self, account_infos: &Vec<AccountRef>) -> (r: Result<Vec<Call>, Error>) {
        no_call()
    }
}

/// The accounts of one exchange on a token-swap pool.
#[derive(Clone, Copy, Debug)]
pub struct SplTokenSwapAccounts<'info> {
    pub dex_program_id: &'info AccountInfo,
    pub swap_authority_pubkey: &'info AccountInfo,
    pub swap_source_token: TokenAccount<'info>,
    pub swap_destination_token: TokenAccount<'info>,
    pub swap_info: &'info AccountInfo,
    pub authority_acc_info: &'info AccountInfo,
    pub token_a_account: TokenAccount<'info>,
    pub token_b_account: TokenAccount<'info>,
    pub pool_mint: &'info AccountInfo,
    pub pool_fee: TokenAccount<'info>,
    pub token_program: Program<'info>,
}

impl<'info> SplTokenSwapAccounts<'info> {
    /// The accounts of `slice`, the venue's part of the flat list, each read as what its
    /// place asks for; or the failure of the first that is not that.
    pub open spec fn parsed(slice: Seq<AccountInfo>) -> Result<SplTokenSwapAccounts<'info>, Error> {
        let swap_source_token = TokenAccount::parsed(&slice[2]);
        let swap_destination_token = TokenAccount::parsed(&slice[3]);
        let token_a_account = TokenAccount::parsed(&slice[6]);
        let token_b_account = TokenAccount::parsed(&slice[7]);
        let pool_fee = TokenAccount::parsed(&slice[9]);
        let token_program = Program::parsed(&slice[10], ProgramKind::Token);
        if swap_source_token is Err {
            Err(swap_source_token->Err_0)
        } else if swap_destination_token is Err {
            Err(swap_destination_token->Err_0)
        } else if token_a_account is Err {
            Err(token_a_account->Err_0)
        } else if token_b_account is Err {
            Err(token_b_account->Err_0)
        } else if pool_fee is Err {
            Err(pool_fee->Err_0)
        } else if token_program is Err {
            Err(token_program->Err_0)
        } else {
            Ok(
                SplTokenSwapAccounts {
                    dex_program_id: &slice[0],
                    swap_authority_pubkey: &slice[1],
                    swap_source_token: swap_source_token->Ok_0,
                    swap_destination_token: swap_destination_token->Ok_0,
                    swap_info: &slice[4],
                    authority_acc_info: &slice[5],
                    token_a_account: token_a_account->Ok_0,
                    token_b_account: token_b_account->Ok_0,
                    pool_mint: &slice[8],
                    pool_fee: pool_fee->Ok_0,
                    token_program: token_program->Ok_0,
                },
            )
        }
    }

    fn parse_accounts(accounts: &'info [AccountInfo], offset: usize) -> (r: Result<
        SplTokenSwapAccounts<'info>,
        Error,
    >)
        requires
            offset + ACCOUNTS_LEN <= accounts@.len(),
        ensures
            r == Self::parsed(accounts@.subrange(offset as int, offset + ACCOUNTS_LEN)),
    {
        Ok(
            SplTokenSwapAccounts {
                dex_program_id: &accounts[offset],
                swap_authority_pubkey: &accounts[offset + 1],
                swap_source_token: TokenAccount::try_from(&accounts[offset + 2])?,
                swap_destination_token: TokenAccount::try_from(&accounts[offset + 3])?,
                swap_info: &accounts[offset + 4],
                authority_acc_info: &accounts[offset + 5],
                token_a_account: TokenAccount::try_from(&accounts[offset + 6])?,
                token_b_account: TokenAccount::try_from(&accounts[offset + 7])?,
                pool_mint: &accounts[offset + 8],
                pool_fee: TokenAccount::try_from(&accounts[offset + 9])?,
                token_program: Program::try_from(&accounts[offset + 10], ProgramKind::Token)?,
            },
        )
    }
}

/// The payload of an exchange: the tag of the instruction, the amount to sell and the least
/// amount to take for it.
pub open spec fn swap_data(amount_in: u64, minimum_amount_out: u64) -> Seq<u8> {
    seq![1u8] + le_bytes(amount_in as nat, 8) + le_bytes(minimum_amount_out as nat, 8)
}

/// The payload of an exchange: the tag of the instruction, the amount to sell and the least
/// amount to take for it.
pub fn pack_swap_instruction(amount_in: u64, minimum_amount_out: u64) -> (data: Vec<u8>)
    ensures
        data@ == swap_data(amount_in, minimum_amount_out),
        data@.len() == ARGS_LEN,
{
    let mut data: Vec<u8> = Vec::with_capacity(ARGS_LEN);
    data.push(1u8);
    push_le(&mut data, amount_in as u128, 8);
    push_le(&mut data, minimum_amount_out as u128, 8);
    data
}

impl<'info> SplTokenSwapAccounts<'info> {
    /// The accounts of the venue's instruction, in the order the venue wants them.
    pub open spec fn swap_metas(&self, forward: bool) -> Seq<AccountMeta> {
        seq![
            readonly(self.swap_info.key, false),
            readonly(self.authority_acc_info.key, false),
            writable(self.swap_authority_pubkey.key, true),
            writable(self.swap_source_token.info.key, false),
            writable(
                if forward {
                    self.token_a_account.info.key
                } else {
                    self.token_b_account.info.key
                },
                false,
            ),
            writable(
                if forward {
                    self.token_b_account.info.key
                } else {
                    self.token_a_account.info.key
                },
                false,
            ),
            writable(self.swap_destination_token.info.key, false),
            writable(self.pool_mint.key, false),
            writable(self.pool_fee.info.key, false),
            readonly(self.token_program.info.key, false),
        ]
    }

    /// The accounts handed to the call.
    pub open spec fn swap_infos(&self, offset: usize) -> Seq<AccountRef> {
        seq![
            account_ref(self.swap_info.key, offset, 4),
            account_ref(self.authority_acc_info.key, offset, 5),
            account_ref(self.swap_authority_pubkey.key, offset, 1),
            account_ref(self.swap_source_token.info.key, offset, 2),
            account_ref(self.token_a_account.info.key, offset, 6),
            account_ref(self.token_b_account.info.key, offset, 7),
            account_ref(self.swap_destination_token.info.key, offset, 3),
            account_ref(self.pool_mint.key, offset, 8),
            account_ref(self.pool_fee.info.key, offset, 9),
            account_ref(self.token_program.info.key, offset, 10),
        ]
    }

    /// The call these accounts make for `amount_in` in the given hop, or why none is made.
    pub open spec fn swap(
        &self,
        amount_in: u64,
        offset: usize,
        hop_accounts: HopAccounts,
        hop: usize,
        proxy_swap: bool,
    ) -> Result<InvocationView, Error> {
        match before_check_error(
            self.swap_authority_pubkey,
            self.swap_source_token.info.key,
            self.swap_destination_token.info.key,
            hop_accounts,
            hop,
            proxy_swap,
        ) {
            Some(e) => Err(e),
            None => {
                match direction(
                    self.swap_source_token.mint,
                    self.swap_destination_token.mint,
                    self.token_a_account.mint,
                    self.token_b_account.mint,
                ) {
                    None => Err(Error::Router(ErrorCode::InvalidPool)),
                    Some(forward) => {
                        prepared(
                            &SplTokenSwapProcessor,
                            self.swap_infos(offset),
                            self.swap_source_token.info.key,
                            self.swap_destination_token,
                            (offset + 3) as usize,
                            InstructionView {
                                program_id: self.dex_program_id.key,
                                accounts: self.swap_metas(forward),
                                data: swap_data(amount_in, 1u64),
                            },
                            hop,
                            offset,
                            ACCOUNTS_LEN,
                            proxy_swap,
                        )
                    },
                }
            },
        }
    }
}

/// What `swap` makes of the accounts at the cursor: the call, or the reason why none is made.
/// It reads no account outside the venue's part of the list.
pub open spec fn swap_call(
    remaining_accounts: Seq<AccountInfo>,
    amount_in: u64,
    offset: usize,
    hop_accounts: HopAccounts,
    hop: usize,
    proxy_swap: bool,
) -> Result<InvocationView, Error> {
    if remaining_accounts.len() < offset + ACCOUNTS_LEN {
        Err(Error::Router(ErrorCode::InvalidAccountsLength))
    } else {
        match SplTokenSwapAccounts::parsed(
            remaining_accounts.subrange(offset as int, offset + ACCOUNTS_LEN),
        ) {
            Err(e) => Err(e),
            Ok(swap_accounts) => swap_accounts.swap(
                amount_in,
                offset,
                hop_accounts,
                hop,
                proxy_swap,
            ),
        }
    }
}

/// What `swap` makes of the venue's accounts once they are read.
pub fn handle_swap(
    swap_accounts: &SplTokenSwapAccounts,
    amount_in: u64,
    offset: usize,
    hop_accounts: &HopAccounts,
    hop: usize,
    proxy_swap: bool,
) -> (r: Result<Invocation, Error>)
    requires
        offset + ACCOUNTS_LEN <= usize::MAX,
    ensures
        yields(r, swap_accounts.swap(amount_in, offset, *hop_accounts, hop, proxy_swap)),
{

    // check hop accounts & swap authority
    let swap_source_token = swap_accounts.swap_source_token.key();
    let swap_destination_token = swap_accounts.swap_destination_token.key();
    before_check(
        swap_accounts.swap_authority_pubkey,
        swap_source_token,
        swap_destination_token,
        hop_accounts,
        hop,
        proxy_swap,
    )?;

    let forward: bool = match find_direction(
        swap_accounts.swap_source_token.mint,
        swap_accounts.swap_destination_token.mint,
        swap_accounts.token_a_account.mint,
        swap_accounts.token_b_account.mint,
    ) {
        Some(forward) => forward,
        None => {
            return Err(Error::Router(ErrorCode::InvalidPool));
        },
    };
    let data = pack_swap_instruction(amount_in, 1u64);

    let accounts = vec![
        AccountMeta::new_readonly(swap_accounts.swap_info.key, false),
        AccountMeta::new_readonly(swap_accounts.authority_acc_info.key, false),
        AccountMeta::new(swap_accounts.swap_authority_pubkey.key, true),
        AccountMeta::new(swap_accounts.swap_source_token.info.key, false),
        AccountMeta::new(
            if forward {
                swap_accounts.token_a_account.info.key
            } else {
                swap_accounts.token_b_account.info.key
            },
            false,
        ),
        AccountMeta::new(
            if forward {
                swap_accounts.token_b_account.info.key
            } else {
                swap_accounts.token_a_account.info.key
            },
            false,
        ),
        AccountMeta::new(swap_accounts.swap_destination_token.info.key, false),
        AccountMeta::new(swap_accounts.pool_mint.key, false),
        AccountMeta::new(swap_accounts.pool_fee.info.key, false),
        AccountMeta::new_readonly(swap_accounts.token_program.info.key, false),
    ];

    let account_infos = vec![
        AccountRef { place: offset + 4, key: swap_accounts.swap_info.key },
        AccountRef { place: offset + 5, key: swap_accounts.authority_acc_info.key },
        AccountRef { place: offset + 1, key: swap_accounts.swap_authority_pubkey.key },
        AccountRef { place: offset + 2, key: swap_accounts.swap_source_token.info.key },
        AccountRef { place: offset + 6, key: swap_accounts.token_a_account.info.key },
        AccountRef { place: offset + 7, key: swap_accounts.token_b_account.info.key },
        AccountRef { place: offset + 3, key: swap_accounts.swap_destination_token.info.key },
        AccountRef { place: offset + 8, key: swap_accounts.pool_mint.key },
        AccountRef { place: offset + 9, key: swap_accounts.pool_fee.info.key },
        AccountRef { place: offset + 10, key: swap_accounts.token_program.info.key },
    ];
    proof {
        assert(accounts@ =~= swap_accounts.swap_metas(forward));
        assert(account_infos@ =~= swap_accounts.swap_infos(offset));
    }

    let instruction = Instruction {
        program_id: swap_accounts.dex_program_id.key,
        accounts,
        data,
    };

    invoke_process(
        &SplTokenSwapProcessor,
        account_infos,
        swap_source_token,
        &swap_accounts.swap_destination_token,
        offset + 3,
        instruction,
        hop,
        offset,
        ACCOUNTS_LEN,
        proxy_swap,
    )
}

/// Prepares an exchange on a token-swap pool. The pool's two token accounts are put in the
/// direction of the trade, which the mints of the user's accounts give.
pub fn swap<'info>(
    remaining_accounts: &'info [AccountInfo],
    amount_in: u64,
    offset: usize,
    hop_accounts: &HopAccounts,
    hop: usize,
    proxy_swap: bool,
) -> (r: Result<Invocation, Error>)
    ensures
        yields(
            r,
            swap_call(remaining_accounts@, amount_in, offset, *hop_accounts, hop, proxy_swap),
        ),
{
    if remaining_accounts.len() < ACCOUNTS_LEN || offset > remaining_accounts.len()
        - ACCOUNTS_LEN {
        return Err(Error::Router(ErrorCode::InvalidAccountsLength));
    }
    let swap_accounts = SplTokenSwapAccounts::parse_accounts(remaining_accounts, offset)?;
    handle_swap(&swap_accounts, amount_in, offset, hop_accounts, hop, proxy_swap)
}

/// Every call that `swap` hands out continues the hop chain, draws on the venue's own
/// accounts, and leaves the cursor right behind them.
pub proof fn lemma_swap_call(
    remaining_accounts: Seq<AccountInfo>,
    amount_in: u64,
    offset: usize,
    hop_accounts: HopAccounts,
    hop: usize,
    proxy_swap: bool,
)
    requires
        remaining_accounts.len() <= usize::MAX,
    ensures
        swap_call(
            remaining_accounts,
            amount_in,
            offset,
            hop_accounts,
            hop,
            proxy_swap,
        ) matches Ok(invocation) ==> {
            &&& continuity_error(
                invocation.swap_source_token,
                invocation.swap_destination_token,
                hop_accounts,
            ) is None
            &&& invocation.next_offset == offset + ACCOUNTS_LEN
            &&& invocation.next_offset <= remaining_accounts.len()
            &&& offset <= invocation.destination < invocation.next_offset
        },
{
}

/// A call that `swap` hands out is made of the venue's part of the account list alone:
/// any list with the same accounts in that part gives the same call.
pub proof fn lemma_swap_call_local(
    first: Seq<AccountInfo>,
    second: Seq<AccountInfo>,
    amount_in: u64,
    offset: usize,
    hop_accounts: HopAccounts,
    hop: usize,
    proxy_swap: bool,
)
    requires
        first.len() <= usize::MAX,
        swap_call(
            first,
            amount_in,
            offset,
            hop_accounts,
            hop,
            proxy_swap,
        ) matches Ok(invocation) && second.len()
            >= invocation.next_offset && first.subrange(
            offset as int,
            invocation.next_offset as int,
        ) == second.subrange(offset as int, invocation.next_offset as int),
    ensures
        swap_call(
            second,
            amount_in,
            offset,
            hop_accounts,
            hop,
            proxy_swap,
        ) == swap_call(first, amount_in, offset, hop_accounts, hop, proxy_swap),
{
}

/// What `swap` makes of the accounts depends on what they hold and on nothing else: two
/// lists of accounts that hold the same give the same call, or the same failure.
pub proof fn lemma_swap_call_same(
    first: Seq<AccountInfo>,
    second: Seq<AccountInfo>,
    amount_in: u64,
    offset: usize,
    hop_accounts: HopAccounts,
    hop: usize,
    proxy_swap: bool,
)
    requires
        same_accounts(first, second),
    ensures
        swap_call(
            second,
            amount_in,
            offset,
            hop_accounts,
            hop,
            proxy_swap,
        ) == swap_call(first, amount_in, offset, hop_accounts, hop, proxy_swap),
{
    if first.len() >= offset + ACCOUNTS_LEN {
        let taken = offset + ACCOUNTS_LEN;
        let ours = first.subrange(offset as int, taken);
        let theirs = second.subrange(offset as int, taken);
        assert forall|i: int| 0 <= i < ACCOUNTS_LEN implies same_account(
            &#[trigger] ours[i],
            &theirs[i],
        ) by {
            assert(same_account(&first[offset + i], &second[offset + i]));
        }
    }
}

/// `swap` holds a call to the hop chain before it looks at anything else that the chain
/// bears on. A call that it would hand out at the start of a chain is handed out
/// unchanged where it continues the chain it is given, and is refused for the break
/// where it does not.
pub proof fn lemma_swap_call_chained(
    remaining_accounts: Seq<AccountInfo>,
    amount_in: u64,
    offset: usize,
    hop_accounts: HopAccounts,
    hop: usize,
    proxy_swap: bool,
)
    ensures
        swap_call(
            remaining_accounts,
            amount_in,
            offset,
            HopAccounts::fresh(address(ZERO_ADDRESS)),
            hop,
            proxy_swap,
        ) matches Ok(invocation) ==> swap_call(
            remaining_accounts,
            amount_in,
            offset,
            hop_accounts,
            hop,
            proxy_swap,
        ) == chained(invocation, hop_accounts),
{
}

} // verus!
