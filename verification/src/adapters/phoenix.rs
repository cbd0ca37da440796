//! The Phoenix order book.

use crate::account::{
    address, readonly, writable, AccountInfo, AccountMeta, Instruction, InstructionView, Program,
    ProgramKind, TokenAccount,
};
use crate::adapters::common::{
    account_ref, before_check, before_check_error, chained, continuity_error, direction,
    find_direction, invoke_process, no_call, no_calls, prepared, same_account, same_accounts,
    yields, AccountRef, Call, CallView, DexProcessor, Invocation, InvocationView,
};
use crate::bytes::{le_bytes, le_value, push_le, read_u64_le};
use crate::constants::{PHOENIX_PROGRAM, ZERO_ADDRESS};
use crate::error::{Error, ErrorCode};
use crate::instructions::common::HopAccounts;
use vstd::prelude::*;

verus! {

/// Length of the venue's instruction payload.
pub const ARGS_LEN: usize = 55;

/// Number of accounts the venue takes from the flat account list.
pub const ACCOUNTS_LEN: usize = 9;

/// The order book adds nothing around its call.
pub struct PhoenixProcessor;

impl DexProcessor for PhoenixProcessor {
    open spec fn calls_before(
        &self,
        account_infos: Seq<AccountRef>,
    ) -> Result<Seq<CallView>, Error> {
        no_calls()
    }

    open spec fn calls_after(
        &self,
        account_infos: Seq<AccountRef>,
    ) -> Result<Seq<CallView>, Error> {
        no_calls()
    }

    fn before_invoke(&self, account_infos: &Vec<AccountRef>) -> (r: Result<Vec<Call>, Error>) {
        no_call()
    }

    fn after_invoke(&self, account_infos: &Vec<AccountRef>) -> (r: Result<Vec<Call>, Error>) {
        no_call()
    }
}

/// The accounts of one order on a market.
#[derive(Clone, Copy, Debug)]
pub struct SwapAccounts<'info> {
    pub dex_program_id: &'info AccountInfo,
    pub swap_authority_pubkey: &'info AccountInfo,
    pub swap_source_token: TokenAccount<'info>,
    pub swap_destination_token: TokenAccount<'info>,
    pub log_authority: &'info AccountInfo,
    pub market: &'info AccountInfo,
    pub base_vault: TokenAccount<'info>,
    pub quote_vault: TokenAccount<'info>,
    pub token_program: Program<'info>,
}

impl<'info> SwapAccounts<'info> {
    /// The accounts of `slice`, the venue's part of the flat list, each read as what its
    /// place asks for; or the failure of the first that is not that.
    pub open spec fn parsed(slice: Seq<AccountInfo>) -> Result<SwapAccounts<'info>, Error> {
        let swap_source_token = TokenAccount::parsed(&slice[2]);
        let swap_destination_token = TokenAccount::parsed(&slice[3]);
        let base_vault = TokenAccount::parsed(&slice[6]);
        let quote_vault = TokenAccount::parsed(&slice[7]);
        let token_program = Program::parsed(&slice[8], ProgramKind::Token);
        if swap_source_token is Err {
            Err(swap_source_token->Err_0)
        } else if swap_destination_token is Err {
            Err(swap_destination_token->Err_0)
        } else if base_vault is Err {
            Err(base_vault->Err_0)
        } else if quote_vault is Err {
            Err(quote_vault->Err_0)
        } else if token_program is Err {
            Err(token_program->Err_0)
        } else {
            Ok(
                SwapAccounts {
                    dex_program_id: &slice[0],
                    swap_authority_pubkey: &slice[1],
                    swap_source_token: swap_source_token->Ok_0,
                    swap_destination_token: swap_destination_token->Ok_0,
                    log_authority: &slice[4],
                    market: &slice[5],
                    base_vault: base_vault->Ok_0,
                    quote_vault: quote_vault->Ok_0,
                    token_program: token_program->Ok_0,
                },
            )
        }
    }

    fn parse_accounts(accounts: &'info [AccountInfo], offset: usize) -> (r: Result<
        SwapAccounts<'info>,
        Error,
    >)
        requires
            offset + ACCOUNTS_LEN <= accounts@.len(),
        ensures
            r == Self::parsed(accounts@.subrange(offset as int, offset + ACCOUNTS_LEN)),
    {
        Ok(
            SwapAccounts {
                dex_program_id: &accounts[offset],
                swap_authority_pubkey: &accounts[offset + 1],
                swap_source_token: TokenAccount::try_from(&accounts[offset + 2])?,
                swap_destination_token: TokenAccount::try_from(&accounts[offset + 3])?,
                log_authority: &accounts[offset + 4],
                market: &accounts[offset + 5],
                base_vault: TokenAccount::try_from(&accounts[offset + 6])?,
                quote_vault: TokenAccount::try_from(&accounts[offset + 7])?,
                token_program: Program::try_from(&accounts[offset + 8], ProgramKind::Token)?,
            },
        )
    }
}

/// The payload of an order that is filled at once or not at all, at the market's price: the tag
/// of the instruction, the kind of order, the side, no price, the size in base lots and in
/// quote lots, no least amounts to fill, what to do on a trade with oneself, no limit on
/// matches, no identifier of the client, and funds from outside the market.
pub open spec fn order_data(
    order_type: u8,
    side: u8,
    num_base_lots: u64,
    num_quote_lots: u64,
    self_trade_behavior: u8,
) -> Seq<u8> {
    seq![0u8]
        + seq![order_type]
        + seq![side]
        + seq![0u8]
        + le_bytes(num_base_lots as nat, 8)
        + le_bytes(num_quote_lots as nat, 8)
        + le_bytes(0u64 as nat, 8)
        + le_bytes(0u64 as nat, 8)
        + seq![self_trade_behavior]
        + seq![0u8]
        + le_bytes(0u128 as nat, 16)
        + seq![0u8]
}

/// The payload of an order that is filled at once or not at all, at the market's price: the tag
/// of the instruction, the kind of order, the side, no price, the size in base lots and in
/// quote lots, no least amounts to fill, what to do on a trade with oneself, no limit on
/// matches, no identifier of the client, and funds from outside the market.
pub fn pack_instruction(
    order_type: u8,
    side: u8,
    num_base_lots: u64,
    num_quote_lots: u64,
    self_trade_behavior: u8,
) -> (data: Vec<u8>)
    ensures
        data@ == order_data(order_type, side, num_base_lots, num_quote_lots, self_trade_behavior),
        data@.len() == ARGS_LEN,
{
    let mut data: Vec<u8> = Vec::with_capacity(ARGS_LEN);
    data.push(0u8);
    data.push(order_type);
    data.push(side);
    data.push(0u8);
    push_le(&mut data, num_base_lots as u128, 8);
    push_le(&mut data, num_quote_lots as u128, 8);
    push_le(&mut data, 0u64 as u128, 8);
    push_le(&mut data, 0u64 as u128, 8);
    data.push(self_trade_behavior);
    data.push(0u8);
    push_le(&mut data, 0u128, 16);
    data.push(0u8);
    data
}

/// The sizes of the market's base lot and quote lot, as the market's account holds them;
/// none where the account is too short to hold them.
pub open spec fn lot_sizes(market_data: Seq<u8>) -> Result<(u64, u64), Error> {
    if market_data.len() < 200 {
        Err(Error::MalformedAccountData)
    } else {
        Ok(
            (
                le_value(market_data.subrange(112, 120)) as u64,
                le_value(market_data.subrange(192, 200)) as u64,
            ),
        )
    }
}

/// The order that sells `amount_in`: its side (1 to sell the base asset, 0 to buy it), and
/// its size in base lots and in quote lots. The amount is counted in lots of the asset that
/// is sold, which the mint of the source gives.
pub open spec fn order_size(
    amount_in: u64,
    sells_base: bool,
    lots: (u64, u64),
) -> Result<(u8, u64, u64), Error> {
    if sells_base {
        if lots.0 == 0 {
            Err(Error::Router(ErrorCode::CalculationError))
        } else {
            Ok((1u8, (amount_in / lots.0) as u64, 0u64))
        }
    } else {
        if lots.1 == 0 {
            Err(Error::Router(ErrorCode::CalculationError))
        } else {
            Ok((0u8, 0u64, (amount_in / lots.1) as u64))
        }
    }
}

fn size_order(amount_in: u64, sells_base: bool, lots: (u64, u64)) -> (r: Result<
    (u8, u64, u64),
    Error,
>)
    ensures
        r == order_size(amount_in, sells_base, lots),
{
    if sells_base {
        if lots.0 == 0 {
            return Err(Error::Router(ErrorCode::CalculationError));
        }
        Ok((1u8, amount_in / lots.0, 0u64))
    } else {
        if lots.1 == 0 {
            return Err(Error::Router(ErrorCode::CalculationError));
        }
        Ok((0u8, 0u64, amount_in / lots.1))
    }
}

impl<'info> SwapAccounts<'info> {
    fn get_lot_size(&self) -> (r: Result<(u64, u64), Error>)
        ensures
            r == lot_sizes(self.market.data@),
    {
        let data = self.market.data.as_slice();
        if data.len() < 200 {
            return Err(Error::MalformedAccountData);
        }
        match (read_u64_le(data, 112), read_u64_le(data, 192)) {
            (Some(base_lots_size), Some(quote_lots_size)) => Ok((base_lots_size, quote_lots_size)),
            _ => Err(Error::MalformedAccountData),
        }
    }
}

impl<'info> SwapAccounts<'info> {
    /// The accounts of the venue's instruction, in the order the venue wants them.
    pub open spec fn swap_metas(&self, forward: bool) -> Seq<AccountMeta> {
        seq![
            readonly(self.dex_program_id.key, false),
            writable(self.log_authority.key, false),
            writable(self.market.key, false),
            writable(self.swap_authority_pubkey.key, true),
            writable(
                if forward {
                    self.swap_source_token.info.key
                } else {
                    self.swap_destination_token.info.key
                },
                false,
            ),
            writable(
                if forward {
                    self.swap_destination_token.info.key
                } else {
                    self.swap_source_token.info.key
                },
                false,
            ),
            writable(self.base_vault.info.key, false),
            writable(self.quote_vault.info.key, false),
            readonly(self.token_program.info.key, false),
        ]
    }

    /// The accounts handed to the call.
    pub open spec fn swap_infos(&self, offset: usize) -> Seq<AccountRef> {
        seq![
            account_ref(self.dex_program_id.key, offset, 0),
            account_ref(self.log_authority.key, offset, 4),
            account_ref(self.market.key, offset, 5),
            account_ref(self.swap_authority_pubkey.key, offset, 1),
            account_ref(self.swap_source_token.info.key, offset, 2),
            account_ref(self.swap_destination_token.info.key, offset, 3),
            account_ref(self.base_vault.info.key, offset, 6),
            account_ref(self.quote_vault.info.key, offset, 7),
            account_ref(self.token_program.info.key, offset, 8),
        ]
    }

    /// The call these accounts make for `amount_in` in the given hop, or why none is made.
    pub open spec fn swap(
        &self,
        amount_in: u64,
        offset: usize,
        hop_accounts: HopAccounts,
        hop: usize,
        proxy_swap: bool,
    ) -> Result<InvocationView, Error> {
        if self.dex_program_id.key != address(PHOENIX_PROGRAM) {
            Err(Error::Router(ErrorCode::InvalidProgramId))
        } else {
            match before_check_error(
                self.swap_authority_pubkey,
                self.swap_source_token.info.key,
                self.swap_destination_token.info.key,
                hop_accounts,
                hop,
                proxy_swap,
            ) {
                Some(e) => Err(e),
                None => {
                    match lot_sizes(self.market.data@) {
                        Err(e) => Err(e),
                        Ok(lots) => {
                            match order_size(
                            amount_in,
                            self.swap_source_token.mint == self.base_vault.mint,
                            lots,
                        ) {
                                Err(e) => Err(e),
                                Ok(order) => {
                                    match direction(
                                        self.swap_source_token.mint,
                                        self.swap_destination_token.mint,
                                        self.base_vault.mint,
                                        self.quote_vault.mint,
                                    ) {
                                        None => Err(Error::Router(ErrorCode::InvalidTokenMint)),
                                        Some(forward) => {
                                            prepared(
                                                &PhoenixProcessor,
                                                self.swap_infos(offset),
                                                self.swap_source_token.info.key,
                                                self.swap_destination_token,
                                                (offset + 3) as usize,
                                                InstructionView {
                                                    program_id: self.dex_program_id.key,
                                                    accounts: self.swap_metas(forward),
                                                    data: order_data(
                                                        2u8,
                                                        order.0,
                                                        order.1,
                                                        order.2,
                                                        1u8,
                                                    ),
                                                },
                                                hop,
                                                offset,
                                                ACCOUNTS_LEN,
                                                proxy_swap,
                                            )
                                        },
                                    }
                                },
                            }
                        },
                    }
                },
            }
        }
    }
}

/// What `swap` makes of the accounts at the cursor: the call, or the reason why none is made.
/// It reads no account outside the venue's part of the list.
pub open spec fn swap_call(
    remaining_accounts: Seq<AccountInfo>,
    amount_in: u64,
    offset: usize,
    hop_accounts: HopAccounts,
    hop: usize,
    proxy_swap: bool,
) -> Result<InvocationView, Error> {
    if remaining_accounts.len() < offset + ACCOUNTS_LEN {
        Err(Error::Router(ErrorCode::InvalidAccountsLength))
    } else {
        match SwapAccounts::parsed(
            remaining_accounts.subrange(offset as int, offset + ACCOUNTS_LEN),
        ) {
            Err(e) => Err(e),
            Ok(swap_accounts) => swap_accounts.swap(
                amount_in,
                offset,
                hop_accounts,
                hop,
                proxy_swap,
            ),
        }
    }
}

/// What `swap` makes of the venue's accounts once they are read.
pub fn handle_swap(
    swap_accounts: &SwapAccounts,
    amount_in: u64,
    offset: usize,
    hop_accounts: &HopAccounts,
    hop: usize,
    proxy_swap: bool,
) -> (r: Result<Invocation, Error>)
    requires
        offset + ACCOUNTS_LEN <= usize::MAX,
    ensures
        yields(r, swap_accounts.swap(amount_in, offset, *hop_accounts, hop, proxy_swap)),
{
    if !swap_accounts.dex_program_id.key.is(PHOENIX_PROGRAM) {
        return Err(Error::Router(ErrorCode::InvalidProgramId));
    }

    // check hop accounts & swap authority
    let swap_source_token = swap_accounts.swap_source_token.key();
    let swap_destination_token = swap_accounts.swap_destination_token.key();
    before_check(
        swap_accounts.swap_authority_pubkey,
        swap_source_token,
        swap_destination_token,
        hop_accounts,
        hop,
        proxy_swap,
    )?;

    let lots: (u64, u64) = swap_accounts.get_lot_size()?;
    let order: (u8, u64, u64) = size_order(
        amount_in,
        swap_accounts.swap_source_token.mint == swap_accounts.base_vault.mint,
        lots,
    )?;
    let forward: bool = match find_direction(
        swap_accounts.swap_source_token.mint,
        swap_accounts.swap_destination_token.mint,
        swap_accounts.base_vault.mint,
        swap_accounts.quote_vault.mint,
    ) {
        Some(forward) => forward,
        None => {
            return Err(Error::Router(ErrorCode::InvalidTokenMint));
        },
    };
    let data = pack_instruction(2u8, order.0, order.1, order.2, 1u8);

    let accounts = vec![
        AccountMeta::new_readonly(swap_accounts.dex_program_id.key, false),
        AccountMeta::new(swap_accounts.log_authority.key, false),
        AccountMeta::new(swap_accounts.market.key, false),
        AccountMeta::new(swap_accounts.swap_authority_pubkey.key, true),
        AccountMeta::new(
            if forward {
                swap_accounts.swap_source_token.info.key
            } else {
                swap_accounts.swap_destination_token.info.key
            },
            false,
        ),
        AccountMeta::new(
            if forward {
                swap_accounts.swap_destination_token.info.key
            } else {
                swap_accounts.swap_source_token.info.key
            },
            false,
        ),
        AccountMeta::new(swap_accounts.base_vault.info.key, false),
        AccountMeta::new(swap_accounts.quote_vault.info.key, false),
        AccountMeta::new_readonly(swap_accounts.token_program.info.key, false),
    ];

    let account_infos = vec![
        AccountRef { place: offset, key: swap_accounts.dex_program_id.key },
        AccountRef { place: offset + 4, key: swap_accounts.log_authority.key },
        AccountRef { place: offset + 5, key: swap_accounts.market.key },
        AccountRef { place: offset + 1, key: swap_accounts.swap_authority_pubkey.key },
        AccountRef { place: offset + 2, key: swap_accounts.swap_source_token.info.key },
        AccountRef { place: offset + 3, key: swap_accounts.swap_destination_token.info.key },
        AccountRef { place: offset + 6, key: swap_accounts.base_vault.info.key },
        AccountRef { place: offset + 7, key: swap_accounts.quote_vault.info.key },
        AccountRef { place: offset + 8, key: swap_accounts.token_program.info.key },
    ];
    proof {
        assert(accounts@ =~= swap_accounts.swap_metas(forward));
        assert(account_infos@ =~= swap_accounts.swap_infos(offset));
    }

    let instruction = Instruction {
        program_id: swap_accounts.dex_program_id.key,
        accounts,
        data,
    };

    invoke_process(
        &PhoenixProcessor,
        account_infos,
        swap_source_token,
        &swap_accounts.swap_destination_token,
        offset + 3,
        instruction,
        hop,
        offset,
        ACCOUNTS_LEN,
        proxy_swap,
    )
}

/// Prepares an order on a market that sells `amount_in` at the market's price. The user sells
/// the base asset where the source is of the base vault's mint, and buys it otherwise; the
/// user's two accounts are put to the base and the quote side by their mints.
pub fn swap<'info>(
    remaining_accounts: &'info [AccountInfo],
    amount_in: u64,
    offset: usize,
    hop_accounts: &HopAccounts,
    hop: usize,
    proxy_swap: bool,
) -> (r: Result<Invocation, Error>)
    ensures
        yields(
            r,
            swap_call(remaining_accounts@, amount_in, offset, *hop_accounts, hop, proxy_swap),
        ),
{
    if remaining_accounts.len() < ACCOUNTS_LEN || offset > remaining_accounts.len()
        - ACCOUNTS_LEN {
        return Err(Error::Router(ErrorCode::InvalidAccountsLength));
    }
    let swap_accounts = SwapAccounts::parse_accounts(remaining_accounts, offset)?;
    handle_swap(&swap_accounts, amount_in, offset, hop_accounts, hop, proxy_swap)
}

/// Every call that `swap` hands out continues the hop chain, draws on the venue's own
/// accounts, and leaves the cursor right behind them.
pub proof fn lemma_swap_call(
    remaining_accounts: Seq<AccountInfo>,
    amount_in: u64,
    offset: usize,
    hop_accounts: HopAccounts,
    hop: usize,
    proxy_swap: bool,
)
    requires
        remaining_accounts.len() <= usize::MAX,
    ensures
        swap_call(
            remaining_accounts,
            amount_in,
            offset,
            hop_accounts,
            hop,
            proxy_swap,
        ) matches Ok(invocation) ==> {
            &&& continuity_error(
                invocation.swap_source_token,
                invocation.swap_destination_token,
                hop_accounts,
            ) is None
            &&& invocation.next_offset == offset + ACCOUNTS_LEN
            &&& invocation.next_offset <= remaining_accounts.len()
            &&& offset <= invocation.destination < invocation.next_offset
        },
{
}

/// A call that `swap` hands out is made of the venue's part of the account list alone:
/// any list with the same accounts in that part gives the same call.
pub proof fn lemma_swap_call_local(
    first: Seq<AccountInfo>,
    second: Seq<AccountInfo>,
    amount_in: u64,
    offset: usize,
    hop_accounts: HopAccounts,
    hop: usize,
    proxy_swap: bool,
)
    requires
        first.len() <= usize::MAX,
        swap_call(
            first,
            amount_in,
            offset,
            hop_accounts,
            hop,
            proxy_swap,
        ) matches Ok(invocation) && second.len()
            >= invocation.next_offset && first.subrange(
            offset as int,
            invocation.next_offset as int,
        ) == second.subrange(offset as int, invocation.next_offset as int),
    ensures
        swap_call(
            second,
            amount_in,
            offset,
            hop_accounts,
            hop,
            proxy_swap,
        ) == swap_call(first, amount_in, offset, hop_accounts, hop, proxy_swap),
{
}

/// What `swap` makes of the accounts depends on what they hold and on nothing else: two
/// lists of accounts that hold the same give the same call, or the same failure.
pub proof fn lemma_swap_call_same(
    first: Seq<AccountInfo>,
    second: Seq<AccountInfo>,
    amount_in: u64,
    offset: usize,
    hop_accounts: HopAccounts,
    hop: usize,
    proxy_swap: bool,
)
    requires
        same_accounts(first, second),
    ensures
        swap_call(
            second,
            amount_in,
            offset,
            hop_accounts,
            hop,
            proxy_swap,
        ) == swap_call(first, amount_in, offset, hop_accounts, hop, proxy_swap),
{
    if first.len() >= offset + ACCOUNTS_LEN {
        let taken = offset + ACCOUNTS_LEN;
        let ours = first.subrange(offset as int, taken);
        let theirs = second.subrange(offset as int, taken);
        assert forall|i: int| 0 <= i < ACCOUNTS_LEN implies same_account(
            &#[trigger] ours[i],
            &theirs[i],
        ) by {
            assert(same_account(&first[offset + i], &second[offset + i]));
        }
    }
}

/// `swap` holds a call to the hop chain before it looks at anything else that the chain
/// bears on. A call that it would hand out at the start of a chain is handed out
/// unchanged where it continues the chain it is given, and is refused for the break
/// where it does not.
pub proof fn lemma_swap_call_chained(
    remaining_accounts: Seq<AccountInfo>,
    amount_in: u64,
    offset: usize,
    hop_accounts: HopAccounts,
    hop: usize,
    proxy_swap: bool,
)
    ensures
        swap_call(
            remaining_accounts,
            amount_in,
            offset,
            HopAccounts::fresh(address(ZERO_ADDRESS)),
            hop,
            proxy_swap,
        ) matches Ok(invocation) ==> swap_call(
            remaining_accounts,
            amount_in,
            offset,
            hop_accounts,
            hop,
            proxy_swap,
        ) == chained(invocation, hop_accounts),
{
}

} // verus!
