//! The OpenBook order book.

use crate::account::{
    address, readonly, writable, AccountInfo, AccountMeta, Instruction, InstructionView, Program,
    ProgramKind, TokenAccount,
};
use crate::adapters::common::{
    account_ref, before_check, before_check_error, chained, continuity_error, direction,
    find_direction, invoke_process, no_call, no_calls, optional_meta, optional_ref, prepared,
    same_account, same_accounts, yields, AccountRef, Call, CallView, DexProcessor, Invocation,
    InvocationView,
};
use crate::bytes::{
    le_bytes, le_value, push_le, read_i64_le, signed_value, to_twos_complement, twos_complement,
};
use crate::constants::{OPENBOOKV2_PROGRAM, PLACE_TAKE_ORDER_SELECTOR, ZERO_ADDRESS};
use crate::error::{Error, ErrorCode};
use crate::instructions::common::HopAccounts;
use vstd::prelude::*;

verus! {

/// Length of the venue's instruction payload.
pub const ARGS_LEN: usize = 35;

/// Number of accounts the venue takes from the flat account list.
pub const ACCOUNTS_LEN: usize = 19;

/// The side of the book an order is placed on.
#[derive(Clone, Copy, Debug, PartialEq, Eq, Structural)]
pub enum Side {
    Bid,
    Ask,
}

impl Side {
    /// The byte that stands for the side in a payload.
    pub open spec fn tag(self) -> u8 {
        match self {
            Side::Bid => 0,
            Side::Ask => 1,
        }
    }

    /// The side that the byte `tag` stands for, if it stands for one.
    pub open spec fn of_tag(tag: u8) -> Option<Side> {
        if tag == 0 {
            Some(Side::Bid)
        } else if tag == 1 {
            Some(Side::Ask)
        } else {
            None
        }
    }

    pub fn into(self) -> (tag: u8)
        ensures
            tag == self.tag(),
    {
        match self {
            Side::Bid => 0,
            Side::Ask => 1,
        }
    }

    pub fn try_from_primitive(tag: u8) -> (side: Option<Side>)
        ensures
            side == Side::of_tag(tag),
    {
        if tag == 0 {
            Some(Side::Bid)
        } else if tag == 1 {
            Some(Side::Ask)
        } else {
            None
        }
    }
}

/// The order book adds nothing around its call.
pub struct OpenbookV2Processor;

impl DexProcessor for OpenbookV2Processor {
    open spec fn calls_before(
        &self,
        account_infos: Seq<AccountRef>,
    ) -> Result<Seq<CallView>, Error> {
        no_calls()
    }

    open spec fn calls_after(
        &self,
        account_infos: Seq<AccountRef>,
    ) -> Result<Seq<CallView>, Error> {
        no_calls()
    }

    fn before_invoke(&self, account_infos: &Vec<AccountRef>) -> (r: Result<Vec<Call>, Error>) {
        no_call()
    }

    fn after_invoke(&self, account_infos: &Vec<AccountRef>) -> (r: Result<Vec<Call>, Error>) {
        no_call()
    }
}

/// The accounts of one order on a market. The three open-orders accounts are optional:
/// the address of zeros stands for none.
#[derive(Clone, Copy, Debug)]
pub struct PlaceTakeOrderAccounts<'info> {
    pub dex_program_id: &'info AccountInfo,
    pub swap_authority_pubkey: &'info AccountInfo,
    pub swap_source_token: TokenAccount<'info>,
    pub swap_destination_token: TokenAccount<'info>,
    pub market: &'info AccountInfo,
    pub market_authority: &'info AccountInfo,
    pub bids: &'info AccountInfo,
    pub asks: &'info AccountInfo,
    pub market_base_vault: TokenAccount<'info>,
    pub market_quote_vault: TokenAccount<'info>,
    pub event_heap: &'info AccountInfo,
    pub oracle_a: &'info AccountInfo,
    pub oracle_b: &'info AccountInfo,
    pub token_program: Program<'info>,
    pub system_program: Program<'info>,
    pub open_orders_admin: &'info AccountInfo,
    pub open_orders_account0: &'info AccountInfo,
    pub open_orders_account1: &'info AccountInfo,
    pub open_orders_account2: &'info AccountInfo,
}

impl<'info> PlaceTakeOrderAccounts<'info> {
    /// The accounts of `slice`, the venue's part of the flat list, each read as what its
    /// place asks for; or the failure of the first that is not that.
    pub open spec fn parsed(
        slice: Seq<AccountInfo>,
    ) -> Result<PlaceTakeOrderAccounts<'info>, Error> {
        let swap_source_token = TokenAccount::parsed(&slice[2]);
        let swap_destination_token = TokenAccount::parsed(&slice[3]);
        let market_base_vault = TokenAccount::parsed(&slice[8]);
        let market_quote_vault = TokenAccount::parsed(&slice[9]);
        let token_program = Program::parsed(&slice[13], ProgramKind::Token);
        let system_program = Program::parsed(&slice[14], ProgramKind::System);
        if swap_source_token is Err {
            Err(swap_source_token->Err_0)
        } else if swap_destination_token is Err {
            Err(swap_destination_token->Err_0)
        } else if market_base_vault is Err {
            Err(market_base_vault->Err_0)
        } else if market_quote_vault is Err {
            Err(market_quote_vault->Err_0)
        } else if token_program is Err {
            Err(token_program->Err_0)
        } else if system_program is Err {
            Err(system_program->Err_0)
        } else {
            Ok(
                PlaceTakeOrderAccounts {
                    dex_program_id: &slice[0],
                    swap_authority_pubkey: &slice[1],
                    swap_source_token: swap_source_token->Ok_0,
                    swap_destination_token: swap_destination_token->Ok_0,
                    market: &slice[4],
                    market_authority: &slice[5],
                    bids: &slice[6],
                    asks: &slice[7],
                    market_base_vault: market_base_vault->Ok_0,
                    market_quote_vault: market_quote_vault->Ok_0,
                    event_heap: &slice[10],
                    oracle_a: &slice[11],
                    oracle_b: &slice[12],
                    token_program: token_program->Ok_0,
                    system_program: system_program->Ok_0,
                    open_orders_admin: &slice[15],
                    open_orders_account0: &slice[16],
                    open_orders_account1: &slice[17],
                    open_orders_account2: &slice[18],
                },
            )
        }
    }

    fn parse_accounts(accounts: &'info [AccountInfo], offset: usize) -> (r: Result<
        PlaceTakeOrderAccounts<'info>,
        Error,
    >)
        requires
            offset + ACCOUNTS_LEN <= accounts@.len(),
        ensures
            r == Self::parsed(accounts@.subrange(offset as int, offset + ACCOUNTS_LEN)),
    {
        Ok(
            PlaceTakeOrderAccounts {
                dex_program_id: &accounts[offset],
                swap_authority_pubkey: &accounts[offset + 1],
                swap_source_token: TokenAccount::try_from(&accounts[offset + 2])?,
                swap_destination_token: TokenAccount::try_from(&accounts[offset + 3])?,
                market: &accounts[offset + 4],
                market_authority: &accounts[offset + 5],
                bids: &accounts[offset + 6],
                asks: &accounts[offset + 7],
                market_base_vault: TokenAccount::try_from(&accounts[offset + 8])?,
                market_quote_vault: TokenAccount::try_from(&accounts[offset + 9])?,
                event_heap: &accounts[offset + 10],
                oracle_a: &accounts[offset + 11],
                oracle_b: &accounts[offset + 12],
                token_program: Program::try_from(&accounts[offset + 13], ProgramKind::Token)?,
                system_program: Program::try_from(&accounts[offset + 14], ProgramKind::System)?,
                open_orders_admin: &accounts[offset + 15],
                open_orders_account0: &accounts[offset + 16],
                open_orders_account1: &accounts[offset + 17],
                open_orders_account2: &accounts[offset + 18],
            },
        )
    }
}

/// The payload of an order: the selector of the instruction, the side, the price in lots, the
/// most to trade in base lots and in quote lots, fees included, the kind of order, and the
/// limit on matches.
pub open spec fn order_data(
    side: Side,
    price_lots: i64,
    max_base_lots: i64,
    max_quote_lots_including_fees: i64,
    order_type: u8,
    limit: u8,
) -> Seq<u8> {
    PLACE_TAKE_ORDER_SELECTOR@
        + seq![side.tag()]
        + le_bytes(twos_complement(price_lots as int), 8)
        + le_bytes(twos_complement(max_base_lots as int), 8)
        + le_bytes(twos_complement(max_quote_lots_including_fees as int), 8)
        + seq![order_type]
        + seq![limit]
}

/// The payload of an order: the selector of the instruction, the side, the price in lots, the
/// most to trade in base lots and in quote lots, fees included, the kind of order, and the
/// limit on matches.
pub fn pack_instruction(
    side: Side,
    price_lots: i64,
    max_base_lots: i64,
    max_quote_lots_including_fees: i64,
    order_type: u8,
    limit: u8,
) -> (data: Vec<u8>)
    ensures
        data@ == order_data(
            side,
            price_lots,
            max_base_lots,
            max_quote_lots_including_fees,
            order_type,
            limit,
        ),
        data@.len() == ARGS_LEN,
{
    let mut data: Vec<u8> = Vec::with_capacity(ARGS_LEN);
    data.extend_from_slice(&PLACE_TAKE_ORDER_SELECTOR);
    data.push(side.into());
    push_le(&mut data, to_twos_complement(price_lots) as u128, 8);
    push_le(&mut data, to_twos_complement(max_base_lots) as u128, 8);
    push_le(&mut data, to_twos_complement(max_quote_lots_including_fees) as u128, 8);
    data.push(order_type);
    data.push(limit);
    data
}

/// The sizes of the market's base lot and quote lot, as the market's account holds them;
/// none where the account is too short to hold them.
pub open spec fn lot_sizes(market_data: Seq<u8>) -> Result<(i64, i64), Error> {
    if market_data.len() < 464 {
        Err(Error::MalformedAccountData)
    } else {
        Ok(
            (
                signed_value(le_value(market_data.subrange(456, 464))) as i64,
                signed_value(le_value(market_data.subrange(448, 456))) as i64,
            ),
        )
    }
}

/// `amount` in lots of `lot_size`, rounded toward zero; none where the lot size is zero, or
/// where the number of lots does not fit 64 bits.
pub open spec fn lots(amount: int, lot_size: int) -> Option<int> {
    let size = if amount < 0 {
        -amount
    } else {
        amount
    };
    let lot = if lot_size < 0 {
        -lot_size
    } else {
        lot_size
    };
    let count = if (amount < 0) == (lot_size < 0) {
        size / lot
    } else {
        -(size / lot)
    };
    if lot_size == 0 || count > i64::MAX {
        None
    } else {
        Some(count)
    }
}

/// The size of `x`, without its sign.
fn magnitude(x: i64) -> (m: u64)
    ensures
        m == if x < 0 {
            -(x as int)
        } else {
            x as int
        },
{
    if x >= 0 {
        x as u64
    } else {
        let above: u64 = (x - i64::MIN) as u64;
        0x8000_0000_0000_0000 - above
    }
}

/// `amount` in lots of `lot_size`, rounded toward zero; none where the lot size is zero, or
/// where the number of lots does not fit 64 bits.
pub fn count_lots(amount: i64, lot_size: i64) -> (r: Option<i64>)
    ensures
        r matches Some(n) ==> lots(amount as int, lot_size as int) == Some(n as int),
        r is None ==> lots(amount as int, lot_size as int) is None,
{
    if lot_size == 0 {
        return None;
    }
    let size: u64 = magnitude(amount);
    let lot: u64 = magnitude(lot_size);
    let count: u64 = size / lot;
    proof {
        assert(count <= size) by (nonlinear_arith)
            requires
                count == size / lot,
                lot >= 1,
                size >= 0,
        ;
    }
    if (amount < 0) == (lot_size < 0) {
        if count > 0x7fff_ffff_ffff_ffff {
            None
        } else {
            Some(count as i64)
        }
    } else if count == 0x8000_0000_0000_0000 {
        Some(i64::MIN)
    } else {
        Some(-(count as i64))
    }
}

/// The order that takes what the book offers for `amount_in`: its side, its price in lots,
/// and the most it may trade in base lots and in quote lots. Where the base asset is sold
/// the order asks any price and is bounded by the amount in base lots; where it is bought
/// the order bids any price and is bounded by the amount in quote lots.
pub open spec fn order_size(
    amount_in: u64,
    sells_base: bool,
    lot_size: (i64, i64),
) -> Result<(Side, i64, i64, i64), Error> {
    if amount_in > i64::MAX || lots(amount_in as int, lot_size.0 as int) is None || lots(
        amount_in as int,
        lot_size.1 as int,
    ) is None {
        Err(Error::Router(ErrorCode::CalculationError))
    } else if sells_base {
        Ok(
            (
                Side::Ask,
                1i64,
                lots(amount_in as int, lot_size.0 as int)->Some_0 as i64,
                lots(i64::MAX as int, lot_size.1 as int)->Some_0 as i64,
            ),
        )
    } else {
        Ok(
            (
                Side::Bid,
                i64::MAX,
                lots(i64::MAX as int, lot_size.0 as int)->Some_0 as i64,
                lots(amount_in as int, lot_size.1 as int)->Some_0 as i64,
            ),
        )
    }
}

fn size_order(amount_in: u64, sells_base: bool, lot_size: (i64, i64)) -> (r: Result<
    (Side, i64, i64, i64),
    Error,
>)
    ensures
        r == order_size(amount_in, sells_base, lot_size),
{
    if amount_in > 0x7fff_ffff_ffff_ffff {
        return Err(Error::Router(ErrorCode::CalculationError));
    }
    let amount: i64 = amount_in as i64;
    if sells_base {
        let max_base_lots: i64 = match count_lots(amount, lot_size.0) {
            Some(n) => n,
            None => {
                return Err(Error::Router(ErrorCode::CalculationError));
            },
        };
        let max_quote_lots_including_fees: i64 = match count_lots(i64::MAX, lot_size.1) {
            Some(n) => n,
            None => {
                return Err(Error::Router(ErrorCode::CalculationError));
            },
        };
        Ok((Side::Ask, 1i64, max_base_lots, max_quote_lots_including_fees))
    } else {
        let max_base_lots: i64 = match count_lots(i64::MAX, lot_size.0) {
            Some(n) => n,
            None => {
                return Err(Error::Router(ErrorCode::CalculationError));
            },
        };
        let max_quote_lots_including_fees: i64 = match count_lots(amount, lot_size.1) {
            Some(n) => n,
            None => {
                return Err(Error::Router(ErrorCode::CalculationError));
            },
        };
        Ok((Side::Bid, i64::MAX, max_base_lots, max_quote_lots_including_fees))
    }
}

impl<'info> PlaceTakeOrderAccounts<'info> {
    fn get_lot_size(&self) -> (r: Result<(i64, i64), Error>)
        ensures
            r == lot_sizes(self.market.data@),
    {
        let data = self.market.data.as_slice();
        if data.len() < 464 {
            return Err(Error::MalformedAccountData);
        }
        match (read_i64_le(data, 448), read_i64_le(data, 456)) {
            (Some(quote_lots_size), Some(base_lots_size)) => Ok((base_lots_size, quote_lots_size)),
            _ => Err(Error::MalformedAccountData),
        }
    }
}

impl<'info> PlaceTakeOrderAccounts<'info> {
    /// The accounts of the venue's instruction, in the order the venue wants them.
    pub open spec fn place_take_order_metas(&self, forward: bool) -> Seq<AccountMeta> {
        seq![
            writable(self.swap_authority_pubkey.key, true),
            writable(self.swap_authority_pubkey.key, true),
            writable(self.market.key, false),
            readonly(self.market_authority.key, false),
            writable(self.bids.key, false),
            writable(self.asks.key, false),
            writable(self.market_base_vault.info.key, false),
            writable(self.market_quote_vault.info.key, false),
            writable(self.event_heap.key, false),
            writable(
                if forward {
                    self.swap_source_token.info.key
                } else {
                    self.swap_destination_token.info.key
                },
                false,
            ),
            writable(
                if forward {
                    self.swap_destination_token.info.key
                } else {
                    self.swap_source_token.info.key
                },
                false,
            ),
            readonly(self.oracle_a.key, false),
            readonly(self.oracle_b.key, false),
            readonly(self.token_program.info.key, false),
            readonly(self.system_program.info.key, false),
            readonly(self.open_orders_admin.key, false),
        ]
            + optional_meta(self.open_orders_account0.key)
            + optional_meta(self.open_orders_account1.key)
            + optional_meta(self.open_orders_account2.key)
    }

    /// The accounts handed to the call.
    pub open spec fn place_take_order_infos(&self, offset: usize) -> Seq<AccountRef> {
        seq![
            account_ref(self.swap_authority_pubkey.key, offset, 1),
            account_ref(self.market.key, offset, 4),
            account_ref(self.market_authority.key, offset, 5),
            account_ref(self.bids.key, offset, 6),
            account_ref(self.asks.key, offset, 7),
            account_ref(self.market_base_vault.info.key, offset, 8),
            account_ref(self.market_quote_vault.info.key, offset, 9),
            account_ref(self.event_heap.key, offset, 10),
            account_ref(self.swap_source_token.info.key, offset, 2),
            account_ref(self.swap_destination_token.info.key, offset, 3),
            account_ref(self.oracle_a.key, offset, 11),
            account_ref(self.oracle_b.key, offset, 12),
            account_ref(self.token_program.info.key, offset, 13),
            account_ref(self.system_program.info.key, offset, 14),
            account_ref(self.open_orders_admin.key, offset, 15),
        ]
            + optional_ref(account_ref(self.open_orders_account0.key, offset, 16))
            + optional_ref(account_ref(self.open_orders_account1.key, offset, 17))
            + optional_ref(account_ref(self.open_orders_account2.key, offset, 18))
    }

    /// The call these accounts make for `amount_in` in the given hop, or why none is made.
    pub open spec fn place_take_order(
        &self,
        amount_in: u64,
        offset: usize,
        hop_accounts: HopAccounts,
        hop: usize,
        proxy_swap: bool,
    ) -> Result<InvocationView, Error> {
        if self.dex_program_id.key != address(OPENBOOKV2_PROGRAM) {
            Err(Error::Router(ErrorCode::InvalidProgramId))
        } else {
            match before_check_error(
                self.swap_authority_pubkey,
                self.swap_source_token.info.key,
                self.swap_destination_token.info.key,
                hop_accounts,
                hop,
                proxy_swap,
            ) {
                Some(e) => Err(e),
                None => {
                    match lot_sizes(self.market.data@) {
                        Err(e) => Err(e),
                        Ok(lot_size) => {
                            match order_size(
                            amount_in,
                            self.swap_source_token.mint == self.market_base_vault.mint,
                            lot_size,
                        ) {
                                Err(e) => Err(e),
                                Ok(order) => {
                                    match direction(
                                        self.swap_source_token.mint,
                                        self.swap_destination_token.mint,
                                        self.market_base_vault.mint,
                                        self.market_quote_vault.mint,
                                    ) {
                                        None => Err(Error::Router(ErrorCode::InvalidTokenMint)),
                                        Some(forward) => {
                                            prepared(
                                                &OpenbookV2Processor,
                                                self.place_take_order_infos(offset),
                                                self.swap_source_token.info.key,
                                                self.swap_destination_token,
                                                (offset + 3) as usize,
                                                InstructionView {
                                                    program_id: self.dex_program_id.key,
                                                    accounts: self.place_take_order_metas(forward),
                                                    data: order_data(
                                                        order.0,
                                                        order.1,
                                                        order.2,
                                                        order.3,
                                                        3u8,
                                                        50u8,
                                                    ),
                                                },
                                                hop,
                                                offset,
                                                ACCOUNTS_LEN,
                                                proxy_swap,
                                            )
                                        },
                                    }
                                },
                            }
                        },
                    }
                },
            }
        }
    }
}

/// What `place_take_order` makes of the accounts at the cursor: the call, or the reason why
/// none is made. It reads no account outside the venue's part of the list.
pub open spec fn place_take_order_call(
    remaining_accounts: Seq<AccountInfo>,
    amount_in: u64,
    offset: usize,
    hop_accounts: HopAccounts,
    hop: usize,
    proxy_swap: bool,
) -> Result<InvocationView, Error> {
    if remaining_accounts.len() < offset + ACCOUNTS_LEN {
        Err(Error::Router(ErrorCode::InvalidAccountsLength))
    } else {
        match PlaceTakeOrderAccounts::parsed(
            remaining_accounts.subrange(offset as int, offset + ACCOUNTS_LEN),
        ) {
            Err(e) => Err(e),
            Ok(swap_accounts) => swap_accounts.place_take_order(
                amount_in,
                offset,
                hop_accounts,
                hop,
                proxy_swap,
            ),
        }
    }
}

/// What `place_take_order` makes of the venue's accounts once they are read.
pub fn handle_place_take_order(
    swap_accounts: &PlaceTakeOrderAccounts,
    amount_in: u64,
    offset: usize,
    hop_accounts: &HopAccounts,
    hop: usize,
    proxy_swap: bool,
) -> (r: Result<Invocation, Error>)
    requires
        offset + ACCOUNTS_LEN <= usize::MAX,
    ensures
        yields(
            r,
            swap_accounts.place_take_order(amount_in, offset, *hop_accounts, hop, proxy_swap),
        ),
{
    if !swap_accounts.dex_program_id.key.is(OPENBOOKV2_PROGRAM) {
        return Err(Error::Router(ErrorCode::InvalidProgramId));
    }

    // check hop accounts & swap authority
    let swap_source_token = swap_accounts.swap_source_token.key();
    let swap_destination_token = swap_accounts.swap_destination_token.key();
    before_check(
        swap_accounts.swap_authority_pubkey,
        swap_source_token,
        swap_destination_token,
        hop_accounts,
        hop,
        proxy_swap,
    )?;

    let lot_size: (i64, i64) = swap_accounts.get_lot_size()?;
    let order: (Side, i64, i64, i64) = size_order(
        amount_in,
        swap_accounts.swap_source_token.mint == swap_accounts.market_base_vault.mint,
        lot_size,
    )?;
    let forward: bool = match find_direction(
        swap_accounts.swap_source_token.mint,
        swap_accounts.swap_destination_token.mint,
        swap_accounts.market_base_vault.mint,
        swap_accounts.market_quote_vault.mint,
    ) {
        Some(forward) => forward,
        None => {
            return Err(Error::Router(ErrorCode::InvalidTokenMint));
        },
    };
    let data = pack_instruction(order.0, order.1, order.2, order.3, 3u8, 50u8);

    let mut accounts = vec![
        AccountMeta::new(swap_accounts.swap_authority_pubkey.key, true),
        AccountMeta::new(swap_accounts.swap_authority_pubkey.key, true),
        AccountMeta::new(swap_accounts.market.key, false),
        AccountMeta::new_readonly(swap_accounts.market_authority.key, false),
        AccountMeta::new(swap_accounts.bids.key, false),
        AccountMeta::new(swap_accounts.asks.key, false),
        AccountMeta::new(swap_accounts.market_base_vault.info.key, false),
        AccountMeta::new(swap_accounts.market_quote_vault.info.key, false),
        AccountMeta::new(swap_accounts.event_heap.key, false),
        AccountMeta::new(
            if forward {
                swap_accounts.swap_source_token.info.key
            } else {
                swap_accounts.swap_destination_token.info.key
            },
            false,
        ),
        AccountMeta::new(
            if forward {
                swap_accounts.swap_destination_token.info.key
            } else {
                swap_accounts.swap_source_token.info.key
            },
            false,
        ),
        AccountMeta::new_readonly(swap_accounts.oracle_a.key, false),
        AccountMeta::new_readonly(swap_accounts.oracle_b.key, false),
        AccountMeta::new_readonly(swap_accounts.token_program.info.key, false),
        AccountMeta::new_readonly(swap_accounts.system_program.info.key, false),
        AccountMeta::new_readonly(swap_accounts.open_orders_admin.key, false),
    ];

    let mut account_infos = vec![
        AccountRef { place: offset + 1, key: swap_accounts.swap_authority_pubkey.key },
        AccountRef { place: offset + 4, key: swap_accounts.market.key },
        AccountRef { place: offset + 5, key: swap_accounts.market_authority.key },
        AccountRef { place: offset + 6, key: swap_accounts.bids.key },
        AccountRef { place: offset + 7, key: swap_accounts.asks.key },
        AccountRef { place: offset + 8, key: swap_accounts.market_base_vault.info.key },
        AccountRef { place: offset + 9, key: swap_accounts.market_quote_vault.info.key },
        AccountRef { place: offset + 10, key: swap_accounts.event_heap.key },
        AccountRef { place: offset + 2, key: swap_accounts.swap_source_token.info.key },
        AccountRef { place: offset + 3, key: swap_accounts.swap_destination_token.info.key },
        AccountRef { place: offset + 11, key: swap_accounts.oracle_a.key },
        AccountRef { place: offset + 12, key: swap_accounts.oracle_b.key },
        AccountRef { place: offset + 13, key: swap_accounts.token_program.info.key },
        AccountRef { place: offset + 14, key: swap_accounts.system_program.info.key },
        AccountRef { place: offset + 15, key: swap_accounts.open_orders_admin.key },
    ];

    if !swap_accounts.open_orders_account0.key.is(ZERO_ADDRESS) {
        accounts.push(AccountMeta::new(swap_accounts.open_orders_account0.key, false));
        account_infos.push(
            AccountRef { place: offset + 16, key: swap_accounts.open_orders_account0.key },
        );
    }
    if !swap_accounts.open_orders_account1.key.is(ZERO_ADDRESS) {
        accounts.push(AccountMeta::new(swap_accounts.open_orders_account1.key, false));
        account_infos.push(
            AccountRef { place: offset + 17, key: swap_accounts.open_orders_account1.key },
        );
    }
    if !swap_accounts.open_orders_account2.key.is(ZERO_ADDRESS) {
        accounts.push(AccountMeta::new(swap_accounts.open_orders_account2.key, false));
        account_infos.push(
            AccountRef { place: offset + 18, key: swap_accounts.open_orders_account2.key },
        );
    }
    proof {
        assert(accounts@ =~= swap_accounts.place_take_order_metas(forward));
        assert(account_infos@ =~= swap_accounts.place_take_order_infos(offset));
    }

    let instruction = Instruction {
        program_id: swap_accounts.dex_program_id.key,
        accounts,
        data,
    };

    invoke_process(
        &OpenbookV2Processor,
        account_infos,
        swap_source_token,
        &swap_accounts.swap_destination_token,
        offset + 3,
        instruction,
        hop,
        offset,
        ACCOUNTS_LEN,
        proxy_swap,
    )
}

/// Prepares an order that takes what the book offers for `amount_in`. The user sells the base
/// asset where the source is of the base vault's mint, and buys it otherwise; the user's two
/// accounts are put to the base and the quote side by their mints. The optional open-orders
/// accounts go into the instruction and into the accounts handed to the call together, or not
/// at all.
pub fn place_take_order<'info>(
    remaining_accounts: &'info [AccountInfo],
    amount_in: u64,
    offset: usize,
    hop_accounts: &HopAccounts,
    hop: usize,
    proxy_swap: bool,
) -> (r: Result<Invocation, Error>)
    ensures
        yields(
            r,
            place_take_order_call(
                remaining_accounts@,
                amount_in,
                offset,
                *hop_accounts,
                hop,
                proxy_swap,
            ),
        ),
{
    if remaining_accounts.len() < ACCOUNTS_LEN || offset > remaining_accounts.len()
        - ACCOUNTS_LEN {
        return Err(Error::Router(ErrorCode::InvalidAccountsLength));
    }
    let swap_accounts = PlaceTakeOrderAccounts::parse_accounts(remaining_accounts, offset)?;
    handle_place_take_order(&swap_accounts, amount_in, offset, hop_accounts, hop, proxy_swap)
}

/// Every call that `place_take_order` hands out continues the hop chain, draws on the venue's own
/// accounts, and leaves the cursor right behind them.
pub proof fn lemma_place_take_order_call(
    remaining_accounts: Seq<AccountInfo>,
    amount_in: u64,
    offset: usize,
    hop_accounts: HopAccounts,
    hop: usize,
    proxy_swap: bool,
)
    requires
        remaining_accounts.len() <= usize::MAX,
    ensures
        place_take_order_call(
            remaining_accounts,
            amount_in,
            offset,
            hop_accounts,
            hop,
            proxy_swap,
        ) matches Ok(invocation) ==> {
            &&& continuity_error(
                invocation.swap_source_token,
                invocation.swap_destination_token,
                hop_accounts,
            ) is None
            &&& invocation.next_offset == offset + ACCOUNTS_LEN
            &&& invocation.next_offset <= remaining_accounts.len()
            &&& offset <= invocation.destination < invocation.next_offset
        },
{
}

/// A call that `place_take_order` hands out is made of the venue's part of the account list alone:
/// any list with the same accounts in that part gives the same call.
pub proof fn lemma_place_take_order_call_local(
    first: Seq<AccountInfo>,
    second: Seq<AccountInfo>,
    amount_in: u64,
    offset: usize,
    hop_accounts: HopAccounts,
    hop: usize,
    proxy_swap: bool,
)
    requires
        first.len() <= usize::MAX,
        place_take_order_call(
            first,
            amount_in,
            offset,
            hop_accounts,
            hop,
            proxy_swap,
        ) matches Ok(invocation) && second.len()
            >= invocation.next_offset && first.subrange(
            offset as int,
            invocation.next_offset as int,
        ) == second.subrange(offset as int, invocation.next_offset as int),
    ensures
        place_take_order_call(
            second,
            amount_in,
            offset,
            hop_accounts,
            hop,
            proxy_swap,
        ) == place_take_order_call(first, amount_in, offset, hop_accounts, hop, proxy_swap),
{
}

/// What `place_take_order` makes of the accounts depends on what they hold and on nothing else: two
/// lists of accounts that hold the same give the same call, or the same failure.
pub proof fn lemma_place_take_order_call_same(
    first: Seq<AccountInfo>,
    second: Seq<AccountInfo>,
    amount_in: u64,
    offset: usize,
    hop_accounts: HopAccounts,
    hop: usize,
    proxy_swap: bool,
)
    requires
        same_accounts(first, second),
    ensures
        place_take_order_call(
            second,
            amount_in,
            offset,
            hop_accounts,
            hop,
            proxy_swap,
        ) == place_take_order_call(first, amount_in, offset, hop_accounts, hop, proxy_swap),
{
    if first.len() >= offset + ACCOUNTS_LEN {
        let taken = offset + ACCOUNTS_LEN;
        let ours = first.subrange(offset as int, taken);
        let theirs = second.subrange(offset as int, taken);
        assert forall|i: int| 0 <= i < ACCOUNTS_LEN implies same_account(
            &#[trigger] ours[i],
            &theirs[i],
        ) by {
            assert(same_account(&first[offset + i], &second[offset + i]));
        }
    }
}

/// `place_take_order` holds a call to the hop chain before it looks at anything else that the chain
/// bears on. A call that it would hand out at the start of a chain is handed out
/// unchanged where it continues the chain it is given, and is refused for the break
/// where it does not.
pub proof fn lemma_place_take_order_call_chained(
    remaining_accounts: Seq<AccountInfo>,
    amount_in: u64,
    offset: usize,
    hop_accounts: HopAccounts,
    hop: usize,
    proxy_swap: bool,
)
    ensures
        place_take_order_call(
            remaining_accounts,
            amount_in,
            offset,
            HopAccounts::fresh(address(ZERO_ADDRESS)),
            hop,
            proxy_swap,
        ) matches Ok(invocation) ==> place_take_order_call(
            remaining_accounts,
            amount_in,
            offset,
            hop_accounts,
            hop,
            proxy_swap,
        ) == chained(invocation, hop_accounts),
{
}

} // verus!
