//! The swap whose output is reported to the bridge program.

use crate::account::{
    readonly, writable, AccountInfo, AccountMeta, Instruction, Mint, Program, Pubkey,
    TokenAccount,
};
use crate::adapters::common::AccountRef;
use crate::bytes::{le_bytes, push_bytes, push_le};
use crate::constants::BRIDGE_TO_LOG_SELECTOR;
use crate::error::{Error, ErrorCode};
use crate::instructions::common::{args_error, swap_process, SwapArgs, SwapProcess};
use vstd::prelude::*;

verus! {

/// The accounts of a swap whose output is reported to the bridge program.
#[derive(Clone, Copy, Debug)]
pub struct FromSwapAccounts<'info> {
    pub payer: &'info AccountInfo,
    pub source_token_account: TokenAccount<'info>,
    pub destination_token_account: TokenAccount<'info>,
    pub source_mint: Mint<'info>,
    pub destination_mint: Mint<'info>,
    pub bridge_program: &'info AccountInfo,
    pub associated_token_program: Program<'info>,
    pub token_program: Program<'info>,
    pub token_2022_program: Program<'info>,
    pub system_program: Program<'info>,
}

/// Whether the bridge only carries the asset over, or follows a swap.
#[derive(Clone, Copy, Debug, PartialEq, Eq, Structural)]
pub enum SwapType {
    BRIDGE,
    SWAPANDBRIDGE,
}

impl SwapType {
    /// The byte that stands for the kind in a payload.
    pub open spec fn tag(self) -> u8 {
        match self {
            SwapType::BRIDGE => 0,
            SwapType::SWAPANDBRIDGE => 1,
        }
    }

    pub fn into(self) -> (tag: u8)
        ensures
            tag == self.tag(),
    {
        match self {
            SwapType::BRIDGE => 0,
            SwapType::SWAPANDBRIDGE => 1,
        }
    }
}

/// The bridges that the bridge program knows, in its numbering.
#[derive(Clone, Copy, Debug, PartialEq, Eq, Structural)]
pub enum AdaptorID {
    Bridge0,
    Bridge1,
    Bridge2,
    Bridge3,
    Bridge4,
    Bridge5,
    Bridge6,
    Bridge7,
    Bridge8,
    Bridge9,
    Bridge10,
    Bridge11,
    Bridge12,
    Bridge13,
    Bridge14,
    Bridge15,
    Bridge16,
    Bridge17,
    Cctp,
    Bridge19,
    Bridge20,
    Wormhole,
    Meson,
    Bridge23,
    Bridge24,
    Bridge25,
    Bridge26,
    Bridge27,
    Bridge28,
    Bridge29,
    Bridge30,
    Bridge31,
    Bridge32,
    Bridge33,
    Debridgedln,
    Bridge35,
    Bridge36,
    Bridge37,
    Bridge38,
    Bridge39,
    Bridge40,
    Allbridge,
}

impl AdaptorID {
    /// The byte that stands for the bridge in a payload: its number.
    pub open spec fn tag(self) -> u8 {
        match self {
            AdaptorID::Bridge0 => 0,
            AdaptorID::Bridge1 => 1,
            AdaptorID::Bridge2 => 2,
            AdaptorID::Bridge3 => 3,
            AdaptorID::Bridge4 => 4,
            AdaptorID::Bridge5 => 5,
            AdaptorID::Bridge6 => 6,
            AdaptorID::Bridge7 => 7,
            AdaptorID::Bridge8 => 8,
            AdaptorID::Bridge9 => 9,
            AdaptorID::Bridge10 => 10,
            AdaptorID::Bridge11 => 11,
            AdaptorID::Bridge12 => 12,
            AdaptorID::Bridge13 => 13,
            AdaptorID::Bridge14 => 14,
            AdaptorID::Bridge15 => 15,
            AdaptorID::Bridge16 => 16,
            AdaptorID::Bridge17 => 17,
            AdaptorID::Cctp => 18,
            AdaptorID::Bridge19 => 19,
            AdaptorID::Bridge20 => 20,
            AdaptorID::Wormhole => 21,
            AdaptorID::Meson => 22,
            AdaptorID::Bridge23 => 23,
            AdaptorID::Bridge24 => 24,
            AdaptorID::Bridge25 => 25,
            AdaptorID::Bridge26 => 26,
            AdaptorID::Bridge27 => 27,
            AdaptorID::Bridge28 => 28,
            AdaptorID::Bridge29 => 29,
            AdaptorID::Bridge30 => 30,
            AdaptorID::Bridge31 => 31,
            AdaptorID::Bridge32 => 32,
            AdaptorID::Bridge33 => 33,
            AdaptorID::Debridgedln => 34,
            AdaptorID::Bridge35 => 35,
            AdaptorID::Bridge36 => 36,
            AdaptorID::Bridge37 => 37,
            AdaptorID::Bridge38 => 38,
            AdaptorID::Bridge39 => 39,
            AdaptorID::Bridge40 => 40,
            AdaptorID::Allbridge => 41,
        }
    }

    pub fn into(self) -> (tag: u8)
        ensures
            tag == self.tag(),
    {
        match self {
            AdaptorID::Bridge0 => 0,
            AdaptorID::Bridge1 => 1,
            AdaptorID::Bridge2 => 2,
            AdaptorID::Bridge3 => 3,
            AdaptorID::Bridge4 => 4,
            AdaptorID::Bridge5 => 5,
            AdaptorID::Bridge6 => 6,
            AdaptorID::Bridge7 => 7,
            AdaptorID::Bridge8 => 8,
            AdaptorID::Bridge9 => 9,
            AdaptorID::Bridge10 => 10,
            AdaptorID::Bridge11 => 11,
            AdaptorID::Bridge12 => 12,
            AdaptorID::Bridge13 => 13,
            AdaptorID::Bridge14 => 14,
            AdaptorID::Bridge15 => 15,
            AdaptorID::Bridge16 => 16,
            AdaptorID::Bridge17 => 17,
            AdaptorID::Cctp => 18,
            AdaptorID::Bridge19 => 19,
            AdaptorID::Bridge20 => 20,
            AdaptorID::Wormhole => 21,
            AdaptorID::Meson => 22,
            AdaptorID::Bridge23 => 23,
            AdaptorID::Bridge24 => 24,
            AdaptorID::Bridge25 => 25,
            AdaptorID::Bridge26 => 26,
            AdaptorID::Bridge27 => 27,
            AdaptorID::Bridge28 => 28,
            AdaptorID::Bridge29 => 29,
            AdaptorID::Bridge30 => 30,
            AdaptorID::Bridge31 => 31,
            AdaptorID::Bridge32 => 32,
            AdaptorID::Bridge33 => 33,
            AdaptorID::Debridgedln => 34,
            AdaptorID::Bridge35 => 35,
            AdaptorID::Bridge36 => 36,
            AdaptorID::Bridge37 => 37,
            AdaptorID::Bridge38 => 38,
            AdaptorID::Bridge39 => 39,
            AdaptorID::Bridge40 => 40,
            AdaptorID::Allbridge => 41,
        }
    }
}

/// What the bridge program is told: the bridge to take, the recipient on the target chain,
/// the order, the target chain, the amount, the kind of call, and data for the bridge and
/// for extensions.
#[derive(Clone, Debug)]
pub struct BridgeToArgs {
    pub adaptor_id: AdaptorID,
    pub to: Vec<u8>,
    pub order_id: u64,
    pub to_chain_id: u64,
    pub amount: u64,
    pub swap_type: SwapType,
    pub data: Vec<u8>,
    pub ext_data: Vec<u8>,
}

/// The code with which the encoding of a payload fails.
pub const BORSH_IO_ERROR: u64 = 0xf_0000_0000;

/// Bytes with their number in front, as four bytes.
pub open spec fn counted(bytes: Seq<u8>) -> Seq<u8> {
    le_bytes(bytes.len(), 4) + bytes
}

/// The encoding of what the bridge program is told, with `amount` for the amount: the
/// fields in their order, every number lowest byte first, every run of bytes with its
/// length in front. None where a run is too long for its length to fit 32 bits.
pub open spec fn bridge_to_data(args: BridgeToArgs, amount: u64) -> Option<Seq<u8>> {
    if args.to@.len() > u32::MAX || args.data@.len() > u32::MAX || args.ext_data@.len()
        > u32::MAX {
        None
    } else {
        Some(
            seq![args.adaptor_id.tag()] + counted(args.to@) + le_bytes(args.order_id as nat, 8)
                + le_bytes(args.to_chain_id as nat, 8) + le_bytes(amount as nat, 8)
                + seq![args.swap_type.tag()] + counted(args.data@) + counted(args.ext_data@),
        )
    }
}

fn push_counted(data: &mut Vec<u8>, bytes: &Vec<u8>) -> (r: Result<(), Error>)
    ensures
        match r {
            Ok(_) => bytes@.len() <= u32::MAX && final(data)@ == old(data)@ + counted(bytes@),
            Err(e) => bytes@.len() > u32::MAX && e == Error::Program(BORSH_IO_ERROR)
                && final(data)@ == old(data)@,
        },
{
    if bytes.len() as u64 > 0xffff_ffff {
        return Err(Error::Program(BORSH_IO_ERROR));
    }
    push_le(data, bytes.len() as u128, 4);
    push_bytes(data, bytes.as_slice());
    proof {
        assert(data@ =~= old(data)@ + counted(bytes@));
    }
    Ok(())
}

/// Encodes what the bridge program is told, with `amount` for the amount.
pub fn pack_bridge_to_args(args: &BridgeToArgs, amount: u64) -> (r: Result<Vec<u8>, Error>)
    ensures
        match r {
            Ok(data) => bridge_to_data(*args, amount) == Some(data@),
            Err(e) => bridge_to_data(*args, amount) is None && e == Error::Program(
                BORSH_IO_ERROR,
            ),
        },
{
    let mut data: Vec<u8> = Vec::new();
    data.push(args.adaptor_id.into());
    push_counted(&mut data, &args.to)?;
    push_le(&mut data, args.order_id as u128, 8);
    push_le(&mut data, args.to_chain_id as u128, 8);
    push_le(&mut data, amount as u128, 8);
    data.push(args.swap_type.into());
    push_counted(&mut data, &args.data)?;
    push_counted(&mut data, &args.ext_data)?;
    proof {
        assert(data@ =~= bridge_to_data(*args, amount)->Some_0);
    }
    Ok(data)
}

/// How an account of the flat list is handed on to the bridge program: as it came in.
pub open spec fn meta_of(info: AccountInfo) -> AccountMeta {
    AccountMeta { pubkey: info.key, is_signer: info.is_signer, is_writable: info.is_writable }
}

/// The call that reports a swap to the bridge program: the instruction, and the accounts
/// of the flat list that are handed on behind the named ones.
#[derive(Clone, Debug, PartialEq, Eq)]
pub struct BridgeCall {
    pub instruction: Instruction,
    pub account_infos: Vec<AccountRef>,
}

/// The accounts of the report that every report names, in their order.
pub open spec fn bridge_metas(
    payer: Pubkey,
    destination_token_account: Pubkey,
    destination_mint: Pubkey,
    associated_token_program: Pubkey,
    token_program: Pubkey,
    token_2022_program: Pubkey,
    system_program: Pubkey,
) -> Seq<AccountMeta> {
    seq![
        writable(payer, true),
        writable(destination_token_account, false),
        writable(destination_mint, false),
        readonly(associated_token_program, false),
        readonly(token_program, false),
        readonly(token_2022_program, false),
        readonly(system_program, false),
    ]
}

/// What `cpi_bridge_to_log` says of its result. The part of the flat account list from
/// `offset` on, `len` accounts long, must be there. The report then carries the selector of
/// the instruction and what the bridge program is told, with the swap's output for the
/// amount; it names the seven accounts of every report and then the accounts of that part,
/// as they came in.
pub open spec fn reports(
    r: Result<BridgeCall, Error>,
    bridge_to_args: BridgeToArgs,
    amount_out: u64,
    offset: u8,
    len: u8,
    bridge_program: Pubkey,
    named: Seq<AccountMeta>,
    remaining_accounts: Seq<AccountInfo>,
) -> bool {
    match r {
        Ok(call) => {
            &&& remaining_accounts.len() >= offset + len
            &&& bridge_to_data(bridge_to_args, amount_out) matches Some(payload)
            &&& call.instruction.program_id == bridge_program
            &&& call.instruction.data@ == BRIDGE_TO_LOG_SELECTOR@ + payload
            &&& call.instruction.accounts@ == named + Seq::new(
                len as nat,
                |i: int| meta_of(remaining_accounts[offset + i]),
            )
            &&& call.account_infos@ == Seq::new(
                len as nat,
                |i: int|
                    AccountRef {
                        place: (offset + i) as usize,
                        key: remaining_accounts[offset + i].key,
                    },
            )
        },
        Err(e) => if remaining_accounts.len() < offset + len {
            e == Error::Router(ErrorCode::InvalidAccountsLength)
        } else {
            bridge_to_data(bridge_to_args, amount_out) is None && e == Error::Program(
                BORSH_IO_ERROR,
            )
        },
    }
}

/// Prepares the report of a swap to the bridge program.
pub fn cpi_bridge_to_log(
    bridge_to_args: BridgeToArgs,
    amount_out: u64,
    offset: u8,
    len: u8,
    bridge_program: Pubkey,
    payer: Pubkey,
    destination_token_account: Pubkey,
    destination_mint: Pubkey,
    associated_token_program: Pubkey,
    token_program: Pubkey,
    token_2022_program: Pubkey,
    system_program: Pubkey,
    remaining_accounts: &[AccountInfo],
) -> (r: Result<BridgeCall, Error>)
    ensures
        reports(
            r,
            bridge_to_args,
            amount_out,
            offset,
            len,
            bridge_program,
            bridge_metas(
                payer,
                destination_token_account,
                destination_mint,
                associated_token_program,
                token_program,
                token_2022_program,
                system_program,
            ),
            remaining_accounts@,
        ),
{
    let start: usize = offset as usize;
    let count: usize = len as usize;
    if remaining_accounts.len() < start + count {
        return Err(Error::Router(ErrorCode::InvalidAccountsLength));
    }
    // the report carries what the swap brought
    let serialized_args = pack_bridge_to_args(&bridge_to_args, amount_out)?;
    let mut data: Vec<u8> = Vec::new();
    data.extend_from_slice(&BRIDGE_TO_LOG_SELECTOR);
    push_bytes(&mut data, serialized_args.as_slice());
    proof {
        assert(data@ =~= BRIDGE_TO_LOG_SELECTOR@ + serialized_args@);
    }

    let mut accounts = vec![
        AccountMeta::new(payer, true),
        AccountMeta::new(destination_token_account, false),
        AccountMeta::new(destination_mint, false),
        AccountMeta::new_readonly(associated_token_program, false),
        AccountMeta::new_readonly(token_program, false),
        AccountMeta::new_readonly(token_2022_program, false),
        AccountMeta::new_readonly(system_program, false),
    ];
    let ghost named = accounts@;
    let mut account_infos: Vec<AccountRef> = Vec::new();
    // the accounts of the relay call, in their order in the list
    let mut i: usize = 0;
    while i < count
        invariant
            i <= count <= 255,
            start <= 255,
            start + count <= remaining_accounts@.len(),
            accounts@ == named + Seq::new(
                i as nat,
                |j: int| meta_of(remaining_accounts@[start + j]),
            ),
            account_infos@ == Seq::new(
                i as nat,
                |j: int|
                    AccountRef {
                        place: (start + j) as usize,
                        key: remaining_accounts@[start + j].key,
                    },
            ),
        decreases count - i,
    {
        let info = &remaining_accounts[start + i];
        let meta = if info.is_writable {
            AccountMeta::new(info.key, info.is_signer)
        } else {
            AccountMeta::new_readonly(info.key, info.is_signer)
        };
        accounts.push(meta);
        account_infos.push(AccountRef { place: start + i, key: info.key });
        proof {
            assert(accounts@ =~= named + Seq::new(
                (i + 1) as nat,
                |j: int| meta_of(remaining_accounts@[start + j]),
            ));
            assert(account_infos@ =~= Seq::new(
                (i + 1) as nat,
                |j: int|
                    AccountRef {
                        place: (start + j) as usize,
                        key: remaining_accounts@[start + j].key,
                    },
            ));
        }
        i = i + 1;
    }
    proof {
        assert(named =~= bridge_metas(
            payer,
            destination_token_account,
            destination_mint,
            associated_token_program,
            token_program,
            token_2022_program,
            system_program,
        ));
        assert(accounts@ =~= named + Seq::new(
            len as nat,
            |i: int| meta_of(remaining_accounts@[offset + i]),
        ));
        assert(account_infos@ =~= Seq::new(
            len as nat,
            |i: int|
                AccountRef {
                    place: (offset + i) as usize,
                    key: remaining_accounts@[offset + i].key,
                },
        ));
    }
    let instruction = Instruction { program_id: bridge_program, accounts, data };
    Ok(BridgeCall { instruction, account_infos })
}

/// Begins a swap whose output is reported to the bridge program. The report is prepared by
/// `cpi_bridge_to_log` once the swap is settled.
pub fn from_swap_log_handler(accounts: &FromSwapAccounts, args: SwapArgs) -> (r: Result<
    SwapProcess,
    Error,
>)
    ensures
        match r {
            Ok(process) => {
                &&& args_error(args) is None
                &&& process.wf()
                &&& process.args == args
                &&& !process.proxy_swap
                &&& process.source_token_account == accounts.source_token_account.info.key
                &&& process.destination_token_account
                    == accounts.destination_token_account.info.key
                &&& process.before_source_balance == accounts.source_token_account.amount
                &&& process.before_destination_balance
                    == accounts.destination_token_account.amount
                &&& process.offset == 0
            },
            Err(e) => args_error(args) matches Some(code) && e == Error::Router(code),
        },
{
    swap_process(&accounts.source_token_account, &accounts.destination_token_account, args, false)
}

} // verus!
