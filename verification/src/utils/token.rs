//! The transfers a routing call asks its caller to make.

use crate::account::{
    address, readonly, writable, AccountMeta, Instruction, InstructionView, Pubkey,
};
use crate::bytes::le_bytes;
use crate::constants::{SYSTEM_PROGRAM, TOKEN_2022_PROGRAM, TOKEN_PROGRAM};
use crate::error::{Error, ErrorCode};
use vstd::prelude::*;

verus! {

/// The code with which an instruction builder refuses a program that is not the one it
/// builds for.
pub const INCORRECT_PROGRAM_ID: u64 = 0x7_0000_0000;

/// The system program's instruction that moves `lamports` from `from` to `to`.
pub open spec fn system_transfer(from: Pubkey, to: Pubkey, lamports: u64) -> InstructionView {
    InstructionView {
        program_id: address(SYSTEM_PROGRAM),
        accounts: seq![writable(from, true), writable(to, false)],
        data: seq![2u8, 0u8, 0u8, 0u8] + le_bytes(lamports as nat, 8),
    }
}

/// A token program's instruction that moves `amount` of the token `mint`, which counts
/// `decimals` decimals, from `source` to `destination` under the signature of `authority`;
/// or the code of the refusal where `token_program` is neither token program.
pub open spec fn token_transfer_checked(
    token_program: Pubkey,
    source: Pubkey,
    mint: Pubkey,
    destination: Pubkey,
    authority: Pubkey,
    amount: u64,
    decimals: u8,
) -> Result<InstructionView, u64> {
    if token_program == address(TOKEN_PROGRAM) || token_program == address(TOKEN_2022_PROGRAM) {
        Ok(
            InstructionView {
                program_id: token_program,
                accounts: seq![
                    writable(source, false),
                    readonly(mint, false),
                    writable(destination, false),
                    readonly(authority, true),
                ],
                data: seq![12u8] + le_bytes(amount as nat, 8) + seq![decimals],
            },
        )
    } else {
        Err(INCORRECT_PROGRAM_ID)
    }
}

/// The token program's instruction that closes `account`, pays what it held to
/// `destination`, and is signed by `signer` for the owner `owner`; or the code of the
/// refusal where `token_program` is not the token program.
pub open spec fn token_close_account(
    token_program: Pubkey,
    account: Pubkey,
    destination: Pubkey,
    owner: Pubkey,
    signer: Pubkey,
) -> Result<InstructionView, u64> {
    if token_program == address(TOKEN_PROGRAM) {
        Ok(
            InstructionView {
                program_id: token_program,
                accounts: seq![
                    writable(account, false),
                    writable(destination, false),
                    readonly(owner, false),
                    readonly(signer, true),
                ],
                data: seq![9u8],
            },
        )
    } else {
        Err(INCORRECT_PROGRAM_ID)
    }
}

/// The token program's instruction that brings the balance of the wrapped-native account
/// `account` in line with what it holds; or the code of the refusal where `token_program`
/// is not the token program.
pub open spec fn token_sync_native(token_program: Pubkey, account: Pubkey) -> Result<
    InstructionView,
    u64,
> {
    if token_program == address(TOKEN_PROGRAM) {
        Ok(
            InstructionView {
                program_id: token_program,
                accounts: seq![writable(account, false)],
                data: seq![17u8],
            },
        )
    } else {
        Err(INCORRECT_PROGRAM_ID)
    }
}

/// The account `pubkey` of an instruction, with its two marks.
pub fn account_meta(pubkey: [u8; 32], is_signer: bool, is_writable: bool) -> (meta: AccountMeta)
    ensures
        meta == (AccountMeta { pubkey: address(pubkey), is_signer, is_writable }),
{
    AccountMeta { pubkey: Pubkey::new_from_array(pubkey), is_signer, is_writable }
}

/// Whether `r` is the result `s`, with an instruction taken as a value.
pub open spec fn builds(r: Result<Instruction, u64>, s: Result<InstructionView, u64>) -> bool {
    match r {
        Ok(instruction) => s == Ok::<InstructionView, u64>(instruction@),
        Err(code) => s == Err::<InstructionView, u64>(code),
    }
}

/// Calls `solana_program::system_instruction::transfer`. It names the system program, the
/// payer as a writable signer and the recipient as writable, and encodes the third variant
/// of the system instructions with the amount, in bincode: a four-byte tag and eight bytes.
#[verifier::external_body]
pub(crate) fn system_transfer_instruction(from: &Pubkey, to: &Pubkey, lamports: u64) -> (r:
    Instruction)
    ensures
        r@ == system_transfer(*from, *to, lamports),
{
    let key = anchor_lang::prelude::Pubkey::new_from_array;
    let ix = anchor_lang::solana_program::system_instruction::transfer(
        &key(from.bytes),
        &key(to.bytes),
        lamports,
    );
    let accounts = ix.accounts.iter().map(
        |m| account_meta(m.pubkey.to_bytes(), m.is_signer, m.is_writable),
    ).collect();
    Instruction { program_id: Pubkey { bytes: ix.program_id.to_bytes() }, accounts, data: ix.data }
}

/// Calls `spl_token_2022::instruction::transfer_checked` with no signers besides the
/// authority. It refuses a program that is neither token program; else it names the
/// source as writable, the mint, the destination as writable and the authority as signer,
/// and encodes tag 12, the amount and the decimals.
#[verifier::external_body]
pub(crate) fn transfer_checked_instruction(
    token_program: &Pubkey,
    source: &Pubkey,
    mint: &Pubkey,
    destination: &Pubkey,
    authority: &Pubkey,
    amount: u64,
    decimals: u8,
) -> (r: Result<Instruction, u64>)
    ensures
        builds(
            r,
            token_transfer_checked(
                *token_program,
                *source,
                *mint,
                *destination,
                *authority,
                amount,
                decimals,
            ),
        ),
{
    let key = anchor_lang::prelude::Pubkey::new_from_array;
    let ix = anchor_spl::token_2022::spl_token_2022::instruction::transfer_checked(
        &key(token_program.bytes),
        &key(source.bytes),
        &key(mint.bytes),
        &key(destination.bytes),
        &key(authority.bytes),
        &[],
        amount,
        decimals,
    ).map_err(u64::from)?;
    let metas = ix.accounts.iter();
    let accounts = metas.map(|m| account_meta(m.pubkey.to_bytes(), m.is_signer, m.is_writable));
    let program_id = Pubkey { bytes: ix.program_id.to_bytes() };
    Ok(Instruction { program_id, accounts: accounts.collect(), data: ix.data })
}

/// Calls `spl_token::instruction::close_account` with the one signer `signer`. It refuses a
/// program that is not the token program; else it names the account and the destination
/// as writable, the owner, and the signer as signer, and encodes tag 9.
#[verifier::external_body]
pub(crate) fn close_account_instruction(
    token_program: &Pubkey,
    account: &Pubkey,
    destination: &Pubkey,
    owner: &Pubkey,
    signer: &Pubkey,
) -> (r: Result<Instruction, u64>)
    ensures
        builds(r, token_close_account(*token_program, *account, *destination, *owner, *signer)),
{
    let key = anchor_lang::prelude::Pubkey::new_from_array;
    let ix = anchor_spl::token::spl_token::instruction::close_account(
        &key(token_program.bytes),
        &key(account.bytes),
        &key(destination.bytes),
        &key(owner.bytes),
        &[&key(signer.bytes)],
    ).map_err(u64::from)?;
    let metas = ix.accounts.iter();
    let accounts = metas.map(|m| account_meta(m.pubkey.to_bytes(), m.is_signer, m.is_writable));
    let program_id = Pubkey { bytes: ix.program_id.to_bytes() };
    Ok(Instruction { program_id, accounts: accounts.collect(), data: ix.data })
}

/// Calls `spl_token::instruction::sync_native`. It refuses a program that is not the token
/// program; else it names the account as writable and encodes tag 17.
#[verifier::external_body]
pub(crate) fn sync_native_instruction(token_program: &Pubkey, account: &Pubkey) -> (r: Result<
    Instruction,
    u64,
>)
    ensures
        builds(r, token_sync_native(*token_program, *account)),
{
    let key = anchor_lang::prelude::Pubkey::new_from_array;
    let ix = anchor_spl::token::spl_token::instruction::sync_native(
        &key(token_program.bytes),
        &key(account.bytes),
    ).map_err(u64::from)?;
    let metas = ix.accounts.iter();
    let accounts = metas.map(|m| account_meta(m.pubkey.to_bytes(), m.is_signer, m.is_writable));
    let program_id = Pubkey { bytes: ix.program_id.to_bytes() };
    Ok(Instruction { program_id, accounts: accounts.collect(), data: ix.data })
}

/// A transfer for the caller to make: the instruction, whether the program-derived
/// authority signs it, and the router's failure that a failure of the transfer stands for.
#[derive(Clone, Debug, PartialEq, Eq)]
pub struct Transfer {
    pub instruction: Instruction,
    pub signed: bool,
    pub failure: ErrorCode,
}

/// A `Transfer` as a value.
pub ghost struct TransferView {
    pub instruction: InstructionView,
    pub signed: bool,
    pub failure: ErrorCode,
}

impl View for Transfer {
    type V = TransferView;

    open spec fn view(&self) -> TransferView {
        TransferView {
            instruction: self.instruction@,
            signed: self.signed,
            failure: self.failure,
        }
    }
}

/// Whether `r` is the result `s`, with a transfer taken as a value.
pub open spec fn asks(
    r: Result<Option<Transfer>, Error>,
    s: Result<Option<TransferView>, Error>,
) -> bool {
    match r {
        Ok(Some(transfer)) => s == Ok::<Option<TransferView>, Error>(Some(transfer@)),
        Ok(None) => s == Ok::<Option<TransferView>, Error>(None),
        Err(e) => s == Err::<Option<TransferView>, Error>(e),
    }
}

/// The transfer of `lamports` of the native asset from `from` to `to`: none where the
/// amount is zero.
pub open spec fn sol_transfer(from: Pubkey, to: Pubkey, lamports: u64) -> Result<
    Option<TransferView>,
    Error,
> {
    if lamports == 0 {
        Ok(None)
    } else {
        Ok(
            Some(
                TransferView {
                    instruction: system_transfer(from, to, lamports),
                    signed: false,
                    failure: ErrorCode::TransferSolFailed,
                },
            ),
        )
    }
}

/// The transfer of `amount` of a token from `from` to `to` under `authority`: none where
/// the amount is zero, and a failure where `token_program` is no token program.
pub open spec fn token_transfer(
    authority: Pubkey,
    from: Pubkey,
    to: Pubkey,
    mint: Pubkey,
    token_program: Pubkey,
    amount: u64,
    mint_decimals: u8,
    signed: bool,
) -> Result<Option<TransferView>, Error> {
    if amount == 0 {
        Ok(None)
    } else {
        match token_transfer_checked(
            token_program,
            from,
            mint,
            to,
            authority,
            amount,
            mint_decimals,
        ) {
            Ok(instruction) => Ok(
                Some(TransferView { instruction, signed, failure: ErrorCode::TransferTokenFailed }),
            ),
            Err(_) => Err(Error::Router(ErrorCode::TransferTokenFailed)),
        }
    }
}

/// Asks for `lamports` of the native asset to go from `from` to `to` under the signature
/// of `from`. Nothing is asked for where the amount is zero. A failure of the transfer
/// stands for `TransferSolFailed`.
pub fn transfer_sol_from_user(from: Pubkey, to: Pubkey, lamports: u64) -> (r: Result<
    Option<Transfer>,
    Error,
>)
    ensures
        asks(r, sol_transfer(from, to, lamports)),
{
    if lamports == 0 {
        return Ok(None);
    }
    let instruction = system_transfer_instruction(&from, &to, lamports);
    Ok(Some(Transfer { instruction, signed: false, failure: ErrorCode::TransferSolFailed }))
}

fn transfer_token(
    authority: Pubkey,
    from: Pubkey,
    to: Pubkey,
    mint: Pubkey,
    token_program: Pubkey,
    amount: u64,
    mint_decimals: u8,
    signed: bool,
) -> (r: Result<Option<Transfer>, Error>)
    ensures
        asks(
            r,
            token_transfer(authority, from, to, mint, token_program, amount, mint_decimals, signed),
        ),
{
    if amount == 0 {
        return Ok(None);
    }
    match transfer_checked_instruction(
        &token_program,
        &from,
        &mint,
        &to,
        &authority,
        amount,
        mint_decimals,
    ) {
        Ok(instruction) => Ok(
            Some(Transfer { instruction, signed, failure: ErrorCode::TransferTokenFailed }),
        ),
        Err(_) => Err(Error::Router(ErrorCode::TransferTokenFailed)),
    }
}

/// Asks for `amount` of a token to go from `from` to `to` under the signature of the user
/// `authority`. Nothing is asked for where the amount is zero. A failure, of the transfer
/// or in building it, stands for `TransferTokenFailed`.
pub fn transfer_token_from_user(
    authority: Pubkey,
    from: Pubkey,
    to: Pubkey,
    mint: Pubkey,
    token_program: Pubkey,
    amount: u64,
    mint_decimals: u8,
) -> (r: Result<Option<Transfer>, Error>)
    ensures
        asks(
            r,
            token_transfer(authority, from, to, mint, token_program, amount, mint_decimals, false),
        ),
{
    transfer_token(authority, from, to, mint, token_program, amount, mint_decimals, false)
}

/// Asks for `amount` of a token to go from `from` to `to` under the signature of the
/// program-derived authority `authority`. Nothing is asked for where the amount is zero. A
/// failure, of the transfer or in building it, stands for `TransferTokenFailed`.
pub fn transfer_token_from_sa_pda(
    authority: Pubkey,
    from: Pubkey,
    to: Pubkey,
    mint: Pubkey,
    token_program: Pubkey,
    amount: u64,
    mint_decimals: u8,
) -> (r: Result<Option<Transfer>, Error>)
    ensures
        asks(
            r,
            token_transfer(authority, from, to, mint, token_program, amount, mint_decimals, true),
        ),
{
    transfer_token(authority, from, to, mint, token_program, amount, mint_decimals, true)
}

/// What a transfer that was asked for comes to, given how its call went: the router's
/// failure it stands for where the call failed.
pub fn transfer_outcome(transfer: &Transfer, outcome: Result<(), u64>) -> (r: Result<(), Error>)
    ensures
        r == match outcome {
            Ok(_) => Ok::<(), Error>(()),
            Err(_) => Err::<(), Error>(Error::Router(transfer.failure)),
        },
{
    match outcome {
        Ok(_) => Ok(()),
        Err(_) => Err(Error::Router(transfer.failure)),
    }
}

} // verus!
