//! Accounts as the router sees them: an address, an owner, a balance and bytes.
//!
//! An `AccountInfo` is what one account held at the moment it was looked at. The typed views
//! built from it (`TokenAccount`, `Mint`, `Program`, `Interface`) say what the account was
//! found to be.

use crate::constants::{ASSOCIATED_TOKEN_PROGRAM, SYSTEM_PROGRAM, TOKEN_2022_PROGRAM, TOKEN_PROGRAM};
use crate::error::Error;
use anchor_lang::AccountDeserialize;
use vstd::prelude::*;

verus! {

/// An address.
#[derive(Clone, Copy, Debug, Eq)]
pub struct Pubkey {
    pub bytes: [u8; 32],
}

impl PartialEq for Pubkey {
    fn eq(&self, other: &Self) -> (r: bool) {
        let mut i: usize = 0;
        while i < 32
            invariant
                i <= 32,
                forall|j: int| 0 <= j < i ==> self.bytes[j] == other.bytes[j],
            decreases 32 - i,
        {
            if self.bytes[i] != other.bytes[i] {
                return false;
            }
            i = i + 1;
        }
        assert(self.bytes =~= other.bytes);
        true
    }
}

impl vstd::std_specs::cmp::PartialEqSpecImpl for Pubkey {
    open spec fn obeys_eq_spec() -> bool {
        true
    }

    open spec fn eq_spec(&self, other: &Self) -> bool {
        *self == *other
    }
}

/// The address made of `bytes`.
pub open spec fn address(bytes: [u8; 32]) -> Pubkey {
    Pubkey { bytes }
}

impl Pubkey {
    pub fn new_from_array(bytes: [u8; 32]) -> (r: Pubkey)
        ensures
            r == address(bytes),
    {
        Pubkey { bytes }
    }

    pub fn to_bytes(&self) -> (r: [u8; 32])
        ensures
            r == self.bytes,
    {
        self.bytes
    }

    /// The address held in the 32 bytes of `data` from `at` on.
    pub(crate) fn from_slice(data: &[u8], at: usize) -> (r: Pubkey)
        requires
            at + 32 <= data@.len(),
        ensures
            r.bytes@ == data@.subrange(at as int, at + 32),
    {
        let len: usize = data.len();
        let mut bytes: [u8; 32] = [0u8; 32];
        let mut i: usize = 0;
        while i < 32
            invariant
                i <= 32,
                at + 32 <= len == data@.len(),
                forall|j: int| 0 <= j < i ==> bytes@[j] == data@[at + j],
            decreases 32 - i,
        {
            bytes[i] = data[at + i];
            i = i + 1;
        }
        proof {
            assert(bytes@ =~= data@.subrange(at as int, at + 32));
        }
        Pubkey { bytes }
    }

    /// Whether this is the address made of `bytes`.
    pub fn is(&self, bytes: [u8; 32]) -> (r: bool)
        ensures
            r == (*self == address(bytes)),
    {
        let other = Pubkey { bytes };
        *self == other
    }
}

/// What one account held when it was looked at.
#[derive(Clone, Debug, PartialEq, Eq)]
pub struct AccountInfo {
    pub key: Pubkey,
    pub lamports: u64,
    pub data: Vec<u8>,
    pub owner: Pubkey,
    pub is_signer: bool,
    pub is_writable: bool,
    pub executable: bool,
}

/// One account of an instruction, and how the invoked program may use it.
#[derive(Clone, Copy, Debug, PartialEq, Eq)]
pub struct AccountMeta {
    pub pubkey: Pubkey,
    pub is_signer: bool,
    pub is_writable: bool,
}

/// The account `pubkey`, writable.
pub open spec fn writable(pubkey: Pubkey, is_signer: bool) -> AccountMeta {
    AccountMeta { pubkey, is_signer, is_writable: true }
}

/// The account `pubkey`, read only.
pub open spec fn readonly(pubkey: Pubkey, is_signer: bool) -> AccountMeta {
    AccountMeta { pubkey, is_signer, is_writable: false }
}

impl AccountMeta {
    pub fn new(pubkey: Pubkey, is_signer: bool) -> (r: AccountMeta)
        ensures
            r == writable(pubkey, is_signer),
    {
        AccountMeta { pubkey, is_signer, is_writable: true }
    }

    pub fn new_readonly(pubkey: Pubkey, is_signer: bool) -> (r: AccountMeta)
        ensures
            r == readonly(pubkey, is_signer),
    {
        AccountMeta { pubkey, is_signer, is_writable: false }
    }
}

/// A call of another program.
#[derive(Clone, Debug, PartialEq, Eq)]
pub struct Instruction {
    pub program_id: Pubkey,
    pub accounts: Vec<AccountMeta>,
    pub data: Vec<u8>,
}

/// An `Instruction` as a value.
pub ghost struct InstructionView {
    pub program_id: Pubkey,
    pub accounts: Seq<AccountMeta>,
    pub data: Seq<u8>,
}

impl View for Instruction {
    type V = InstructionView;

    open spec fn view(&self) -> InstructionView {
        InstructionView { program_id: self.program_id, accounts: self.accounts@, data: self.data@ }
    }
}

/// What a token account holds, as far as the router reads it.
#[derive(Clone, Copy, Debug)]
pub struct TokenState {
    pub mint: Pubkey,
    pub owner: Pubkey,
    pub amount: u64,
}

/// What a mint holds, as far as the router reads it.
#[derive(Clone, Copy, Debug)]
pub struct MintState {
    pub decimals: u8,
}

/// What the token programs' decoder makes of the bytes of a token account: its state, or
/// the numeric code of the failure.
pub uninterp spec fn token_state(data: Seq<u8>) -> Result<TokenState, u64>;

/// What the token programs' decoder makes of the bytes of a mint: its state, or the numeric
/// code of the failure.
pub uninterp spec fn mint_state(data: Seq<u8>) -> Result<MintState, u64>;

/// Calls `anchor_spl::token_interface::TokenAccount::try_deserialize`, which decodes a token
/// account of either token program, extensions included. The contract only gives the result
/// its name, `token_state`: the decoder reads nothing but the bytes it is handed.
#[verifier::external_body]
pub(crate) fn unpack_token_account(data: &[u8]) -> (r: Result<TokenState, u64>)
    ensures
        r == token_state(data@),
{
    let mut buf: &[u8] = data;
    match anchor_spl::token_interface::TokenAccount::try_deserialize(&mut buf) {
        Ok(t) => Ok(
            TokenState {
                mint: Pubkey { bytes: t.mint.to_bytes() },
                owner: Pubkey { bytes: t.owner.to_bytes() },
                amount: t.amount,
            },
        ),
        Err(e) => Err(u64::from(anchor_lang::prelude::ProgramError::from(e))),
    }
}

/// Calls `anchor_spl::token_interface::Mint::try_deserialize`, which decodes a mint of either
/// token program, extensions included. The contract only gives the result its name,
/// `mint_state`: the decoder reads nothing but the bytes it is handed.
#[verifier::external_body]
pub(crate) fn unpack_mint(data: &[u8]) -> (r: Result<MintState, u64>)
    ensures
        r == mint_state(data@),
{
    let mut buf: &[u8] = data;
    match anchor_spl::token_interface::Mint::try_deserialize(&mut buf) {
        Ok(m) => Ok(MintState { decimals: m.decimals }),
        Err(e) => Err(u64::from(anchor_lang::prelude::ProgramError::from(e))),
    }
}

/// Whether `owner` is one of the two token programs.
pub open spec fn is_token_program(owner: Pubkey) -> bool {
    owner == address(TOKEN_PROGRAM) || owner == address(TOKEN_2022_PROGRAM)
}

/// Why `info` cannot be an account of a token program, if it cannot: it was never
/// initialised, or another program owns it.
pub open spec fn token_owner_error(info: &AccountInfo) -> Option<Error> {
    if info.owner == address(SYSTEM_PROGRAM) && info.lamports == 0 {
        Some(Error::AccountNotInitialized)
    } else if !is_token_program(info.owner) {
        Some(Error::AccountOwnedByWrongProgram)
    } else {
        None
    }
}

fn check_token_owner(info: &AccountInfo) -> (r: Result<(), Error>)
    ensures
        match r {
            Ok(_) => token_owner_error(info) is None,
            Err(e) => token_owner_error(info) == Some(e),
        },
{
    if info.owner.is(SYSTEM_PROGRAM) && info.lamports == 0 {
        return Err(Error::AccountNotInitialized);
    }
    if !(info.owner.is(TOKEN_PROGRAM) || info.owner.is(TOKEN_2022_PROGRAM)) {
        return Err(Error::AccountOwnedByWrongProgram);
    }
    Ok(())
}

/// A token account: the account it was read from and its decoded state.
#[derive(Clone, Copy, Debug)]
pub struct TokenAccount<'info> {
    pub info: &'info AccountInfo,
    pub mint: Pubkey,
    pub owner: Pubkey,
    pub amount: u64,
}

impl<'info> TokenAccount<'info> {
    /// `info` read as a token account: it must be owned by a token program and decode.
    pub open spec fn parsed(info: &'info AccountInfo) -> Result<TokenAccount<'info>, Error> {
        match token_owner_error(info) {
            Some(e) => Err(e),
            None => match token_state(info.data@) {
                Ok(t) => Ok(TokenAccount { info, mint: t.mint, owner: t.owner, amount: t.amount }),
                Err(code) => Err(Error::Program(code)),
            },
        }
    }

    /// `info` read again after a call: only its bytes are decoded anew.
    pub open spec fn reloaded(info: &'info AccountInfo) -> Result<TokenAccount<'info>, Error> {
        match token_state(info.data@) {
            Ok(t) => Ok(TokenAccount { info, mint: t.mint, owner: t.owner, amount: t.amount }),
            Err(code) => Err(Error::Program(code)),
        }
    }

    pub fn try_from(info: &'info AccountInfo) -> (r: Result<TokenAccount<'info>, Error>)
        ensures
            r == Self::parsed(info),
    {
        check_token_owner(info)?;
        match unpack_token_account(info.data.as_slice()) {
            Ok(t) => Ok(TokenAccount { info, mint: t.mint, owner: t.owner, amount: t.amount }),
            Err(code) => Err(Error::Program(code)),
        }
    }

    /// Decodes the account as it stands in `info` now.
    pub fn reload(info: &'info AccountInfo) -> (r: Result<TokenAccount<'info>, Error>)
        ensures
            r == Self::reloaded(info),
    {
        match unpack_token_account(info.data.as_slice()) {
            Ok(t) => Ok(TokenAccount { info, mint: t.mint, owner: t.owner, amount: t.amount }),
            Err(code) => Err(Error::Program(code)),
        }
    }

    pub fn key(&self) -> (r: Pubkey)
        ensures
            r == self.info.key,
    {
        self.info.key
    }
}

/// A mint: the account it was read from and its decoded state.
#[derive(Clone, Copy, Debug)]
pub struct Mint<'info> {
    pub info: &'info AccountInfo,
    pub decimals: u8,
}

impl<'info> Mint<'info> {
    /// `info` read as a mint: it must be owned by a token program and decode.
    pub open spec fn parsed(info: &'info AccountInfo) -> Result<Mint<'info>, Error> {
        match token_owner_error(info) {
            Some(e) => Err(e),
            None => match mint_state(info.data@) {
                Ok(m) => Ok(Mint { info, decimals: m.decimals }),
                Err(code) => Err(Error::Program(code)),
            },
        }
    }

    pub fn try_from(info: &'info AccountInfo) -> (r: Result<Mint<'info>, Error>)
        ensures
            r == Self::parsed(info),
    {
        check_token_owner(info)?;
        match unpack_mint(info.data.as_slice()) {
            Ok(m) => Ok(Mint { info, decimals: m.decimals }),
            Err(code) => Err(Error::Program(code)),
        }
    }

    pub fn key(&self) -> (r: Pubkey)
        ensures
            r == self.info.key,
    {
        self.info.key
    }
}

/// The programs an account can be asked to be.
#[derive(Clone, Copy, Debug, PartialEq, Eq, Structural)]
pub enum ProgramKind {
    Token,
    Token2022,
    System,
    AssociatedToken,
}

impl ProgramKind {
    /// The address of the program.
    pub open spec fn id(self) -> Pubkey {
        match self {
            ProgramKind::Token => address(TOKEN_PROGRAM),
            ProgramKind::Token2022 => address(TOKEN_2022_PROGRAM),
            ProgramKind::System => address(SYSTEM_PROGRAM),
            ProgramKind::AssociatedToken => address(ASSOCIATED_TOKEN_PROGRAM),
        }
    }

    pub fn address(self) -> (r: Pubkey)
        ensures
            r == self.id(),
    {
        match self {
            ProgramKind::Token => Pubkey::new_from_array(TOKEN_PROGRAM),
            ProgramKind::Token2022 => Pubkey::new_from_array(TOKEN_2022_PROGRAM),
            ProgramKind::System => Pubkey::new_from_array(SYSTEM_PROGRAM),
            ProgramKind::AssociatedToken => Pubkey::new_from_array(ASSOCIATED_TOKEN_PROGRAM),
        }
    }
}

/// An account found to be one given program.
#[derive(Clone, Copy, Debug)]
pub struct Program<'info> {
    pub info: &'info AccountInfo,
}

impl<'info> Program<'info> {
    /// `info` read as the program `kind`: it must have that address and be executable.
    pub open spec fn parsed(info: &'info AccountInfo, kind: ProgramKind) -> Result<
        Program<'info>,
        Error,
    > {
        if info.key != kind.id() {
            Err(Error::InvalidProgramId)
        } else if !info.executable {
            Err(Error::InvalidProgramExecutable)
        } else {
            Ok(Program { info })
        }
    }

    pub fn try_from(info: &'info AccountInfo, kind: ProgramKind) -> (r: Result<
        Program<'info>,
        Error,
    >)
        ensures
            r == Self::parsed(info, kind),
    {
        if info.key != kind.address() {
            return Err(Error::InvalidProgramId);
        }
        if !info.executable {
            return Err(Error::InvalidProgramExecutable);
        }
        Ok(Program { info })
    }

    pub fn key(&self) -> (r: Pubkey)
        ensures
            r == self.info.key,
    {
        self.info.key
    }
}

/// An account found to be one of the two token programs.
#[derive(Clone, Copy, Debug)]
pub struct Interface<'info> {
    pub info: &'info AccountInfo,
}

impl<'info> Interface<'info> {
    /// `info` read as a token program: it must have the address of one and be executable.
    pub open spec fn parsed(info: &'info AccountInfo) -> Result<Interface<'info>, Error> {
        if !is_token_program(info.key) {
            Err(Error::InvalidProgramId)
        } else if !info.executable {
            Err(Error::InvalidProgramExecutable)
        } else {
            Ok(Interface { info })
        }
    }

    pub fn try_from(info: &'info AccountInfo) -> (r: Result<Interface<'info>, Error>)
        ensures
            r == Self::parsed(info),
    {
        if !(info.key.is(TOKEN_PROGRAM) || info.key.is(TOKEN_2022_PROGRAM)) {
            return Err(Error::InvalidProgramId);
        }
        if !info.executable {
            return Err(Error::InvalidProgramExecutable);
        }
        Ok(Interface { info })
    }

    pub fn key(&self) -> (r: Pubkey)
        ensures
            r == self.info.key,
    {
        self.info.key
    }
}

} // verus!
