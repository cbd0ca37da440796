//! What every adapter shares: the checks before a venue is called, the call as it is handed
//! out, and how its outcome is taken back in.

use crate::account::{
    address, writable, AccountInfo, AccountMeta, Instruction, InstructionView, Pubkey, TokenAccount,
};
use crate::constants::{AUTHORITY_PDA, ZERO_ADDRESS};
use crate::error::{Error, ErrorCode};
use crate::instructions::common::HopAccounts;
use vstd::prelude::*;

verus! {

/// Whether two accounts were seen to hold the same.
pub open spec fn same_account(first: &AccountInfo, second: &AccountInfo) -> bool {
    &&& first.key == second.key
    &&& first.lamports == second.lamports
    &&& first.data@ == second.data@
    &&& first.owner == second.owner
    &&& first.is_signer == second.is_signer
    &&& first.is_writable == second.is_writable
    &&& first.executable == second.executable
}

/// Whether two lists of accounts were seen to hold the same, account by account.
pub open spec fn same_accounts(first: Seq<AccountInfo>, second: Seq<AccountInfo>) -> bool {
    &&& first.len() == second.len()
    &&& forall|i: int| 0 <= i < first.len() ==> same_account(&#[trigger] first[i], &second[i])
}

/// Whether a hop runs under the caller's own signature: only the first hop of a call that
/// is not proxied does. Every other hop runs under the program-derived authority.
pub open spec fn is_direct(hop: usize, proxy_swap: bool) -> bool {
    !proxy_swap && hop == 0
}

/// Why a fork between `swap_source_token` and `swap_destination_token` does not continue the
/// hop chain, if it does not: it disagrees with the forks before it in the hop, or it does
/// not draw from the account the previous hop paid into.
pub open spec fn continuity_error(
    swap_source_token: Pubkey,
    swap_destination_token: Pubkey,
    hop_accounts: HopAccounts,
) -> Option<Error> {
    if hop_accounts.from_account != address(ZERO_ADDRESS) && swap_source_token
        != hop_accounts.from_account {
        Some(Error::Router(ErrorCode::InvalidHopAccounts))
    } else if hop_accounts.to_account != address(ZERO_ADDRESS) && swap_destination_token
        != hop_accounts.to_account {
        Some(Error::Router(ErrorCode::InvalidHopAccounts))
    } else if hop_accounts.last_to_account != address(ZERO_ADDRESS) && swap_source_token
        != hop_accounts.last_to_account {
        Some(Error::Router(ErrorCode::InvalidHopFromAccount))
    } else {
        None
    }
}

/// Why the authority may not act in this hop, if it may not: a direct hop wants its
/// signature, a delegated hop wants it to be the program-derived authority.
pub open spec fn authority_error(
    swap_authority_pubkey: &AccountInfo,
    hop: usize,
    proxy_swap: bool,
) -> Option<Error> {
    if is_direct(hop, proxy_swap) {
        if swap_authority_pubkey.is_signer {
            None
        } else {
            Some(Error::Router(ErrorCode::SwapAuthorityIsNotSigner))
        }
    } else if swap_authority_pubkey.key != address(AUTHORITY_PDA) {
        Some(Error::Router(ErrorCode::InvalidAuthorityPda))
    } else {
        None
    }
}

/// What `before_check` finds: the continuity of the hop chain comes first, the authority
/// second.
pub open spec fn before_check_error(
    swap_authority_pubkey: &AccountInfo,
    swap_source_token: Pubkey,
    swap_destination_token: Pubkey,
    hop_accounts: HopAccounts,
    hop: usize,
    proxy_swap: bool,
) -> Option<Error> {
    match continuity_error(swap_source_token, swap_destination_token, hop_accounts) {
        Some(e) => Some(e),
        None => authority_error(swap_authority_pubkey, hop, proxy_swap),
    }
}

fn check_continuity(
    swap_source_token: Pubkey,
    swap_destination_token: Pubkey,
    hop_accounts: &HopAccounts,
) -> (r: Result<(), Error>)
    ensures
        match r {
            Ok(_) => continuity_error(swap_source_token, swap_destination_token, *hop_accounts)
                is None,
            Err(e) => continuity_error(swap_source_token, swap_destination_token, *hop_accounts)
                == Some(e),
        },
{
    if !hop_accounts.from_account.is(ZERO_ADDRESS) && swap_source_token
        != hop_accounts.from_account {
        return Err(Error::Router(ErrorCode::InvalidHopAccounts));
    }
    if !hop_accounts.to_account.is(ZERO_ADDRESS) && swap_destination_token
        != hop_accounts.to_account {
        return Err(Error::Router(ErrorCode::InvalidHopAccounts));
    }
    if !hop_accounts.last_to_account.is(ZERO_ADDRESS) && swap_source_token
        != hop_accounts.last_to_account {
        return Err(Error::Router(ErrorCode::InvalidHopFromAccount));
    }
    Ok(())
}

/// The checks every venue shares, run before its call is prepared: the fork continues the
/// hop chain, and the authority fits the hop's signing mode.
pub fn before_check(
    swap_authority_pubkey: &AccountInfo,
    swap_source_token: Pubkey,
    swap_destination_token: Pubkey,
    hop_accounts: &HopAccounts,
    hop: usize,
    proxy_swap: bool,
) -> (r: Result<(), Error>)
    ensures
        match r {
            Ok(_) => before_check_error(
                swap_authority_pubkey,
                swap_source_token,
                swap_destination_token,
                *hop_accounts,
                hop,
                proxy_swap,
            ) is None,
            Err(e) => before_check_error(
                swap_authority_pubkey,
                swap_source_token,
                swap_destination_token,
                *hop_accounts,
                hop,
                proxy_swap,
            ) == Some(e),
        },
{
    check_continuity(swap_source_token, swap_destination_token, hop_accounts)?;
    if !proxy_swap && hop == 0 {
        if !swap_authority_pubkey.is_signer {
            return Err(Error::Router(ErrorCode::SwapAuthorityIsNotSigner));
        }
    } else if !swap_authority_pubkey.key.is(AUTHORITY_PDA) {
        return Err(Error::Router(ErrorCode::InvalidAuthorityPda));
    }
    Ok(())
}

/// An account to hand to a call: its place in the flat account list, and its address.
#[derive(Clone, Copy, Debug, PartialEq, Eq)]
pub struct AccountRef {
    pub place: usize,
    pub key: Pubkey,
}

/// The account with the address `key` that stands `slot` places after `offset` in the flat
/// account list.
pub open spec fn account_ref(key: Pubkey, offset: usize, slot: int) -> AccountRef {
    AccountRef { place: (offset + slot) as usize, key }
}

/// An account that a venue takes only where it is given: none where `key` is the address
/// of zeros.
pub open spec fn optional_meta(key: Pubkey) -> Seq<AccountMeta> {
    if key != address(ZERO_ADDRESS) {
        seq![writable(key, false)]
    } else {
        Seq::empty()
    }
}

/// An account that is handed to a call only where it is given: none where its address is
/// the address of zeros.
pub open spec fn optional_ref(account: AccountRef) -> Seq<AccountRef> {
    if account.key != address(ZERO_ADDRESS) {
        seq![account]
    } else {
        Seq::empty()
    }
}

/// One call for the caller to make: the instruction, the accounts to hand to it, whether it
/// is signed by the program-derived authority, and the router's failure that a failure of
/// the call stands for (none: the call's own failure is passed on).
#[derive(Clone, Debug, PartialEq, Eq)]
pub struct Call {
    pub instruction: Instruction,
    pub account_infos: Vec<AccountRef>,
    pub signed: bool,
    pub failure: Option<ErrorCode>,
}

/// A `Call` as a value.
pub ghost struct CallView {
    pub instruction: InstructionView,
    pub account_infos: Seq<AccountRef>,
    pub signed: bool,
    pub failure: Option<ErrorCode>,
}

impl View for Call {
    type V = CallView;

    open spec fn view(&self) -> CallView {
        CallView {
            instruction: self.instruction@,
            account_infos: self.account_infos@,
            signed: self.signed,
            failure: self.failure,
        }
    }
}

/// The calls of `calls` as values.
pub open spec fn call_views(calls: Seq<Call>) -> Seq<CallView> {
    Seq::new(calls.len(), |i: int| calls[i]@)
}

/// No calls around the venue's own.
pub open spec fn no_calls() -> Result<Seq<CallView>, Error> {
    Ok(Seq::empty())
}

/// No calls around the venue's own.
pub fn no_call() -> (r: Result<Vec<Call>, Error>)
    ensures
        r matches Ok(calls) && no_calls() == Ok::<Seq<CallView>, Error>(call_views(calls@)),
{
    let calls: Vec<Call> = Vec::new();
    proof {
        assert(call_views(calls@) =~= Seq::empty());
    }
    Ok(calls)
}

/// What a venue adds around its call. Most add nothing.
pub trait DexProcessor {
    /// The calls to make before the venue's own.
    spec fn calls_before(&self, account_infos: Seq<AccountRef>) -> Result<Seq<CallView>, Error>;

    /// The calls to make after the venue's own.
    spec fn calls_after(&self, account_infos: Seq<AccountRef>) -> Result<Seq<CallView>, Error>;

    fn before_invoke(&self, account_infos: &Vec<AccountRef>) -> (r: Result<Vec<Call>, Error>)
        ensures
            match r {
                Ok(calls) => self.calls_before(account_infos@) == Ok::<Seq<CallView>, Error>(
                    call_views(calls@),
                ),
                Err(e) => self.calls_before(account_infos@) == Err::<Seq<CallView>, Error>(e),
            },
    ;

    fn after_invoke(&self, account_infos: &Vec<AccountRef>) -> (r: Result<Vec<Call>, Error>)
        ensures
            match r {
                Ok(calls) => self.calls_after(account_infos@) == Ok::<Seq<CallView>, Error>(
                    call_views(calls@),
                ),
                Err(e) => self.calls_after(account_infos@) == Err::<Seq<CallView>, Error>(e),
            },
    ;
}

/// A venue's call, ready to be made: the calls around it, the token accounts it trades
/// between, the destination's balance before it, and where the account cursor stands once
/// it is made.
#[derive(Clone, Debug, PartialEq, Eq)]
pub struct Invocation {
    pub before: Vec<Call>,
    pub call: Call,
    pub after: Vec<Call>,
    pub swap_source_token: Pubkey,
    pub swap_destination_token: Pubkey,
    /// The place of the destination account in the flat account list.
    pub destination: usize,
    pub before_destination_balance: u64,
    pub next_offset: usize,
}

/// An `Invocation` as a value.
pub ghost struct InvocationView {
    pub before: Seq<CallView>,
    pub call: CallView,
    pub after: Seq<CallView>,
    pub swap_source_token: Pubkey,
    pub swap_destination_token: Pubkey,
    pub destination: usize,
    pub before_destination_balance: u64,
    pub next_offset: usize,
}

/// What becomes of a call that a venue would hand out at the start of a hop chain, when
/// the chain is `hop_accounts`: the call itself where it continues the chain, and the
/// break where it does not.
pub open spec fn chained(invocation: InvocationView, hop_accounts: HopAccounts) -> Result<
    InvocationView,
    Error,
> {
    match continuity_error(
        invocation.swap_source_token,
        invocation.swap_destination_token,
        hop_accounts,
    ) {
        Some(e) => Err(e),
        None => Ok(invocation),
    }
}

impl View for Invocation {
    type V = InvocationView;

    open spec fn view(&self) -> InvocationView {
        InvocationView {
            before: call_views(self.before@),
            call: self.call@,
            after: call_views(self.after@),
            swap_source_token: self.swap_source_token,
            swap_destination_token: self.swap_destination_token,
            destination: self.destination,
            before_destination_balance: self.before_destination_balance,
            next_offset: self.next_offset,
        }
    }
}

/// The call that failed, counted over the calls before the venue's, the venue's and those
/// after it, and the numeric code it failed with.
#[derive(Clone, Copy, Debug)]
pub struct CallFailure {
    pub call: usize,
    pub code: u64,
}

/// Whether `r` is the result `s`, with an invocation taken as a value.
pub open spec fn yields(r: Result<Invocation, Error>, s: Result<InvocationView, Error>) -> bool {
    match r {
        Ok(invocation) => s == Ok::<InvocationView, Error>(invocation@),
        Err(e) => s == Err::<InvocationView, Error>(e),
    }
}

/// How a user's two token accounts lie to the two sides of a pool or market: `Some(true)`
/// where the source is of the first side's asset and the destination of the second's,
/// `Some(false)` where it is the other way round, `None` where neither holds.
pub open spec fn direction(
    source_mint: Pubkey,
    destination_mint: Pubkey,
    first_mint: Pubkey,
    second_mint: Pubkey,
) -> Option<bool> {
    if source_mint == first_mint && destination_mint == second_mint {
        Some(true)
    } else if source_mint == second_mint && destination_mint == first_mint {
        Some(false)
    } else {
        None
    }
}

pub fn find_direction(
    source_mint: Pubkey,
    destination_mint: Pubkey,
    first_mint: Pubkey,
    second_mint: Pubkey,
) -> (r: Option<bool>)
    ensures
        r == direction(source_mint, destination_mint, first_mint, second_mint),
{
    if source_mint == first_mint && destination_mint == second_mint {
        Some(true)
    } else if source_mint == second_mint && destination_mint == first_mint {
        Some(false)
    } else {
        None
    }
}

/// The invocation that `invoke_process` hands out, or why it hands none out.
pub open spec fn prepared<T: DexProcessor>(
    dex_processor: &T,
    account_infos: Seq<AccountRef>,
    swap_source_token: Pubkey,
    swap_destination_account: TokenAccount,
    destination: usize,
    instruction: InstructionView,
    hop: usize,
    offset: usize,
    accounts_len: usize,
    proxy_swap: bool,
) -> Result<InvocationView, Error> {
    if offset + accounts_len > usize::MAX {
        Err(Error::Router(ErrorCode::CalculationError))
    } else {
        match dex_processor.calls_before(account_infos) {
            Err(e) => Err(e),
            Ok(before) => match dex_processor.calls_after(account_infos) {
                Err(e) => Err(e),
                Ok(after) => Ok(
                    InvocationView {
                        before,
                        call: CallView {
                            instruction,
                            account_infos,
                            signed: !is_direct(hop, proxy_swap),
                            failure: None,
                        },
                        after,
                        swap_source_token,
                        swap_destination_token: swap_destination_account.info.key,
                        destination,
                        before_destination_balance: swap_destination_account.amount,
                        next_offset: (offset + accounts_len) as usize,
                    },
                ),
            },
        }
    }
}

/// The account cursor moves by exactly the accounts a venue takes: behind every call that
/// `invoke_process` hands out it stands `accounts_len` places further than before, and
/// never further back.
pub proof fn lemma_prepared_cursor<T: DexProcessor>(
    dex_processor: &T,
    account_infos: Seq<AccountRef>,
    swap_source_token: Pubkey,
    swap_destination_account: TokenAccount,
    destination: usize,
    instruction: InstructionView,
    hop: usize,
    offset: usize,
    accounts_len: usize,
    proxy_swap: bool,
)
    ensures
        prepared(
            dex_processor,
            account_infos,
            swap_source_token,
            swap_destination_account,
            destination,
            instruction,
            hop,
            offset,
            accounts_len,
            proxy_swap,
        ) matches Ok(invocation) ==> {
            &&& invocation.next_offset == offset + accounts_len
            &&& invocation.next_offset >= offset
            &&& invocation.swap_source_token == swap_source_token
            &&& invocation.swap_destination_token == swap_destination_account.info.key
            &&& invocation.before_destination_balance == swap_destination_account.amount
        },
{
}

/// Prepares a venue's call: notes the destination's balance, puts the venue's extra calls
/// around its own, picks the signing mode of the hop, and says where the account cursor
/// will stand. A cursor that would leave the range of the machine's addresses is a
/// failure of the arithmetic.
pub fn invoke_process<T: DexProcessor>(
    dex_processor: &T,
    account_infos: Vec<AccountRef>,
    swap_source_token: Pubkey,
    swap_destination_account: &TokenAccount,
    destination: usize,
    instruction: Instruction,
    hop: usize,
    offset: usize,
    accounts_len: usize,
    proxy_swap: bool,
) -> (r: Result<Invocation, Error>)
    ensures
        yields(
            r,
            prepared(
                dex_processor,
                account_infos@,
                swap_source_token,
                *swap_destination_account,
                destination,
                instruction@,
                hop,
                offset,
                accounts_len,
                proxy_swap,
            ),
        ),
{
    if accounts_len > usize::MAX - offset {
        return Err(Error::Router(ErrorCode::CalculationError));
    }
    let before = dex_processor.before_invoke(&account_infos)?;
    let after = dex_processor.after_invoke(&account_infos)?;
    let signed: bool = !(!proxy_swap && hop == 0);
    Ok(
        Invocation {
            before,
            call: Call { instruction, account_infos, signed, failure: None },
            after,
            swap_source_token,
            swap_destination_token: swap_destination_account.key(),
            destination,
            before_destination_balance: swap_destination_account.amount,
            next_offset: offset + accounts_len,
        },
    )
}

impl InvocationView {
    /// The calls in the order they are made.
    pub open spec fn calls(self) -> Seq<CallView> {
        self.before.push(self.call) + self.after
    }

    /// What a failure of one of the calls makes the invocation fail with: the router's
    /// failure the call stands for, or else the call's own code.
    pub open spec fn failure(self, failed: CallFailure) -> Error {
        if failed.call < self.calls().len() && self.calls()[failed.call as int].failure is Some {
            Error::Router(self.calls()[failed.call as int].failure->Some_0)
        } else {
            Error::Program(failed.code)
        }
    }

    /// What the venue's call realised, given how the calls went and the destination account
    /// as it stands after them: the growth of the destination's balance.
    pub open spec fn realized(
        self,
        outcome: Result<(), CallFailure>,
        destination_after: &AccountInfo,
    ) -> Result<u64, Error> {
        match outcome {
            Err(failed) => Err(self.failure(failed)),
            Ok(_) => match TokenAccount::reloaded(destination_after) {
                Err(e) => Err(e),
                Ok(after) => if after.amount < self.before_destination_balance {
                    Err(Error::Router(ErrorCode::CalculationError))
                } else {
                    Ok((after.amount - self.before_destination_balance) as u64)
                },
            },
        }
    }
}

impl Invocation {
    fn failure(&self, failed: CallFailure) -> (r: Error)
        ensures
            r == self@.failure(failed),
    {
        let before_len: usize = self.before.len();
        let after_len: usize = self.after.len();
        proof {
            assert(self@.calls().len() == before_len + 1 + after_len);
        }
        let stands_for: Option<ErrorCode> = if failed.call < before_len {
            proof {
                assert(self@.calls()[failed.call as int] == self.before@[failed.call as int]@);
            }
            self.before[failed.call].failure
        } else if failed.call == before_len {
            proof {
                assert(self@.calls()[failed.call as int] == self.call@);
            }
            self.call.failure
        } else if failed.call - before_len - 1 < after_len {
            proof {
                assert(self@.calls()[failed.call as int] == self.after@[failed.call - before_len
                    - 1]@);
            }
            self.after[failed.call - before_len - 1].failure
        } else {
            None
        };
        match stands_for {
            Some(code) => Error::Router(code),
            None => Error::Program(failed.code),
        }
    }

    /// What the venue's call realised: the growth of the destination's balance, given how
    /// the calls went and the destination account as it stands after them.
    pub fn realized_output(
        &self,
        outcome: Result<(), CallFailure>,
        destination_after: &AccountInfo,
    ) -> (r: Result<u64, Error>)
        ensures
            r == self@.realized(outcome, destination_after),
    {
        match outcome {
            Err(failed) => {
                return Err(self.failure(failed));
            },
            Ok(_) => {},
        }
        let after = TokenAccount::reload(destination_after)?;
        if after.amount < self.before_destination_balance {
            return Err(Error::Router(ErrorCode::CalculationError));
        }
        Ok(after.amount - self.before_destination_balance)
    }

    /// Takes the outcome of the calls back in. Where they went through and the destination
    /// grew, moves the account cursor past the venue's accounts, records the token accounts
    /// traded between, and gives the growth of the destination's balance. On failure the
    /// cursor and the hop's accounts stay as they were.
    pub fn complete(
        &self,
        outcome: Result<(), CallFailure>,
        destination_after: &AccountInfo,
        offset: &mut usize,
        hop_accounts: &mut HopAccounts,
    ) -> (r: Result<u64, Error>)
        ensures
            r == self@.realized(outcome, destination_after),
            r is Ok ==> *final(offset) == self.next_offset && *final(hop_accounts) == (HopAccounts {
                last_to_account: old(hop_accounts).last_to_account,
                from_account: self.swap_source_token,
                to_account: self.swap_destination_token,
            }),
            r is Err ==> *final(offset) == *old(offset) && *final(hop_accounts) == *old(
                hop_accounts,
            ),
    {
        let amount_out: u64 = self.realized_output(outcome, destination_after)?;
        *offset = self.next_offset;
        hop_accounts.from_account = self.swap_source_token;
        hop_accounts.to_account = self.swap_destination_token;
        Ok(amount_out)
    }
}

} // verus!
