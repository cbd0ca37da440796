//! The adapters, each on accounts laid out as its venue wants them.

use anchor_lang::solana_program::program_option::COption;
use anchor_lang::solana_program::program_pack::Pack;
use anchor_spl::token::spl_token::state::{Account as PackedAccount, AccountState, Mint as PackedMint};
use dex_solana::account::{AccountInfo, AccountMeta, Instruction, Program, Pubkey, TokenAccount};
use dex_solana::adapters::common::{
    before_check, invoke_process, AccountRef, DexProcessor, Invocation,
};
use dex_solana::adapters::{
    aldrin, meteora, obric_v2, openbookv2, phoenix, pumpfun, raydium, sanctum, spl_token_swap,
    whirlpool,
};
use dex_solana::constants::{
    ALDRIN_V1_PROGRAM, ALDRIN_V2_PROGRAM, ASSOCIATED_TOKEN_PROGRAM, AUTHORITY_PDA,
    FLUX_BEAM_PROGRAM, LIFINITY_V1POOL_PROGRAM, LIFINITY_V2POOL_PROGRAM, METEORA_DLMM_PROGRAM,
    METEORA_DYNAMICPOOL_PROGRAM, OBRIC_V2_PROGRAM, OPENBOOKV2_PROGRAM, PHOENIX_PROGRAM,
    PUMPFUN_PROGRAM, RAYDIUM_CLMM_PROGRAM, RAYDIUM_CPMM_PROGRAM, RAYDIUM_STABLE_PROGRAM,
    RAYDIUM_SWAP_PROGRAM, SANCTUM_PROGRAM, SYSTEM_PROGRAM, TOKEN_2022_PROGRAM, TOKEN_PROGRAM,
    WHIRLPOOL_PROGRAM, WSOL_PROGRAM, ZERO_ADDRESS,
};
use dex_solana::error::{Error, ErrorCode};
use dex_solana::instructions::common::{excute_swap, Dex, HopAccounts};

/// What stands at one place of a venue's accounts.
#[derive(Clone)]
enum Slot {
    /// An account that is only named.
    Raw,
    /// An account that is only named, with the given address.
    Named([u8; 32]),
    /// An account that is only named and that signed.
    Signer,
    /// A token account of the mint with the given address.
    Token([u8; 32]),
    /// A mint at the given address.
    Mint([u8; 32]),
    /// A program.
    Program([u8; 32]),
    /// An account that is only named, with the given bytes.
    Data(Vec<u8>),
}

const A: [u8; 32] = [1; 32];
const B: [u8; 32] = [2; 32];
const OTHER: [u8; 32] = [9; 32];
const USER: [u8; 32] = [200; 32];

fn key(n: u8) -> Pubkey {
    Pubkey::new_from_array([n; 32])
}

fn plain(address: [u8; 32]) -> AccountInfo {
    AccountInfo {
        key: Pubkey::new_from_array(address),
        lamports: 1,
        data: Vec::new(),
        owner: Pubkey::new_from_array(SYSTEM_PROGRAM),
        is_signer: false,
        is_writable: true,
        executable: false,
    }
}

fn token_data(mint: [u8; 32], owner: [u8; 32], amount: u64) -> Vec<u8> {
    let packed = PackedAccount {
        mint: anchor_lang::prelude::Pubkey::new_from_array(mint),
        owner: anchor_lang::prelude::Pubkey::new_from_array(owner),
        amount,
        delegate: COption::None,
        state: AccountState::Initialized,
        is_native: COption::None,
        delegated_amount: 0,
        close_authority: COption::None,
    };
    let mut data = vec![0u8; PackedAccount::LEN];
    PackedAccount::pack(packed, &mut data).unwrap();
    data
}

fn mint_data(decimals: u8) -> Vec<u8> {
    let packed = PackedMint {
        mint_authority: COption::None,
        supply: 1_000_000,
        decimals,
        is_initialized: true,
        freeze_authority: COption::None,
    };
    let mut data = vec![0u8; PackedMint::LEN];
    PackedMint::pack(packed, &mut data).unwrap();
    data
}

/// Accounts for the given places; the account at place `i` has the address of bytes
/// `base + i`, unless its place names another.
fn accounts(slots: &[Slot], base: u8) -> Vec<AccountInfo> {
    slots
        .iter()
        .enumerate()
        .map(|(i, slot)| {
            let own = [base + i as u8; 32];
            match slot {
                Slot::Raw => plain(own),
                Slot::Named(address) => plain(*address),
                Slot::Signer => AccountInfo { is_signer: true, ..plain(own) },
                Slot::Token(mint) => AccountInfo {
                    data: token_data(*mint, USER, 77),
                    owner: Pubkey::new_from_array(TOKEN_PROGRAM),
                    ..plain(own)
                },
                Slot::Mint(address) => AccountInfo {
                    data: mint_data(6),
                    owner: Pubkey::new_from_array(TOKEN_PROGRAM),
                    ..plain(*address)
                },
                Slot::Program(address) => AccountInfo { executable: true, ..plain(*address) },
                Slot::Data(data) => AccountInfo { data: data.clone(), ..plain(own) },
            }
        })
        .collect()
}

fn head(program: [u8; 32]) -> Vec<Slot> {
    vec![Slot::Named(program), Slot::Signer, Slot::Token(A), Slot::Token(B)]
}

fn raws(n: usize) -> Vec<Slot> {
    vec![Slot::Raw; n]
}

fn join(parts: Vec<Vec<Slot>>) -> Vec<Slot> {
    parts.into_iter().flatten().collect()
}

fn market(len: usize, fields: &[(usize, u64)]) -> Slot {
    let mut data = vec![0u8; len];
    for (at, value) in fields {
        data[*at..*at + 8].copy_from_slice(&value.to_le_bytes());
    }
    Slot::Data(data)
}

fn lst_entry(mint: [u8; 32]) -> Vec<u8> {
    let mut entry = vec![0u8; 16];
    entry.extend_from_slice(&mint);
    entry.extend_from_slice(&[7u8; 32]);
    entry
}

fn lst_list(mints: &[[u8; 32]]) -> Slot {
    Slot::Data(mints.iter().flat_map(|m| lst_entry(*m)).collect())
}

const LST: [u8; 32] = [61; 32];
const LST2: [u8; 32] = [62; 32];
const LP: [u8; 32] = [63; 32];

fn sanctum_liquidity(mint: [u8; 32], tail: usize) -> Vec<Slot> {
    join(vec![
        vec![
            Slot::Named(SANCTUM_PROGRAM),
            Slot::Signer,
            Slot::Mint(mint),
            Slot::Token(A),
            Slot::Token(B),
            Slot::Mint(LP),
            Slot::Token(OTHER),
            Slot::Program(TOKEN_PROGRAM),
            Slot::Program(TOKEN_PROGRAM),
            Slot::Raw,
            lst_list(&[OTHER, LST, WSOL_PROGRAM, LST2]),
            Slot::Raw,
        ],
        raws(tail),
    ])
}

fn sanctum_swap(source_mint: [u8; 32], destination_mint: [u8; 32], tail: usize) -> Vec<Slot> {
    join(vec![
        vec![
            Slot::Named(SANCTUM_PROGRAM),
            Slot::Signer,
            Slot::Mint(source_mint),
            Slot::Mint(destination_mint),
            Slot::Token(A),
            Slot::Token(B),
            Slot::Token(OTHER),
            Slot::Program(TOKEN_PROGRAM),
            Slot::Program(TOKEN_PROGRAM),
            Slot::Raw,
            lst_list(&[OTHER, LST, WSOL_PROGRAM, LST2]),
            Slot::Raw,
            Slot::Raw,
        ],
        raws(tail),
    ])
}

fn curve(virtual_token_reserves: u64, virtual_sol_reserves: u64) -> Slot {
    market(49, &[(8, virtual_token_reserves), (16, virtual_sol_reserves)])
}

/// The places of a venue's accounts, and how many accounts its instruction names.
fn layout(dex: Dex) -> (Vec<Slot>, usize) {
    let token = || Slot::Program(TOKEN_PROGRAM);
    match dex {
        Dex::SplTokenSwap => (
            join(vec![
                head(OTHER),
                raws(2),
                vec![Slot::Token(A), Slot::Token(B), Slot::Raw, Slot::Token(OTHER), token()],
            ]),
            10,
        ),
        Dex::StableSwap => (
            join(vec![
                head(OTHER),
                raws(2),
                vec![Slot::Token(A), Slot::Token(B), Slot::Token(OTHER), token()],
            ]),
            9,
        ),
        Dex::Whirlpool => (
            join(vec![
                head(WHIRLPOOL_PROGRAM),
                vec![token(), Slot::Raw, Slot::Token(A), Slot::Token(B)],
                raws(4),
            ]),
            11,
        ),
        Dex::WhirlpoolV2 => (
            join(vec![
                head(WHIRLPOOL_PROGRAM),
                vec![token(), Slot::Program(TOKEN_2022_PROGRAM), Slot::Raw, Slot::Raw],
                vec![Slot::Mint(A), Slot::Mint(B), Slot::Token(A), Slot::Token(B)],
                raws(4),
            ]),
            15,
        ),
        Dex::MeteoraDynamicpool => (
            join(vec![
                head(METEORA_DYNAMICPOOL_PROGRAM),
                raws(5),
                vec![Slot::Mint([70; 32]), Slot::Mint([71; 32])],
                vec![Slot::Token(OTHER), Slot::Token(OTHER)],
                raws(2),
                vec![token()],
            ]),
            15,
        ),
        Dex::MeteoraDlmm => (
            join(vec![
                head(METEORA_DLMM_PROGRAM),
                raws(2),
                vec![Slot::Token(A), Slot::Token(B), Slot::Mint(A), Slot::Mint(B)],
                raws(6),
                vec![Slot::Named(ZERO_ADDRESS), Slot::Raw],
            ]),
            17,
        ),
        Dex::RaydiumSwap => (
            join(vec![
                head(RAYDIUM_SWAP_PROGRAM),
                vec![token()],
                raws(4),
                vec![Slot::Token(A), Slot::Token(B)],
                raws(5),
                vec![Slot::Token(A), Slot::Token(B), Slot::Raw],
            ]),
            18,
        ),
        Dex::RaydiumStableSwap => (
            join(vec![
                head(RAYDIUM_STABLE_PROGRAM),
                vec![token()],
                raws(3),
                vec![Slot::Token(A), Slot::Token(B)],
                raws(6),
                vec![Slot::Token(A), Slot::Token(B), Slot::Raw],
            ]),
            18,
        ),
        Dex::RaydiumClmmSwap => (
            join(vec![
                head(RAYDIUM_CLMM_PROGRAM),
                raws(7),
                vec![Slot::Named(ZERO_ADDRESS), Slot::Named(ZERO_ADDRESS), token()],
            ]),
            11,
        ),
        Dex::RaydiumClmmSwapV2 => (
            join(vec![
                head(RAYDIUM_CLMM_PROGRAM),
                raws(2),
                vec![Slot::Token(A), Slot::Token(B), Slot::Raw, token()],
                vec![Slot::Program(TOKEN_2022_PROGRAM), Slot::Raw, Slot::Mint(A), Slot::Mint(B)],
                raws(4),
            ]),
            17,
        ),
        Dex::RaydiumCpmmSwap => (
            join(vec![
                head(RAYDIUM_CPMM_PROGRAM),
                raws(3),
                vec![Slot::Token(A), Slot::Token(B), token()],
                vec![Slot::Program(TOKEN_2022_PROGRAM), Slot::Mint(A), Slot::Mint(B), Slot::Raw],
            ]),
            13,
        ),
        Dex::AldrinExchangeV1 => (
            join(vec![
                head(ALDRIN_V1_PROGRAM),
                raws(2),
                vec![Slot::Mint(LP), Slot::Token(A), Slot::Token(B), Slot::Token(LP), token()],
            ]),
            10,
        ),
        Dex::AldrinExchangeV2 => (
            join(vec![
                head(ALDRIN_V2_PROGRAM),
                raws(2),
                vec![Slot::Mint(LP), Slot::Token(A), Slot::Token(B), Slot::Token(LP)],
                vec![Slot::Raw, token()],
            ]),
            11,
        ),
        Dex::LifinityV1 => (
            join(vec![
                head(LIFINITY_V1POOL_PROGRAM),
                raws(2),
                vec![Slot::Token(A), Slot::Token(B), Slot::Mint(LP)],
                raws(4),
                vec![token()],
            ]),
            13,
        ),
        Dex::LifinityV2 => (
            join(vec![
                head(LIFINITY_V2POOL_PROGRAM),
                raws(2),
                vec![Slot::Token(A), Slot::Token(B), Slot::Mint(LP)],
                raws(4),
                vec![token()],
            ]),
            13,
        ),
        Dex::FluxBeam => (
            join(vec![
                head(FLUX_BEAM_PROGRAM),
                raws(2),
                vec![Slot::Token(A), Slot::Token(B), Slot::Raw, Slot::Token(LP)],
                vec![Slot::Mint(A), Slot::Mint(B), Slot::Raw, Slot::Raw],
                vec![Slot::Program(TOKEN_2022_PROGRAM)],
            ]),
            14,
        ),
        Dex::OpenBookV2 => (
            join(vec![
                head(OPENBOOKV2_PROGRAM),
                vec![market(848, &[(448, 10), (456, 100)])],
                raws(3),
                vec![Slot::Token(A), Slot::Token(B)],
                raws(3),
                vec![token(), Slot::Program(SYSTEM_PROGRAM), Slot::Raw],
                vec![Slot::Raw, Slot::Named(ZERO_ADDRESS), Slot::Raw],
            ]),
            18,
        ),
        Dex::Phoenix => (
            join(vec![
                head(PHOENIX_PROGRAM),
                vec![Slot::Raw, market(624, &[(112, 100), (192, 10)])],
                vec![Slot::Token(A), Slot::Token(B), token()],
            ]),
            9,
        ),
        Dex::ObricV2 => (
            join(vec![
                head(OBRIC_V2_PROGRAM),
                vec![Slot::Raw, Slot::Mint(A), Slot::Mint(B), Slot::Token(A), Slot::Token(B)],
                raws(3),
                vec![token()],
            ]),
            12,
        ),
        Dex::SanctumAddLiq => (sanctum_liquidity(LST, 6), 17),
        Dex::SanctumRemoveLiq => (sanctum_liquidity(WSOL_PROGRAM, 3), 14),
        Dex::SanctumNonWsolSwap => (sanctum_swap(LST, LST2, 13), 25),
        Dex::SanctumWsolSwap => (sanctum_swap(LST2, WSOL_PROGRAM, 9), 21),
        Dex::PumpfunBuy => (
            join(vec![
                head(PUMPFUN_PROGRAM),
                raws(2),
                vec![Slot::Mint(B), curve(1_000_000, 2_000), Slot::Raw],
                vec![Slot::Program(SYSTEM_PROGRAM), token(), Slot::Raw, Slot::Raw],
            ]),
            12,
        ),
        Dex::PumpfunSell => (
            join(vec![
                head(PUMPFUN_PROGRAM),
                raws(2),
                vec![Slot::Mint(A), curve(1_000_000, 2_000), Slot::Raw],
                vec![Slot::Program(SYSTEM_PROGRAM), Slot::Program(ASSOCIATED_TOKEN_PROGRAM)],
                vec![token(), Slot::Raw],
            ]),
            12,
        ),
    }
}

const ALL: [Dex; 25] = [
    Dex::SplTokenSwap,
    Dex::StableSwap,
    Dex::Whirlpool,
    Dex::MeteoraDynamicpool,
    Dex::RaydiumSwap,
    Dex::RaydiumStableSwap,
    Dex::RaydiumClmmSwap,
    Dex::AldrinExchangeV1,
    Dex::AldrinExchangeV2,
    Dex::LifinityV1,
    Dex::LifinityV2,
    Dex::RaydiumClmmSwapV2,
    Dex::FluxBeam,
    Dex::MeteoraDlmm,
    Dex::RaydiumCpmmSwap,
    Dex::OpenBookV2,
    Dex::WhirlpoolV2,
    Dex::Phoenix,
    Dex::ObricV2,
    Dex::SanctumAddLiq,
    Dex::SanctumRemoveLiq,
    Dex::SanctumNonWsolSwap,
    Dex::SanctumWsolSwap,
    Dex::PumpfunBuy,
    Dex::PumpfunSell,
];

fn fresh() -> HopAccounts {
    HopAccounts::new(Pubkey::new_from_array(ZERO_ADDRESS))
}

fn prepare(dex: Dex, list: &[AccountInfo], offset: usize) -> Result<Invocation, Error> {
    excute_swap(&dex, list, 1000, offset, &fresh(), 0, false)
}

/// The places of the source and of the destination among a venue's accounts.
fn ends(dex: Dex) -> (usize, usize) {
    match dex {
        Dex::SanctumAddLiq => (3, 4),
        Dex::SanctumRemoveLiq => (4, 3),
        Dex::SanctumNonWsolSwap | Dex::SanctumWsolSwap => (4, 5),
        _ => (2, 3),
    }
}

#[test]
fn every_venue_prepares_its_call_from_its_own_accounts() {
    for dex in ALL {
        let (slots, named) = layout(dex);
        let taken = slots.len();
        // three accounts of another venue stand before this venue's, and one stands behind
        let mut list = accounts(&raws(3), 240);
        list.extend(accounts(&slots, 100));
        list.push(plain([250; 32]));
        let invocation = prepare(dex, &list, 3).unwrap_or_else(|e| panic!("{:?}: {:?}", dex, e));
        assert_eq!(invocation.next_offset, 3 + taken, "{:?}", dex);
        assert_eq!(invocation.call.instruction.accounts.len(), named, "{:?}", dex);
        let (source, destination) = ends(dex);
        assert_eq!(invocation.swap_source_token, list[3 + source].key, "{:?}", dex);
        assert_eq!(invocation.swap_destination_token, list[3 + destination].key, "{:?}", dex);
        assert_eq!(invocation.destination, 3 + destination, "{:?}", dex);
        assert_eq!(invocation.before_destination_balance, 77, "{:?}", dex);
        assert_eq!(invocation.call.instruction.program_id, list[3].key, "{:?}", dex);
        assert!(!invocation.call.signed);
        for handed in invocation.call.account_infos.iter() {
            assert!(3 <= handed.place && handed.place < 3 + taken, "{:?}", dex);
            assert_eq!(handed.key, list[handed.place].key, "{:?}", dex);
        }
        // every account the instruction names is handed to the call
        for meta in invocation.call.instruction.accounts.iter() {
            assert!(
                invocation.call.account_infos.iter().any(|a| a.key == meta.pubkey),
                "{:?}",
                dex
            );
        }
        // one account less and the venue has too few
        assert_eq!(
            prepare(dex, &list[..3 + taken - 1], 3).err(),
            Some(Error::Router(ErrorCode::InvalidAccountsLength)),
            "{:?}",
            dex
        );
    }
}

#[test]
fn a_venue_must_be_the_program_its_tag_stands_for() {
    for dex in ALL {
        if matches!(dex, Dex::SplTokenSwap | Dex::StableSwap) {
            continue;
        }
        let (slots, _) = layout(dex);
        let mut list = accounts(&slots, 100);
        list[0].key = key(99);
        assert_eq!(
            prepare(dex, &list, 0).err(),
            Some(Error::Router(ErrorCode::InvalidProgramId)),
            "{:?}",
            dex
        );
    }
}

#[test]
fn a_direct_hop_wants_the_signature_and_a_delegated_hop_the_authority() {
    for dex in ALL {
        let (slots, _) = layout(dex);
        let mut list = accounts(&slots, 100);
        list[1].is_signer = false;
        assert_eq!(
            prepare(dex, &list, 0).err(),
            Some(Error::Router(ErrorCode::SwapAuthorityIsNotSigner)),
            "{:?}",
            dex
        );
        let later = excute_swap(&dex, &list, 1000, 0, &fresh(), 1, false);
        assert_eq!(later.err(), Some(Error::Router(ErrorCode::InvalidAuthorityPda)), "{:?}", dex);
        let proxied = excute_swap(&dex, &list, 1000, 0, &fresh(), 0, true);
        assert_eq!(proxied.err(), Some(Error::Router(ErrorCode::InvalidAuthorityPda)), "{:?}", dex);
        // the owner of the source account is no delegate, at any venue
        list[1].key = Pubkey::new_from_array(USER);
        let later = excute_swap(&dex, &list, 1000, 0, &fresh(), 1, false);
        assert_eq!(later.err(), Some(Error::Router(ErrorCode::InvalidAuthorityPda)), "{:?}", dex);
        list[1].key = Pubkey::new_from_array(AUTHORITY_PDA);
        let later = excute_swap(&dex, &list, 1000, 0, &fresh(), 1, false).unwrap();
        assert!(later.call.signed, "{:?}", dex);
        let proxied = excute_swap(&dex, &list, 1000, 0, &fresh(), 0, true).unwrap();
        assert!(proxied.call.signed, "{:?}", dex);
    }
}

#[test]
fn forks_of_a_hop_must_agree_and_hops_must_chain() {
    for dex in ALL {
        let (slots, _) = layout(dex);
        let list = accounts(&slots, 100);
        let (source, destination) = ends(dex);
        let with = |from: Pubkey, to: Pubkey, last: Pubkey| {
            let hop_accounts = HopAccounts { last_to_account: last, from_account: from, to_account: to };
            excute_swap(&dex, &list, 1000, 0, &hop_accounts, 0, false).err()
        };
        let zero = Pubkey::new_from_array(ZERO_ADDRESS);
        let (from, to) = (list[source].key, list[destination].key);
        assert_eq!(with(from, to, from), None, "{:?}", dex);
        assert_eq!(
            with(key(98), to, zero),
            Some(Error::Router(ErrorCode::InvalidHopAccounts)),
            "{:?}",
            dex
        );
        assert_eq!(
            with(from, key(98), zero),
            Some(Error::Router(ErrorCode::InvalidHopAccounts)),
            "{:?}",
            dex
        );
        assert_eq!(
            with(zero, zero, key(98)),
            Some(Error::Router(ErrorCode::InvalidHopFromAccount)),
            "{:?}",
            dex
        );
    }
}

#[test]
fn the_shared_checks_come_in_their_order() {
    let authority = plain([5; 32]);
    let both_wrong = HopAccounts { last_to_account: key(3), from_account: key(1), to_account: key(2) };
    assert_eq!(
        before_check(&authority, key(7), key(2), &both_wrong, 0, false),
        Err(Error::Router(ErrorCode::InvalidHopAccounts))
    );
    assert_eq!(
        before_check(&authority, key(1), key(2), &both_wrong, 0, false),
        Err(Error::Router(ErrorCode::InvalidHopFromAccount))
    );
    let chained = HopAccounts { last_to_account: key(1), from_account: key(1), to_account: key(2) };
    assert_eq!(
        before_check(&authority, key(1), key(2), &chained, 0, false),
        Err(Error::Router(ErrorCode::SwapAuthorityIsNotSigner))
    );
    let signed = AccountInfo { is_signer: true, ..authority };
    assert_eq!(before_check(&signed, key(1), key(2), &chained, 0, false), Ok(()));
    assert_eq!(
        before_check(&signed, key(1), key(2), &chained, 0, true),
        Err(Error::Router(ErrorCode::InvalidAuthorityPda))
    );
    assert_eq!(before_check(&plain(AUTHORITY_PDA), key(1), key(2), &chained, 2, false), Ok(()));
}

#[test]
fn accounts_must_be_what_their_places_ask_for() {
    let (slots, _) = layout(Dex::SplTokenSwap);
    let good = accounts(&slots, 100);
    let failure = |change: &dyn Fn(&mut Vec<AccountInfo>)| {
        let mut list = good.clone();
        change(&mut list);
        prepare(Dex::SplTokenSwap, &list, 0).err()
    };
    assert_eq!(failure(&|_| ()), None);
    assert_eq!(
        failure(&|l| l[2].owner = key(50)),
        Some(Error::AccountOwnedByWrongProgram)
    );
    assert_eq!(
        failure(&|l| {
            l[3].owner = Pubkey::new_from_array(SYSTEM_PROGRAM);
            l[3].lamports = 0;
        }),
        Some(Error::AccountNotInitialized)
    );
    assert_eq!(
        failure(&|l| l[6].owner = Pubkey::new_from_array(TOKEN_2022_PROGRAM)),
        None
    );
    // bytes that are no token account: the decoder's code for invalid account data
    assert_eq!(failure(&|l| l[7].data.truncate(100)), Some(Error::Program(4 << 32)));
    // a token account that was never initialised: the decoder's code for that
    assert_eq!(
        failure(&|l| l[9].data = vec![0u8; 165]),
        Some(Error::Program(10 << 32))
    );
    assert_eq!(failure(&|l| l[10].key = key(50)), Some(Error::InvalidProgramId));
    assert_eq!(failure(&|l| l[10].executable = false), Some(Error::InvalidProgramExecutable));
    // the first account that is not what its place asks for decides
    assert_eq!(
        failure(&|l| {
            l[10].executable = false;
            l[6].owner = key(50);
        }),
        Some(Error::AccountOwnedByWrongProgram)
    );
}

fn meta(address: Pubkey, is_signer: bool, is_writable: bool) -> AccountMeta {
    AccountMeta { pubkey: address, is_signer, is_writable }
}

#[test]
fn a_token_swap_pool_is_put_in_the_direction_of_the_trade() {
    let (slots, _) = layout(Dex::SplTokenSwap);
    let mut list = accounts(&slots, 100);
    let forward = prepare(Dex::SplTokenSwap, &list, 0).unwrap();
    let k = |i: usize| list[i].key;
    assert_eq!(
        forward.call.instruction.accounts,
        vec![
            meta(k(4), false, false),
            meta(k(5), false, false),
            meta(k(1), true, true),
            meta(k(2), false, true),
            meta(k(6), false, true),
            meta(k(7), false, true),
            meta(k(3), false, true),
            meta(k(8), false, true),
            meta(k(9), false, true),
            meta(k(10), false, false),
        ]
    );
    assert_eq!(forward.call.instruction.data, spl_token_swap::pack_swap_instruction(1000, 1));
    let places: Vec<usize> = forward.call.account_infos.iter().map(|a| a.place).collect();
    assert_eq!(places, vec![4, 5, 1, 2, 6, 7, 3, 8, 9, 10]);

    // the pool holds the assets the other way round
    list.swap(6, 7);
    let backward = prepare(Dex::SplTokenSwap, &list, 0).unwrap();
    assert_eq!(backward.call.instruction.accounts[4].pubkey, list[7].key);
    assert_eq!(backward.call.instruction.accounts[5].pubkey, list[6].key);
    let places: Vec<usize> = backward.call.account_infos.iter().map(|a| a.place).collect();
    assert_eq!(places, vec![4, 5, 1, 2, 6, 7, 3, 8, 9, 10]);

    // the pool holds another asset
    list[6].data = token_data(OTHER, USER, 1);
    assert_eq!(
        prepare(Dex::SplTokenSwap, &list, 0).err(),
        Some(Error::Router(ErrorCode::InvalidPool))
    );
}

#[test]
fn a_whirlpool_runs_to_the_price_limit_of_its_direction() {
    let (slots, _) = layout(Dex::Whirlpool);
    let mut list = accounts(&slots, 100);
    let a_to_b = prepare(Dex::Whirlpool, &list, 0).unwrap();
    assert_eq!(
        a_to_b.call.instruction.data,
        whirlpool::pack_swap_instruction(1000, 1, whirlpool::MIN_SQRT_PRICE, true, true)
    );
    assert_eq!(a_to_b.call.instruction.accounts[3].pubkey, list[2].key);
    assert_eq!(a_to_b.call.instruction.accounts[5].pubkey, list[3].key);
    assert_eq!(a_to_b.call.account_infos[3].place, 2);
    assert_eq!(a_to_b.call.account_infos[5].place, 3);

    list.swap(6, 7);
    let b_to_a = prepare(Dex::Whirlpool, &list, 0).unwrap();
    assert_eq!(
        b_to_a.call.instruction.data,
        whirlpool::pack_swap_instruction(1000, 1, whirlpool::MAX_SQRT_PRICE, true, false)
    );
    assert_eq!(b_to_a.call.instruction.accounts[3].pubkey, list[3].key);
    assert_eq!(b_to_a.call.instruction.accounts[5].pubkey, list[2].key);
    assert_eq!(b_to_a.call.account_infos[3].place, 3);
    assert_eq!(b_to_a.call.account_infos[5].place, 2);

    list[6].data = token_data(OTHER, USER, 1);
    assert_eq!(
        prepare(Dex::Whirlpool, &list, 0).err(),
        Some(Error::Router(ErrorCode::InvalidTokenMint))
    );
}

#[test]
fn optional_accounts_go_into_both_lists_or_into_neither() {
    let (slots, _) = layout(Dex::RaydiumClmmSwap);
    let mut list = accounts(&slots, 100);
    let none = prepare(Dex::RaydiumClmmSwap, &list, 0).unwrap();
    assert_eq!(none.call.instruction.accounts.len(), 11);
    assert_eq!(none.call.account_infos.len(), 11);
    assert_eq!(
        none.call.instruction.data,
        raydium::pack_clmm_instruction(dex_solana::constants::SWAP_SELECTOR, 1000, 1, 0, true)
    );

    list[12].key = key(60);
    let second = prepare(Dex::RaydiumClmmSwap, &list, 0).unwrap();
    assert_eq!(second.call.instruction.accounts.len(), 12);
    assert_eq!(second.call.instruction.accounts[11], meta(key(60), false, true));
    assert_eq!(second.call.account_infos[11], AccountRef { place: 12, key: key(60) });

    list[11].key = key(59);
    let both = prepare(Dex::RaydiumClmmSwap, &list, 0).unwrap();
    assert_eq!(both.call.instruction.accounts.len(), 13);
    assert_eq!(both.call.instruction.accounts[11].pubkey, key(59));
    assert_eq!(both.call.instruction.accounts[12].pubkey, key(60));
    assert_eq!(both.call.account_infos[11].place, 11);
    assert_eq!(both.call.account_infos[12].place, 12);
    assert_eq!(both.next_offset, 14);

    let (slots, _) = layout(Dex::MeteoraDlmm);
    let list = accounts(&slots, 100);
    let dlmm = prepare(Dex::MeteoraDlmm, &list, 0).unwrap();
    assert_eq!(dlmm.call.instruction.accounts[16].pubkey, list[17].key);
    assert_eq!(dlmm.call.account_infos[16].place, 17);
    assert_eq!(dlmm.call.instruction.data, meteora::pack_swap_instruction(1000, 1));
    // the venue's own program is among the accounts of a liquidity-bin pool
    assert_eq!(dlmm.call.instruction.accounts[14], meta(list[0].key, false, false));
}

#[test]
fn an_order_on_the_book_is_sized_in_lots() {
    let (slots, _) = layout(Dex::OpenBookV2);
    let mut list = accounts(&slots, 100);
    // base lot 100, quote lot 10; the user sells the base asset
    let ask = prepare(Dex::OpenBookV2, &list, 0).unwrap();
    assert_eq!(
        ask.call.instruction.data,
        openbookv2::pack_instruction(openbookv2::Side::Ask, 1, 10, i64::MAX / 10, 3, 50)
    );
    // the authority is named twice, and the open-orders account that is not given is left out
    assert_eq!(ask.call.instruction.accounts[0], meta(list[1].key, true, true));
    assert_eq!(ask.call.instruction.accounts[1], meta(list[1].key, true, true));
    assert_eq!(ask.call.instruction.accounts.len(), 18);
    assert_eq!(ask.call.account_infos.len(), 17);
    assert_eq!(ask.call.instruction.accounts[9].pubkey, list[2].key);
    assert_eq!(ask.call.instruction.accounts[10].pubkey, list[3].key);
    assert_eq!(ask.call.instruction.accounts[16].pubkey, list[16].key);
    assert_eq!(ask.call.instruction.accounts[17].pubkey, list[18].key);

    // the market holds the assets the other way round: the user buys the base asset
    list.swap(8, 9);
    let bid = prepare(Dex::OpenBookV2, &list, 0).unwrap();
    assert_eq!(
        bid.call.instruction.data,
        openbookv2::pack_instruction(openbookv2::Side::Bid, i64::MAX, i64::MAX / 100, 100, 3, 50)
    );
    assert_eq!(bid.call.instruction.accounts[9].pubkey, list[3].key);
    assert_eq!(bid.call.instruction.accounts[10].pubkey, list[2].key);

    let too_much = excute_swap(&Dex::OpenBookV2, &list, 1 << 63, 0, &fresh(), 0, false);
    assert_eq!(too_much.err(), Some(Error::Router(ErrorCode::CalculationError)));
    list[4].data[456..464].copy_from_slice(&0i64.to_le_bytes());
    assert_eq!(
        prepare(Dex::OpenBookV2, &list, 0).err(),
        Some(Error::Router(ErrorCode::CalculationError))
    );
    list[4].data.truncate(463);
    assert_eq!(prepare(Dex::OpenBookV2, &list, 0).err(), Some(Error::MalformedAccountData));
}

#[test]
fn an_order_on_phoenix_is_sized_in_lots_of_the_asset_sold() {
    let (slots, _) = layout(Dex::Phoenix);
    let mut list = accounts(&slots, 100);
    let ask = prepare(Dex::Phoenix, &list, 0).unwrap();
    assert_eq!(ask.call.instruction.data, phoenix::pack_instruction(2, 1, 10, 0, 1));
    list.swap(6, 7);
    let bid = prepare(Dex::Phoenix, &list, 0).unwrap();
    assert_eq!(bid.call.instruction.data, phoenix::pack_instruction(2, 0, 0, 100, 1));
    assert_eq!(bid.call.instruction.accounts[4].pubkey, list[3].key);
    assert_eq!(bid.call.instruction.accounts[5].pubkey, list[2].key);
    list[5].data[192..200].copy_from_slice(&0u64.to_le_bytes());
    assert_eq!(
        prepare(Dex::Phoenix, &list, 0).err(),
        Some(Error::Router(ErrorCode::CalculationError))
    );
    list[5].data.truncate(199);
    assert_eq!(prepare(Dex::Phoenix, &list, 0).err(), Some(Error::MalformedAccountData));
}

#[test]
fn a_trading_pair_sells_the_asset_the_destination_is_not_of() {
    let (slots, _) = layout(Dex::ObricV2);
    let mut list = accounts(&slots, 100);
    let x_to_y = prepare(Dex::ObricV2, &list, 0).unwrap();
    assert_eq!(x_to_y.call.instruction.data, obric_v2::pack_swap_instruction(true, 1000, 1));
    assert_eq!(x_to_y.call.instruction.accounts[5].pubkey, list[2].key);
    list.swap(5, 6);
    let y_to_x = prepare(Dex::ObricV2, &list, 0).unwrap();
    assert_eq!(y_to_x.call.instruction.data, obric_v2::pack_swap_instruction(false, 1000, 1));
    assert_eq!(y_to_x.call.instruction.accounts[5].pubkey, list[3].key);
    list[6].key = key(90);
    assert_eq!(
        prepare(Dex::ObricV2, &list, 0).err(),
        Some(Error::Router(ErrorCode::InvalidTokenMint))
    );
}

#[test]
fn aldrin_sells_the_coin_where_the_source_is_of_its_mint() {
    let (slots, _) = layout(Dex::AldrinExchangeV1);
    let mut list = accounts(&slots, 100);
    let ask = prepare(Dex::AldrinExchangeV1, &list, 0).unwrap();
    assert_eq!(
        ask.call.instruction.data,
        aldrin::pack_swap_instruction(1000, 1, aldrin::Side::Ask)
    );
    assert_eq!(ask.call.instruction.accounts[7].pubkey, list[2].key);
    list.swap(7, 8);
    let bid = prepare(Dex::AldrinExchangeV1, &list, 0).unwrap();
    assert_eq!(
        bid.call.instruction.data,
        aldrin::pack_swap_instruction(1000, 1, aldrin::Side::Bid)
    );
    assert_eq!(bid.call.instruction.accounts[7].pubkey, list[3].key);
    assert_eq!(bid.call.account_infos[7].place, 2);
}

#[test]
fn the_liquid_stake_pool_looks_its_tokens_up_in_its_list() {
    let (slots, _) = layout(Dex::SanctumAddLiq);
    let mut list = accounts(&slots, 100);
    let add = prepare(Dex::SanctumAddLiq, &list, 0).unwrap();
    assert_eq!(
        add.call.instruction.data,
        sanctum::pack_liquidity_instruction(3, 5, 1, 1000, 1)
    );
    assert_eq!(add.next_offset, sanctum::ADD_LST_LIQ_ACCOUNTS_LEN);
    assert_eq!(add.call.instruction.accounts[0], meta(list[1].key, true, true));
    assert_eq!(add.call.instruction.accounts[1], meta(list[2].key, false, false));

    // a token the list does not hold
    list[2].key = key(90);
    assert_eq!(
        prepare(Dex::SanctumAddLiq, &list, 0).err(),
        Some(Error::Router(ErrorCode::InvalidSanctumLstStateListIndex))
    );
    // a list that is not made of whole entries
    list[10].data.push(0);
    assert_eq!(
        prepare(Dex::SanctumAddLiq, &list, 0).err(),
        Some(Error::Router(ErrorCode::InvalidSanctumLstStateListData))
    );

    let (slots, _) = layout(Dex::SanctumRemoveLiq);
    let list = accounts(&slots, 100);
    let remove = prepare(Dex::SanctumRemoveLiq, &list, 0).unwrap();
    assert_eq!(
        remove.call.instruction.data,
        sanctum::pack_liquidity_instruction(4, 1, 2, 1000, 1)
    );
    assert_eq!(remove.next_offset, sanctum::REMOVE_WSOL_LIQ_ACCOUNTS_LEN);

    let (slots, _) = layout(Dex::SanctumNonWsolSwap);
    let list = accounts(&slots, 100);
    let swap = prepare(Dex::SanctumNonWsolSwap, &list, 0).unwrap();
    assert_eq!(
        swap.call.instruction.data,
        sanctum::pack_swap_exact_in_instruction(5, 5, 1, 3, 1, 1000)
    );
    assert_eq!(
        prepare(Dex::SanctumWsolSwap, &list, 0).err(),
        Some(Error::Router(ErrorCode::InvalidSanctumSwapAccounts))
    );

    let (slots, _) = layout(Dex::SanctumWsolSwap);
    let mut list = accounts(&slots, 100);
    let to_wsol = prepare(Dex::SanctumWsolSwap, &list, 0).unwrap();
    assert_eq!(
        to_wsol.call.instruction.data,
        sanctum::pack_swap_exact_in_instruction(5, 1, 3, 1, 1, 1000)
    );
    assert_eq!(
        prepare(Dex::SanctumNonWsolSwap, &list, 0).err(),
        Some(Error::Router(ErrorCode::InvalidSanctumSwapAccounts))
    );
    list.swap(2, 3);
    let from_wsol = prepare(Dex::SanctumWsolSwap, &list, 0).unwrap();
    assert_eq!(
        from_wsol.call.instruction.data,
        sanctum::pack_swap_exact_in_instruction(1, 5, 1, 3, 1, 1000)
    );
    list[3].key = Pubkey::new_from_array(WSOL_PROGRAM);
    assert_eq!(
        prepare(Dex::SanctumWsolSwap, &list, 0).err(),
        Some(Error::Router(ErrorCode::InvalidSanctumSwapAccounts))
    );
}

#[test]
fn the_list_of_liquid_stake_tokens_is_read_entry_by_entry() {
    let mut data = lst_entry(LST);
    data[0] = 1;
    data[1] = 254;
    data[2] = 253;
    data[3..8].copy_from_slice(&[1, 2, 3, 4, 5]);
    data[8..16].copy_from_slice(&123_456_789_012u64.to_le_bytes());
    data.extend(lst_entry(LST2));
    let list = sanctum::try_lst_state_list(&data).unwrap();
    assert_eq!(list.len(), 2);
    assert_eq!(list[0].is_input_disabled, 1);
    assert_eq!(list[0].pool_reserves_bump, 254);
    assert_eq!(list[0].protocol_fee_accumulator_bump, 253);
    assert_eq!(list[0].padding, [1, 2, 3, 4, 5]);
    assert_eq!(list[0].sol_value, 123_456_789_012);
    assert_eq!(list[0].mint, Pubkey::new_from_array(LST));
    assert_eq!(list[0].sol_value_calculator, key(7));
    assert_eq!(list[1].mint, Pubkey::new_from_array(LST2));
    assert_eq!(list[1].sol_value, 0);
    assert_eq!(sanctum::try_lst_state_list(&[]).unwrap().len(), 0);
    data.pop();
    assert_eq!(
        sanctum::try_lst_state_list(&data).err(),
        Some(Error::Router(ErrorCode::InvalidSanctumLstStateListData))
    );
}

#[test]
fn a_purchase_on_a_bonding_curve_closes_the_source_account_first() {
    let (slots, _) = layout(Dex::PumpfunBuy);
    let mut list = accounts(&slots, 100);
    let buy = excute_swap(&Dex::PumpfunBuy, &list, 1_000_000, 0, &fresh(), 0, false).unwrap();
    // 1_000_000 * 980009 / 1000000 = 980009 are left after the fee;
    // 1_000_000 - 1_000_000 * 2_000 / (2_000 + 980_009) = 1_000_000 - 2_036 = 997_964
    assert_eq!(buy.call.instruction.data, pumpfun::pack_buy_instruction(997_964, 1_000_000));
    assert_eq!(buy.call.account_infos.len(), 13);
    assert_eq!(buy.call.account_infos[12].place, 2);
    assert!(buy.after.is_empty());
    assert_eq!(buy.before.len(), 1);
    let close = &buy.before[0];
    let outside = anchor_spl::token::spl_token::instruction::close_account(
        &anchor_spl::token::ID,
        &anchor_lang::prelude::Pubkey::new_from_array(list[2].key.to_bytes()),
        &anchor_lang::prelude::Pubkey::new_from_array(list[1].key.to_bytes()),
        &anchor_lang::prelude::Pubkey::new_from_array(list[1].key.to_bytes()),
        &[&anchor_lang::prelude::Pubkey::new_from_array(list[1].key.to_bytes())],
    )
    .unwrap();
    assert_eq!(close.instruction.data, outside.data);
    assert_eq!(close.instruction.data, vec![9]);
    assert_eq!(close.instruction.program_id, Pubkey::new_from_array(TOKEN_PROGRAM));
    assert_eq!(
        close.instruction.accounts,
        vec![
            meta(list[2].key, false, true),
            meta(list[1].key, false, true),
            meta(list[1].key, false, false),
            meta(list[1].key, true, false),
        ]
    );
    let handed: Vec<usize> = close.account_infos.iter().map(|a| a.place).collect();
    assert_eq!(handed, vec![2, 10, 1]);
    assert!(!close.signed);
    assert_eq!(close.failure, None);

    let overflowing = excute_swap(&Dex::PumpfunBuy, &list, u64::MAX, 0, &fresh(), 0, false);
    assert_eq!(overflowing.err(), Some(Error::Router(ErrorCode::CalculationError)));
    list[7].data = vec![0u8; 49];
    let empty = excute_swap(&Dex::PumpfunBuy, &list, 0, 0, &fresh(), 0, false);
    assert_eq!(empty.err(), Some(Error::Router(ErrorCode::CalculationError)));
    list[7].data.truncate(23);
    assert_eq!(prepare(Dex::PumpfunBuy, &list, 0).err(), Some(Error::MalformedAccountData));
}

#[test]
fn a_sale_on_a_bonding_curve_moves_the_proceeds_on() {
    let (slots, _) = layout(Dex::PumpfunSell);
    let list = accounts(&slots, 100);
    let sell = excute_swap(&Dex::PumpfunSell, &list, 500_000, 0, &fresh(), 0, false).unwrap();
    // 1_000_000 * 2_000 / (1_000_000 - 500_000) - 2_000 = 2_000; 2_000 * 980009 / 1000000 = 1960
    assert_eq!(sell.call.instruction.data, pumpfun::pack_sell_instruction(500_000, 1960));
    assert!(sell.before.is_empty());
    assert_eq!(sell.after.len(), 2);
    let transfer = &sell.after[0];
    let mut lamports = vec![2u8, 0, 0, 0];
    lamports.extend_from_slice(&1960u64.to_le_bytes());
    assert_eq!(transfer.instruction.data, lamports);
    assert_eq!(transfer.instruction.program_id, Pubkey::new_from_array(SYSTEM_PROGRAM));
    assert_eq!(
        transfer.instruction.accounts,
        vec![meta(list[1].key, true, true), meta(list[3].key, false, true)]
    );
    assert_eq!(transfer.failure, Some(ErrorCode::TransferSolFailed));
    let handed: Vec<usize> = transfer.account_infos.iter().map(|a| a.place).collect();
    assert_eq!(handed, vec![1, 3]);
    let sync = &sell.after[1];
    assert_eq!(sync.instruction.data, vec![17]);
    assert_eq!(sync.instruction.accounts, vec![meta(list[3].key, false, true)]);
    assert_eq!(sync.instruction.program_id, Pubkey::new_from_array(TOKEN_PROGRAM));
    let handed: Vec<usize> = sync.account_infos.iter().map(|a| a.place).collect();
    assert_eq!(handed, vec![3, 11]);

    // a failed transfer of the proceeds stands for the router's own failure
    let failed = dex_solana::adapters::common::CallFailure { call: 1, code: 1 };
    assert_eq!(
        sell.realized_output(Err(failed), &list[3]),
        Err(Error::Router(ErrorCode::TransferSolFailed))
    );
    let failed = dex_solana::adapters::common::CallFailure { call: 0, code: 6005 };
    assert_eq!(sell.realized_output(Err(failed), &list[3]), Err(Error::Program(6005)));
    let failed = dex_solana::adapters::common::CallFailure { call: 2, code: 12 };
    assert_eq!(sell.realized_output(Err(failed), &list[3]), Err(Error::Program(12)));

    // nothing is sold for nothing: no proceeds to move on
    let nothing = excute_swap(&Dex::PumpfunSell, &list, 0, 0, &fresh(), 0, false).unwrap();
    assert_eq!(nothing.after.len(), 1);
    assert_eq!(nothing.after[0].instruction.data, vec![17]);
    // the curve must hold more tokens than are sold
    let all = excute_swap(&Dex::PumpfunSell, &list, 1_000_000, 0, &fresh(), 0, false);
    assert_eq!(all.err(), Some(Error::Router(ErrorCode::CalculationError)));
}

#[test]
fn the_calls_around_a_bonding_curve_want_their_accounts() {
    let few: Vec<AccountRef> = (0..9).map(|place| AccountRef { place, key: key(place as u8) }).collect();
    let short = Err(Error::Router(ErrorCode::InvalidAccountsLength));
    assert_eq!(pumpfun::PumpfunBuyProcessor.before_invoke(&few), short);
    assert_eq!(pumpfun::PumpfunBuyProcessor.after_invoke(&few), Ok(vec![]));
    let sell = pumpfun::PumpfunSellProcessor { amount: 5 };
    assert_eq!(sell.before_invoke(&Vec::new()), short);
    assert_eq!(sell.before_invoke(&few), Ok(vec![]));
    assert_eq!(sell.after_invoke(&few), short);
    // the program in the place of the token program is not the token program
    let thirteen: Vec<AccountRef> =
        (0..13).map(|place| AccountRef { place, key: key(place as u8) }).collect();
    assert_eq!(
        pumpfun::PumpfunBuyProcessor.before_invoke(&thirteen),
        Err(Error::Program(7 << 32))
    );
    assert_eq!(sell.after_invoke(&thirteen), Err(Error::Program(7 << 32)));
    assert_eq!(spl_token_swap::SplTokenSwapProcessor.before_invoke(&few), Ok(vec![]));
    assert_eq!(raydium::RaydiumSwapProcessor.after_invoke(&few), Ok(vec![]));
}

#[test]
fn a_venue_works_on_accounts_that_were_read_before() {
    let (slots, _) = layout(Dex::SplTokenSwap);
    let list = accounts(&slots, 100);
    let read = |i: usize, mint: [u8; 32], amount: u64| TokenAccount {
        info: &list[i],
        mint: Pubkey::new_from_array(mint),
        owner: Pubkey::new_from_array(USER),
        amount,
    };
    let swap_accounts = spl_token_swap::SplTokenSwapAccounts {
        dex_program_id: &list[0],
        swap_authority_pubkey: &list[1],
        swap_source_token: read(2, A, 77),
        swap_destination_token: read(3, B, 77),
        swap_info: &list[4],
        authority_acc_info: &list[5],
        token_a_account: read(6, A, 77),
        token_b_account: read(7, B, 77),
        pool_mint: &list[8],
        pool_fee: read(9, A, 77),
        token_program: Program { info: &list[10] },
    };
    let handled = spl_token_swap::handle_swap(&swap_accounts, 1000, 0, &fresh(), 0, false);
    assert_eq!(handled, prepare(Dex::SplTokenSwap, &list, 0));
    let invocation = handled.unwrap();
    assert_eq!(invocation.before_destination_balance, 77);
    assert_eq!(invocation.next_offset, spl_token_swap::ACCOUNTS_LEN);

    // what was read decides, not what the accounts hold now
    let turned = spl_token_swap::SplTokenSwapAccounts {
        token_a_account: read(6, B, 5),
        token_b_account: read(7, A, 5),
        swap_destination_token: read(3, B, 12),
        ..swap_accounts
    };
    let invocation = spl_token_swap::handle_swap(&turned, 1000, 0, &fresh(), 0, false).unwrap();
    assert_eq!(invocation.call.instruction.accounts[4].pubkey, list[7].key);
    assert_eq!(invocation.call.instruction.accounts[5].pubkey, list[6].key);
    assert_eq!(invocation.before_destination_balance, 12);

    let strange = spl_token_swap::SplTokenSwapAccounts {
        token_a_account: read(6, OTHER, 5),
        ..swap_accounts
    };
    assert_eq!(
        spl_token_swap::handle_swap(&strange, 1000, 0, &fresh(), 0, false).err(),
        Some(Error::Router(ErrorCode::InvalidPool))
    );
}

#[test]
fn the_least_amount_to_take_is_one_at_every_pool() {
    let (slots, _) = layout(Dex::RaydiumCpmmSwap);
    let list = accounts(&slots, 100);
    let invocation = excute_swap(&Dex::RaydiumCpmmSwap, &list, 100, 0, &fresh(), 0, false).unwrap();
    assert_eq!(
        invocation.call.instruction.data,
        vec![143, 190, 90, 218, 196, 30, 51, 222, 100, 0, 0, 0, 0, 0, 0, 0, 1, 0, 0, 0, 0, 0, 0, 0]
    );
    assert_eq!(invocation.call.instruction.data, raydium::pack_cpmm_instruction(100, 1));
    for dex in [Dex::SplTokenSwap, Dex::StableSwap, Dex::RaydiumSwap, Dex::RaydiumStableSwap] {
        let (slots, _) = layout(dex);
        let list = accounts(&slots, 100);
        let data = prepare(dex, &list, 0).unwrap().call.instruction.data;
        assert_eq!(data[data.len() - 8..], 1u64.to_le_bytes(), "{:?}", dex);
    }
}

#[test]
fn a_purchase_on_a_bonding_curve_is_held_to_the_shared_checks() {
    let (slots, _) = layout(Dex::PumpfunBuy);
    let list = accounts(&slots, 100);
    let source = TokenAccount {
        info: &list[2],
        mint: Pubkey::new_from_array(A),
        owner: list[1].key,
        amount: 77,
    };
    let check = |hop: usize, proxy_swap: bool, authority: &AccountInfo| {
        pumpfun::pumpfun_before_check(
            authority,
            list[2].key,
            source,
            list[3].key,
            &fresh(),
            hop,
            proxy_swap,
        )
    };
    // the authority owns the source account and signed, but is not the derived address
    assert_eq!(check(0, false, &list[1]), Ok(()));
    assert_eq!(check(1, false, &list[1]), Err(Error::Router(ErrorCode::InvalidAuthorityPda)));
    assert_eq!(check(0, true, &list[1]), Err(Error::Router(ErrorCode::InvalidAuthorityPda)));
    let derived = AccountInfo { key: Pubkey::new_from_array(AUTHORITY_PDA), ..plain(OTHER) };
    assert_eq!(check(1, false, &derived), Ok(()));
    assert_eq!(check(0, true, &derived), Ok(()));
    assert_eq!(check(0, false, &derived), Err(Error::Router(ErrorCode::SwapAuthorityIsNotSigner)));
    let chained = HopAccounts {
        last_to_account: key(42),
        ..fresh()
    };
    assert_eq!(
        pumpfun::pumpfun_before_check(&derived, list[2].key, source, list[3].key, &chained, 1, false),
        Err(Error::Router(ErrorCode::InvalidHopFromAccount))
    );
}

#[test]
fn the_cursor_moves_by_the_accounts_a_venue_takes() {
    let held = plain([3; 32]);
    let destination = TokenAccount {
        info: &held,
        mint: Pubkey::new_from_array(B),
        owner: Pubkey::new_from_array(USER),
        amount: 40,
    };
    let call = |offset: usize, accounts_len: usize| {
        invoke_process(
            &spl_token_swap::SplTokenSwapProcessor,
            vec![AccountRef { place: 3, key: held.key }],
            key(2),
            &destination,
            3,
            Instruction { program_id: key(0), accounts: Vec::new(), data: vec![1] },
            0,
            offset,
            accounts_len,
            false,
        )
    };
    for (offset, accounts_len) in [(0, 11), (11, 14), (7, 0), (usize::MAX - 9, 9)] {
        let invocation = call(offset, accounts_len).unwrap();
        assert_eq!(invocation.next_offset, offset + accounts_len);
        assert_eq!(invocation.before_destination_balance, 40);
        assert_eq!(invocation.swap_source_token, key(2));
        assert_eq!(invocation.swap_destination_token, held.key);
    }
    assert_eq!(call(usize::MAX - 9, 10).err(), Some(Error::Router(ErrorCode::CalculationError)));
    assert_eq!(call(usize::MAX, 1).err(), Some(Error::Router(ErrorCode::CalculationError)));
}
