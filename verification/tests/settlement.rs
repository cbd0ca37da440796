//! Commissions, the proxied swap, the transfers and the report to the bridge.

use anchor_lang::solana_program::program_option::COption;
use anchor_lang::solana_program::program_pack::Pack;
use anchor_spl::token::spl_token::state::{Account as PackedAccount, AccountState, Mint as PackedMint};
use dex_solana::account::{AccountInfo, AccountMeta, Mint, Program, ProgramKind, Pubkey, TokenAccount};
use dex_solana::adapters::common::AccountRef;
use dex_solana::constants::{
    ASSOCIATED_TOKEN_PROGRAM, BRIDGE_TO_LOG_SELECTOR, COMMISSION_RATE_LIMIT, OKX_BRIDGE_PROGRAM,
    SYSTEM_PROGRAM, TOKEN_2022_PROGRAM, TOKEN_PROGRAM, WSOL_PROGRAM,
};
use dex_solana::error::{Error, ErrorCode};
use dex_solana::instructions::commission_from_swap::{
    commission_sol_from_swap_handler, commission_spl_from_swap_handler, commission_token_program,
    CommissionSOLFromSwapAccounts, CommissionSPLFromSwapAccounts,
};
use dex_solana::instructions::commission_proxy_swap::{
    commission_sol_proxy_swap_handler, commission_spl_proxy_swap_handler,
    CommissionSOLProxySwapAccounts, CommissionSPLProxySwapAccounts,
};
use dex_solana::instructions::commission_swap::{
    check_commission, commission_on_input, commission_on_output, commission_sol_swap_handler,
    commission_spl_swap_handler, Commission, CommissionSOLAccounts, CommissionSPLAccounts,
};
use dex_solana::instructions::common::{
    route_accounts, CommissionSwapArgs, Dex, Route, SwapArgs,
};
use dex_solana::instructions::from_swap::{
    cpi_bridge_to_log, from_swap_log_handler, pack_bridge_to_args, AdaptorID, BridgeToArgs,
    FromSwapAccounts, SwapType,
};
use dex_solana::instructions::proxy_swap::{proxy_swap_handler, ProxySwapAccounts};
use dex_solana::instructions::swap::{swap_handler, SwapAccounts};
use dex_solana::utils::token::{
    transfer_outcome, transfer_sol_from_user, transfer_token_from_sa_pda,
    transfer_token_from_user, INCORRECT_PROGRAM_ID,
};

fn key(n: u8) -> Pubkey {
    Pubkey::new_from_array([n; 32])
}

fn outside(key: Pubkey) -> anchor_lang::prelude::Pubkey {
    anchor_lang::prelude::Pubkey::new_from_array(key.to_bytes())
}

fn plain(address: [u8; 32]) -> AccountInfo {
    AccountInfo {
        key: Pubkey::new_from_array(address),
        lamports: 1,
        data: Vec::new(),
        owner: Pubkey::new_from_array(SYSTEM_PROGRAM),
        is_signer: false,
        is_writable: true,
        executable: false,
    }
}

fn program(address: [u8; 32]) -> AccountInfo {
    AccountInfo { executable: true, ..plain(address) }
}

fn token(n: u8, mint: [u8; 32], amount: u64) -> AccountInfo {
    let packed = PackedAccount {
        mint: anchor_lang::prelude::Pubkey::new_from_array(mint),
        owner: anchor_lang::prelude::Pubkey::new_from_array([200; 32]),
        amount,
        delegate: COption::None,
        state: AccountState::Initialized,
        is_native: COption::None,
        delegated_amount: 0,
        close_authority: COption::None,
    };
    let mut data = vec![0u8; PackedAccount::LEN];
    PackedAccount::pack(packed, &mut data).unwrap();
    AccountInfo { data, owner: Pubkey::new_from_array(TOKEN_PROGRAM), ..plain([n; 32]) }
}

fn mint(address: [u8; 32], decimals: u8, owner: [u8; 32]) -> AccountInfo {
    let packed = PackedMint {
        mint_authority: COption::None,
        supply: 1_000_000,
        decimals,
        is_initialized: true,
        freeze_authority: COption::None,
    };
    let mut data = vec![0u8; PackedMint::LEN];
    PackedMint::pack(packed, &mut data).unwrap();
    AccountInfo { data, owner: Pubkey::new_from_array(owner), ..plain(address) }
}

fn meta(address: Pubkey, is_signer: bool, is_writable: bool) -> AccountMeta {
    AccountMeta { pubkey: address, is_signer, is_writable }
}

fn request(amount_in: u64) -> SwapArgs {
    SwapArgs {
        amount_in,
        expect_amount_out: 10,
        min_return: 10,
        amounts: vec![amount_in],
        routes: vec![vec![Route { dexes: vec![Dex::SplTokenSwap], weights: vec![100] }]],
    }
}

fn with_commission(amount_in: u64, commission_rate: u16, commission_direction: bool) -> CommissionSwapArgs {
    let args = request(amount_in);
    CommissionSwapArgs {
        amount_in: args.amount_in,
        expect_amount_out: args.expect_amount_out,
        min_return: args.min_return,
        amounts: args.amounts,
        routes: args.routes,
        commission_rate,
        commission_direction,
    }
}

const MINT_A: [u8; 32] = [1; 32];
const MINT_B: [u8; 32] = [2; 32];

#[test]
fn commissions_are_the_rates_share() {
    // on the input: 10_000 * 300 / (10_000 - 300) = 309
    assert_eq!(commission_on_input(10_000, 300), Ok(309));
    assert_eq!(commission_on_input(1_000_000, 1), Ok(100));
    assert_eq!(commission_on_input(0, 300), Ok(0));
    assert_eq!(commission_on_input(u64::MAX / 300, 300), Ok(u64::MAX / 300 * 300 / 9700));
    assert_eq!(
        commission_on_input(u64::MAX / 300 + 1, 300),
        Err(Error::Router(ErrorCode::CalculationError))
    );
    assert_eq!(commission_on_input(5, 10_000), Err(Error::Router(ErrorCode::CalculationError)));
    // on the output: 10_000 * 300 / 10_000 = 300
    assert_eq!(commission_on_output(10_000, 300), Ok(300));
    assert_eq!(commission_on_output(9_999, 1), Ok(0));
    assert_eq!(
        commission_on_output(u64::MAX, 2),
        Err(Error::Router(ErrorCode::CalculationError))
    );
}

#[test]
fn commissions_are_held_to_their_rules() {
    assert_eq!(COMMISSION_RATE_LIMIT, 300);
    let refused = Err(Error::Router(ErrorCode::InvalidCommissionRate));
    assert_eq!(check_commission(10_000, 0, true, true, true), refused);
    assert_eq!(check_commission(10_000, 301, true, true, true), refused);
    assert_eq!(check_commission(10_000, 300, true, true, false), Ok(309));
    assert_eq!(check_commission(10_000, 300, false, false, true), Ok(0));
    let misfit = Err(Error::Router(ErrorCode::InvalidCommissionTokenAccount));
    assert_eq!(check_commission(10_000, 300, true, false, true), misfit);
    assert_eq!(check_commission(10_000, 300, false, true, false), misfit);
    assert_eq!(
        check_commission(u64::MAX, 300, true, true, true),
        Err(Error::Router(ErrorCode::CalculationError))
    );
}

#[test]
fn a_commission_on_the_output_is_fixed_when_the_output_is_known() {
    let on_input = Commission { commission_rate: 300, commission_direction: true, commission_amount: 309 };
    assert_eq!(on_input.amount_due(5_000), Ok(309));
    let on_output = Commission { commission_rate: 300, commission_direction: false, commission_amount: 0 };
    assert_eq!(on_output.amount_due(5_000), Ok(150));

    let transfer = on_output.collect_sol(key(1), key(2), 5_000).unwrap().unwrap();
    let expected = anchor_lang::solana_program::system_instruction::transfer(
        &outside(key(1)),
        &outside(key(2)),
        150,
    );
    assert_eq!(transfer.instruction.data, expected.data);
    assert_eq!(transfer.failure, ErrorCode::TransferSolFailed);
    assert_eq!(on_output.collect_sol(key(1), key(2), 9).unwrap(), None);

    let source = mint(MINT_A, 6, TOKEN_PROGRAM);
    let destination = mint(MINT_B, 9, TOKEN_PROGRAM);
    let source_mint = Mint::try_from(&source).unwrap();
    let destination_mint = Mint::try_from(&destination).unwrap();
    let token_program = Pubkey::new_from_array(TOKEN_PROGRAM);
    let collect = |commission: &Commission| {
        commission
            .collect_spl(
                key(1),
                key(2),
                key(3),
                key(4),
                &source_mint,
                &destination_mint,
                token_program,
                token_program,
                5_000,
            )
            .unwrap()
            .unwrap()
    };
    let from_source = collect(&on_input);
    assert_eq!(
        from_source.instruction.accounts,
        vec![
            meta(key(2), false, true),
            meta(Pubkey::new_from_array(MINT_A), false, false),
            meta(key(4), false, true),
            meta(key(1), true, false),
        ]
    );
    let mut data = vec![12u8];
    data.extend_from_slice(&309u64.to_le_bytes());
    data.push(6);
    assert_eq!(from_source.instruction.data, data);
    let from_destination = collect(&on_output);
    assert_eq!(from_destination.instruction.accounts[0].pubkey, key(3));
    assert_eq!(from_destination.instruction.accounts[1].pubkey, Pubkey::new_from_array(MINT_B));
    let mut data = vec![12u8];
    data.extend_from_slice(&150u64.to_le_bytes());
    data.push(9);
    assert_eq!(from_destination.instruction.data, data);
}

#[test]
fn transfers_are_built_by_the_programs_own_builders() {
    let sol = transfer_sol_from_user(key(1), key(2), 0x0102).unwrap().unwrap();
    assert_eq!(sol.instruction.program_id, Pubkey::new_from_array(SYSTEM_PROGRAM));
    assert_eq!(sol.instruction.data, vec![2, 0, 0, 0, 2, 1, 0, 0, 0, 0, 0, 0]);
    assert_eq!(
        sol.instruction.accounts,
        vec![meta(key(1), true, true), meta(key(2), false, true)]
    );
    assert!(!sol.signed);
    assert_eq!(transfer_sol_from_user(key(1), key(2), 0), Ok(None));

    let token_2022 = Pubkey::new_from_array(TOKEN_2022_PROGRAM);
    let user = transfer_token_from_user(key(1), key(2), key(3), key(4), token_2022, 70, 8)
        .unwrap()
        .unwrap();
    let expected = anchor_spl::token_2022::spl_token_2022::instruction::transfer_checked(
        &anchor_spl::token_2022::ID,
        &outside(key(2)),
        &outside(key(4)),
        &outside(key(3)),
        &outside(key(1)),
        &[],
        70,
        8,
    )
    .unwrap();
    assert_eq!(user.instruction.data, expected.data);
    assert_eq!(user.instruction.program_id, token_2022);
    assert_eq!(
        user.instruction.accounts,
        vec![
            meta(key(2), false, true),
            meta(key(4), false, false),
            meta(key(3), false, true),
            meta(key(1), true, false),
        ]
    );
    assert!(!user.signed);
    assert_eq!(user.failure, ErrorCode::TransferTokenFailed);

    let delegated = transfer_token_from_sa_pda(
        key(1),
        key(2),
        key(3),
        key(4),
        Pubkey::new_from_array(TOKEN_PROGRAM),
        70,
        8,
    )
    .unwrap()
    .unwrap();
    assert!(delegated.signed);
    assert_eq!(delegated.instruction.data, user.instruction.data);
    assert_eq!(
        transfer_token_from_sa_pda(key(1), key(2), key(3), key(4), key(5), 0, 8),
        Ok(None)
    );
    // a program that is no token program cannot move tokens
    assert_eq!(
        transfer_token_from_user(key(1), key(2), key(3), key(4), key(5), 70, 8),
        Err(Error::Router(ErrorCode::TransferTokenFailed))
    );
    assert_eq!(INCORRECT_PROGRAM_ID, 7 << 32);

    assert_eq!(transfer_outcome(&user, Ok(())), Ok(()));
    assert_eq!(
        transfer_outcome(&user, Err(17)),
        Err(Error::Router(ErrorCode::TransferTokenFailed))
    );
    assert_eq!(transfer_outcome(&sol, Err(1)), Err(Error::Router(ErrorCode::TransferSolFailed)));
}

struct Parties {
    payer: AccountInfo,
    source: AccountInfo,
    destination: AccountInfo,
    source_mint: AccountInfo,
    destination_mint: AccountInfo,
    commission: AccountInfo,
    commission_token: AccountInfo,
    authority: AccountInfo,
    source_sa: AccountInfo,
    destination_sa: AccountInfo,
    bridge: AccountInfo,
    token: AccountInfo,
    token_2022: AccountInfo,
    associated: AccountInfo,
    system: AccountInfo,
}

fn parties(source_mint: [u8; 32], destination_mint: [u8; 32], commission_mint: [u8; 32]) -> Parties {
    Parties {
        payer: AccountInfo { is_signer: true, ..plain([30; 32]) },
        source: token(31, source_mint, 1_000),
        destination: token(32, destination_mint, 20),
        source_mint: mint(source_mint, 6, TOKEN_2022_PROGRAM),
        destination_mint: mint(destination_mint, 9, TOKEN_PROGRAM),
        commission: plain([33; 32]),
        commission_token: token(34, commission_mint, 0),
        authority: plain([35; 32]),
        source_sa: token(36, source_mint, 0),
        destination_sa: token(37, destination_mint, 0),
        bridge: program(OKX_BRIDGE_PROGRAM),
        token: program(TOKEN_PROGRAM),
        token_2022: program(TOKEN_2022_PROGRAM),
        associated: program(ASSOCIATED_TOKEN_PROGRAM),
        system: program(SYSTEM_PROGRAM),
    }
}

#[test]
fn a_swap_begins_with_the_balances_of_the_callers_accounts() {
    let p = parties(MINT_A, MINT_B, MINT_A);
    let accounts = SwapAccounts {
        payer: &p.payer,
        source_token_account: TokenAccount::try_from(&p.source).unwrap(),
        destination_token_account: TokenAccount::try_from(&p.destination).unwrap(),
        source_mint: Mint::try_from(&p.source_mint).unwrap(),
        destination_mint: Mint::try_from(&p.destination_mint).unwrap(),
    };
    let process = swap_handler(&accounts, request(500), 7).unwrap();
    assert_eq!(process.before_source_balance, 1_000);
    assert_eq!(process.before_destination_balance, 20);
    assert_eq!(process.source_token_account, key(31));
    assert_eq!(process.destination_token_account, key(32));
    assert!(!process.proxy_swap);
    assert_eq!(process.amount_in, 500);
    assert_eq!(
        swap_handler(&accounts, request(0), 7).err(),
        Some(Error::Router(ErrorCode::AmountInMustBeGreaterThanZero))
    );
}

fn sol_accounts<'a>(p: &'a Parties) -> CommissionSOLAccounts<'a> {
    CommissionSOLAccounts {
        payer: &p.payer,
        source_token_account: TokenAccount::try_from(&p.source).unwrap(),
        destination_token_account: TokenAccount::try_from(&p.destination).unwrap(),
        source_mint: Mint::try_from(&p.source_mint).unwrap(),
        destination_mint: Mint::try_from(&p.destination_mint).unwrap(),
        commission_account: &p.commission,
        system_program: Program::try_from(&p.system, ProgramKind::System).unwrap(),
    }
}

#[test]
fn a_commission_in_the_native_asset_wants_the_wrapped_native_asset_on_its_side() {
    let sol_in = parties(WSOL_PROGRAM, MINT_B, MINT_A);
    let accounts = sol_accounts;
    let begun = commission_sol_swap_handler(&accounts(&sol_in), with_commission(10_000, 300, true), 0).unwrap();
    assert_eq!(begun.commission.commission_amount, 309);
    assert_eq!(begun.process.amount_in, 10_000);
    assert_eq!(begun.process.args.routes.len(), 1);
    assert_eq!(
        commission_sol_swap_handler(&accounts(&sol_in), with_commission(10_000, 300, false), 0).err(),
        Some(Error::Router(ErrorCode::InvalidCommissionTokenAccount))
    );
    // the commission is held to its rules before the request is
    assert_eq!(
        commission_sol_swap_handler(&accounts(&sol_in), with_commission(0, 301, true), 0).err(),
        Some(Error::Router(ErrorCode::InvalidCommissionRate))
    );
    assert_eq!(
        commission_sol_swap_handler(&accounts(&sol_in), with_commission(0, 300, true), 0).err(),
        Some(Error::Router(ErrorCode::AmountInMustBeGreaterThanZero))
    );
    let sol_out = parties(MINT_A, WSOL_PROGRAM, MINT_A);
    let begun = commission_sol_swap_handler(&accounts(&sol_out), with_commission(10_000, 300, false), 0).unwrap();
    assert_eq!(begun.commission.commission_amount, 0);
    assert_eq!(begun.commission.amount_due(2_000), Ok(60));
}

#[test]
fn a_commission_in_the_traded_token_wants_an_account_of_that_token() {
    let p = parties(MINT_A, MINT_B, MINT_B);
    let accounts = CommissionSPLAccounts {
        payer: &p.payer,
        source_token_account: TokenAccount::try_from(&p.source).unwrap(),
        destination_token_account: TokenAccount::try_from(&p.destination).unwrap(),
        source_mint: Mint::try_from(&p.source_mint).unwrap(),
        destination_mint: Mint::try_from(&p.destination_mint).unwrap(),
        commission_token_account: TokenAccount::try_from(&p.commission_token).unwrap(),
        token_program: dex_solana::account::Interface::try_from(&p.token).unwrap(),
    };
    assert!(commission_spl_swap_handler(&accounts, with_commission(10_000, 100, false), 0).is_ok());
    assert_eq!(
        commission_spl_swap_handler(&accounts, with_commission(10_000, 100, true), 0).err(),
        Some(Error::Router(ErrorCode::InvalidCommissionTokenAccount))
    );
}

#[test]
fn a_proxied_swap_deposits_the_input_and_sweeps_the_output() {
    let p = parties(MINT_A, MINT_B, MINT_A);
    let accounts = |with_source: bool, with_destination: bool| ProxySwapAccounts {
        payer: &p.payer,
        source_token_account: TokenAccount::try_from(&p.source).unwrap(),
        destination_token_account: TokenAccount::try_from(&p.destination).unwrap(),
        source_mint: Mint::try_from(&p.source_mint).unwrap(),
        destination_mint: Mint::try_from(&p.destination_mint).unwrap(),
        sa_authority: &p.authority,
        source_token_sa: if with_source { TokenAccount::try_from(&p.source_sa).ok() } else { None },
        destination_token_sa: if with_destination {
            TokenAccount::try_from(&p.destination_sa).ok()
        } else {
            None
        },
        source_token_program: dex_solana::account::Interface::try_from(&p.token_2022).unwrap(),
        destination_token_program: dex_solana::account::Interface::try_from(&p.token).unwrap(),
        associated_token_program: Program::try_from(&p.associated, ProgramKind::AssociatedToken).unwrap(),
        system_program: Program::try_from(&p.system, ProgramKind::System).unwrap(),
    };
    let process = proxy_swap_handler(&accounts(true, true), request(500), 1).unwrap();
    assert!(process.proxy_swap);
    assert!(process.sweeps);
    assert_eq!((process.source_account, process.destination_account), (key(36), key(37)));
    assert_eq!(process.before_source_balance, 1_000);
    assert_eq!(process.before_destination_balance, 20);
    let deposit = process.deposit.clone().unwrap();
    let mut data = vec![12u8];
    data.extend_from_slice(&500u64.to_le_bytes());
    data.push(6);
    assert_eq!(deposit.instruction.data, data);
    assert_eq!(
        deposit.instruction.accounts,
        vec![
            meta(key(31), false, true),
            meta(Pubkey::new_from_array(MINT_A), false, false),
            meta(key(36), false, true),
            meta(key(30), true, false),
        ]
    );
    assert!(!deposit.signed);

    let token_program = Pubkey::new_from_array(TOKEN_PROGRAM);
    let sweep = process
        .sweep(key(35), key(37), key(32), Pubkey::new_from_array(MINT_B), 9, token_program, 480)
        .unwrap()
        .unwrap();
    assert!(sweep.signed);
    assert_eq!(sweep.instruction.accounts[0].pubkey, key(37));
    assert_eq!(sweep.instruction.accounts[2].pubkey, key(32));
    assert_eq!(sweep.instruction.accounts[3], meta(key(35), true, false));

    let source_after = token(31, MINT_A, 500);
    assert_eq!(process.settle(&source_after, &token(32, MINT_B, 500), 480), Ok(480));
    assert_eq!(process.settle(&source_after, &token(32, MINT_B, 30), 480), Ok(480));
    assert_eq!(
        process.settle(&source_after, &token(32, MINT_B, 29), 480),
        Err(Error::Router(ErrorCode::MinReturnNotReached))
    );
    assert_eq!(
        process.settle(&token(31, MINT_A, 1_001), &token(32, MINT_B, 500), 480),
        Err(Error::Router(ErrorCode::CalculationError))
    );
    assert_eq!(
        process.settle(&source_after, &token(32, MINT_B, 19), 480),
        Err(Error::Router(ErrorCode::CalculationError))
    );

    let direct = proxy_swap_handler(&accounts(false, false), request(500), 1).unwrap();
    assert!(!direct.proxy_swap);
    assert_eq!((direct.source_account, direct.destination_account), (key(31), key(32)));
    let mixed = proxy_swap_handler(&accounts(false, true), request(500), 1).unwrap();
    assert_eq!((mixed.source_account, mixed.destination_account), (key(31), key(37)));
    assert_eq!(route_accounts(key(1), key(2), Some(key(3)), None), (key(3), key(2)));
    assert_eq!(route_accounts(key(1), key(2), None, Some(key(4))), (key(1), key(4)));
    assert_eq!(direct.deposit, None);
    assert_eq!(
        direct.sweep(key(35), key(37), key(32), Pubkey::new_from_array(MINT_B), 9, token_program, 480),
        Ok(None)
    );
}

#[test]
fn proxied_swaps_with_a_commission_check_the_commission_first() {
    let p = parties(WSOL_PROGRAM, MINT_B, WSOL_PROGRAM);
    let sol = CommissionSOLProxySwapAccounts {
        payer: &p.payer,
        source_token_account: TokenAccount::try_from(&p.source).unwrap(),
        destination_token_account: TokenAccount::try_from(&p.destination).unwrap(),
        source_mint: Mint::try_from(&p.source_mint).unwrap(),
        destination_mint: Mint::try_from(&p.destination_mint).unwrap(),
        commission_account: &p.commission,
        sa_authority: &p.authority,
        source_token_sa: TokenAccount::try_from(&p.source_sa).ok(),
        destination_token_sa: None,
        source_token_program: dex_solana::account::Interface::try_from(&p.token).unwrap(),
        destination_token_program: dex_solana::account::Interface::try_from(&p.token).unwrap(),
        associated_token_program: Program::try_from(&p.associated, ProgramKind::AssociatedToken).unwrap(),
        system_program: Program::try_from(&p.system, ProgramKind::System).unwrap(),
    };
    let begun = commission_sol_proxy_swap_handler(&sol, request(10_000), 300, true, 0).unwrap();
    assert_eq!(begun.commission.commission_amount, 309);
    assert!(begun.process.proxy_swap);
    assert!(!begun.process.sweeps);
    assert!(begun.process.deposit.is_some());
    assert_eq!(
        commission_sol_proxy_swap_handler(&sol, request(10_000), 300, false, 0).err(),
        Some(Error::Router(ErrorCode::InvalidCommissionTokenAccount))
    );
    let spl = CommissionSPLProxySwapAccounts {
        payer: &p.payer,
        source_token_account: sol.source_token_account,
        destination_token_account: sol.destination_token_account,
        source_mint: sol.source_mint,
        destination_mint: sol.destination_mint,
        commission_token_account: TokenAccount::try_from(&p.commission_token).unwrap(),
        sa_authority: &p.authority,
        source_token_sa: None,
        destination_token_sa: sol.source_token_sa,
        source_token_program: sol.source_token_program,
        destination_token_program: sol.destination_token_program,
        associated_token_program: sol.associated_token_program,
        system_program: sol.system_program,
    };
    let begun = commission_spl_proxy_swap_handler(&spl, request(10_000), 200, true, 0).unwrap();
    assert_eq!(begun.commission.commission_amount, 10_000 * 200 / 9_800);
    assert!(!begun.process.proxy_swap);
    assert!(begun.process.sweeps);
    assert_eq!(
        commission_spl_proxy_swap_handler(&spl, request(10_000), 0, true, 0).err(),
        Some(Error::Router(ErrorCode::InvalidCommissionRate))
    );
}

fn told() -> BridgeToArgs {
    BridgeToArgs {
        adaptor_id: AdaptorID::Wormhole,
        to: vec![0xaa, 0xbb, 0xcc],
        order_id: 0x0102,
        to_chain_id: 56,
        amount: 1,
        swap_type: SwapType::SWAPANDBRIDGE,
        data: vec![],
        ext_data: vec![9],
    }
}

#[test]
fn the_bridge_is_told_the_output_of_the_swap() {
    let packed = pack_bridge_to_args(&told(), 777).unwrap();
    let mut expected = vec![21u8, 3, 0, 0, 0, 0xaa, 0xbb, 0xcc];
    expected.extend_from_slice(&0x0102u64.to_le_bytes());
    expected.extend_from_slice(&56u64.to_le_bytes());
    expected.extend_from_slice(&777u64.to_le_bytes());
    expected.push(1);
    expected.extend_from_slice(&[0, 0, 0, 0]);
    expected.extend_from_slice(&[1, 0, 0, 0, 9]);
    assert_eq!(packed, expected);
    assert_eq!(AdaptorID::Bridge0.into(), 0);
    assert_eq!(AdaptorID::Cctp.into(), 18);
    assert_eq!(AdaptorID::Meson.into(), 22);
    assert_eq!(AdaptorID::Debridgedln.into(), 34);
    assert_eq!(AdaptorID::Allbridge.into(), 41);
    assert_eq!(SwapType::BRIDGE.into(), 0);

    let mut remaining: Vec<AccountInfo> = (0..6u8).map(|n| plain([60 + n; 32])).collect();
    remaining[3].is_signer = true;
    remaining[4].is_writable = false;
    let report = |offset: u8, len: u8| {
        cpi_bridge_to_log(
            told(),
            777,
            offset,
            len,
            Pubkey::new_from_array(OKX_BRIDGE_PROGRAM),
            key(1),
            key(2),
            key(3),
            key(4),
            key(5),
            key(6),
            key(7),
            &remaining,
        )
    };
    let call = report(3, 2).unwrap();
    assert_eq!(call.instruction.program_id, Pubkey::new_from_array(OKX_BRIDGE_PROGRAM));
    let mut data = BRIDGE_TO_LOG_SELECTOR.to_vec();
    data.extend_from_slice(&expected);
    assert_eq!(call.instruction.data, data);
    assert_eq!(
        call.instruction.accounts,
        vec![
            meta(key(1), true, true),
            meta(key(2), false, true),
            meta(key(3), false, true),
            meta(key(4), false, false),
            meta(key(5), false, false),
            meta(key(6), false, false),
            meta(key(7), false, false),
            meta(key(63), true, true),
            meta(key(64), false, false),
        ]
    );
    assert_eq!(
        call.account_infos,
        vec![AccountRef { place: 3, key: key(63) }, AccountRef { place: 4, key: key(64) }]
    );
    assert_eq!(report(6, 0).unwrap().instruction.accounts.len(), 7);
    assert_eq!(report(5, 2).err(), Some(Error::Router(ErrorCode::InvalidAccountsLength)));
    assert_eq!(report(255, 255).err(), Some(Error::Router(ErrorCode::InvalidAccountsLength)));
}

#[test]
fn reported_swaps_begin_like_swaps() {
    let p = parties(WSOL_PROGRAM, MINT_B, WSOL_PROGRAM);
    let source_token_account = TokenAccount::try_from(&p.source).unwrap();
    let destination_token_account = TokenAccount::try_from(&p.destination).unwrap();
    let source_mint = Mint::try_from(&p.source_mint).unwrap();
    let destination_mint = Mint::try_from(&p.destination_mint).unwrap();
    let associated_token_program = Program::try_from(&p.associated, ProgramKind::AssociatedToken).unwrap();
    let token_program = Program::try_from(&p.token, ProgramKind::Token).unwrap();
    let token_2022_program = Program::try_from(&p.token_2022, ProgramKind::Token2022).unwrap();
    let system_program = Program::try_from(&p.system, ProgramKind::System).unwrap();
    let plain_accounts = FromSwapAccounts {
        payer: &p.payer,
        source_token_account,
        destination_token_account,
        source_mint,
        destination_mint,
        bridge_program: &p.bridge,
        associated_token_program,
        token_program,
        token_2022_program,
        system_program,
    };
    let process = from_swap_log_handler(&plain_accounts, request(500)).unwrap();
    assert_eq!(process.before_destination_balance, 20);

    let sol = CommissionSOLFromSwapAccounts {
        payer: &p.payer,
        source_token_account,
        destination_token_account,
        source_mint,
        destination_mint,
        bridge_program: &p.bridge,
        associated_token_program,
        token_program,
        token_2022_program,
        system_program,
        commission_account: &p.commission,
    };
    let begun = commission_sol_from_swap_handler(&sol, request(10_000), 300, &told()).unwrap();
    assert_eq!(begun.commission.commission_amount, 309);
    assert!(begun.commission.commission_direction);

    let spl = CommissionSPLFromSwapAccounts {
        payer: &p.payer,
        source_token_account,
        destination_token_account,
        source_mint,
        destination_mint,
        bridge_program: &p.bridge,
        associated_token_program,
        token_program,
        token_2022_program,
        system_program,
        commission_token_account: TokenAccount::try_from(&p.commission_token).unwrap(),
    };
    let begun = commission_spl_from_swap_handler(&spl, request(10_000), 300, &told()).unwrap();
    assert_eq!(begun.commission.commission_amount, 309);
    // the source's mint belongs to the token program with extensions
    assert_eq!(commission_token_program(&spl), Pubkey::new_from_array(TOKEN_2022_PROGRAM));
    let other = parties(MINT_A, MINT_B, MINT_B);
    let misfit = CommissionSPLFromSwapAccounts {
        commission_token_account: TokenAccount::try_from(&other.commission_token).unwrap(),
        ..spl
    };
    assert_eq!(
        commission_spl_from_swap_handler(&misfit, request(10_000), 300, &told()).err(),
        Some(Error::Router(ErrorCode::InvalidCommissionTokenAccount))
    );
    let wrong_asset = parties(MINT_A, MINT_B, MINT_A);
    let sol = CommissionSOLFromSwapAccounts {
        source_mint: Mint::try_from(&wrong_asset.source_mint).unwrap(),
        ..sol
    };
    assert_eq!(
        commission_sol_from_swap_handler(&sol, request(10_000), 300, &told()).err(),
        Some(Error::Router(ErrorCode::InvalidCommissionTokenAccount))
    );
}
