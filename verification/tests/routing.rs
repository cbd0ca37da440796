//! The routing engine, walked by hand: what it asks for, what it takes back, and where it
//! stops.

use anchor_lang::solana_program::program_option::COption;
use anchor_lang::solana_program::program_pack::Pack;
use anchor_spl::token::spl_token::state::{Account as PackedAccount, AccountState, Mint as PackedMint};
use dex_solana::account::{AccountInfo, Pubkey, TokenAccount};
use dex_solana::adapters::common::{CallFailure, Invocation};
use dex_solana::adapters::{lifinity, spl_token_swap};
use dex_solana::constants::{
    AUTHORITY_PDA, LIFINITY_V1POOL_PROGRAM, SYSTEM_PROGRAM, TOKEN_PROGRAM, ZERO_ADDRESS,
};
use dex_solana::error::{Error, ErrorCode};
use dex_solana::instructions::common::{
    check_route, check_swap_args, split_fork_amount, swap_process, Dex, Route, Step, SwapArgs,
    SwapEvent, SwapProcess,
};

fn key(n: u8) -> Pubkey {
    Pubkey::new_from_array([n; 32])
}

fn plain(n: u8) -> AccountInfo {
    AccountInfo {
        key: key(n),
        lamports: 1,
        data: Vec::new(),
        owner: Pubkey::new_from_array(SYSTEM_PROGRAM),
        is_signer: false,
        is_writable: true,
        executable: false,
    }
}

fn signer(n: u8) -> AccountInfo {
    AccountInfo { is_signer: true, ..plain(n) }
}

fn named(bytes: [u8; 32]) -> AccountInfo {
    AccountInfo { key: Pubkey::new_from_array(bytes), executable: true, ..plain(0) }
}

fn token(n: u8, mint: u8, amount: u64) -> AccountInfo {
    let packed = PackedAccount {
        mint: anchor_lang::prelude::Pubkey::new_from_array([mint; 32]),
        owner: anchor_lang::prelude::Pubkey::new_from_array([200; 32]),
        amount,
        delegate: COption::None,
        state: AccountState::Initialized,
        is_native: COption::None,
        delegated_amount: 0,
        close_authority: COption::None,
    };
    let mut data = vec![0u8; PackedAccount::LEN];
    PackedAccount::pack(packed, &mut data).unwrap();
    AccountInfo { data, owner: Pubkey::new_from_array(TOKEN_PROGRAM), ..plain(n) }
}

fn mint(n: u8, decimals: u8) -> AccountInfo {
    let packed = PackedMint {
        mint_authority: COption::None,
        supply: 1_000_000,
        decimals,
        is_initialized: true,
        freeze_authority: COption::None,
    };
    let mut data = vec![0u8; PackedMint::LEN];
    PackedMint::pack(packed, &mut data).unwrap();
    AccountInfo { data, owner: Pubkey::new_from_array(TOKEN_PROGRAM), ..plain(n) }
}

/// The eleven accounts of a token-swap pool that trades the user's `source` for the user's
/// `destination`.
fn token_swap_pool(authority: AccountInfo, source: &AccountInfo, destination: &AccountInfo, base: u8) -> Vec<AccountInfo> {
    vec![
        plain(base),
        authority,
        source.clone(),
        destination.clone(),
        plain(base + 1),
        plain(base + 2),
        token(base + 3, 1, 5_000),
        token(base + 4, 2, 5_000),
        plain(base + 5),
        token(base + 6, 9, 0),
        named(TOKEN_PROGRAM),
    ]
}

/// The fourteen accounts of a pool of the first kind that trades the user's `source` for
/// the user's `destination`.
fn lifinity_pool(authority: AccountInfo, source: &AccountInfo, destination: &AccountInfo, base: u8) -> Vec<AccountInfo> {
    vec![
        named(LIFINITY_V1POOL_PROGRAM),
        authority,
        source.clone(),
        destination.clone(),
        plain(base),
        plain(base + 1),
        token(base + 2, 1, 5_000),
        token(base + 3, 2, 5_000),
        mint(base + 4, 6),
        plain(base + 5),
        plain(base + 6),
        plain(base + 7),
        plain(base + 8),
        named(TOKEN_PROGRAM),
    ]
}

fn one_hop(dexes: Vec<Dex>, weights: Vec<u8>) -> Vec<Route> {
    vec![Route { dexes, weights }]
}

fn request(amount_in: u64, min_return: u64, amounts: Vec<u64>, routes: Vec<Vec<Route>>) -> SwapArgs {
    SwapArgs { amount_in, expect_amount_out: min_return, min_return, amounts, routes }
}

fn begin(source: &AccountInfo, destination: &AccountInfo, args: SwapArgs) -> Result<SwapProcess, Error> {
    let source = TokenAccount::try_from(source).unwrap();
    let destination = TokenAccount::try_from(destination).unwrap();
    swap_process(&source, &destination, args, false)
}

fn invocation(process: &SwapProcess, accounts: &[AccountInfo]) -> Invocation {
    match process.next(accounts) {
        Ok(Step::Invoke(invocation)) => invocation,
        other => panic!("an invocation was expected, not {:?}", other),
    }
}

fn amount_in_of(data: &[u8], at: usize) -> u64 {
    let mut bytes = [0u8; 8];
    bytes.copy_from_slice(&data[at..at + 8]);
    u64::from_le_bytes(bytes)
}

#[test]
fn split_amounts_must_add_up_to_the_input() {
    let routes = vec![one_hop(vec![Dex::SplTokenSwap], vec![100]), one_hop(vec![Dex::SplTokenSwap], vec![100])];
    let good = request(1000, 1, vec![400, 600], routes.clone());
    assert_eq!(check_swap_args(&good), Ok(()));

    let short = request(1000, 1, vec![400, 599], routes.clone());
    assert_eq!(
        check_swap_args(&short),
        Err(Error::Router(ErrorCode::TotalAmountsMustBeEqualToAmountIn))
    );
    let source = token(10, 1, 1000);
    let destination = token(11, 2, 0);
    assert_eq!(
        begin(&source, &destination, short).err(),
        Some(Error::Router(ErrorCode::TotalAmountsMustBeEqualToAmountIn))
    );

    let overflowing = request(1000, 1, vec![u64::MAX, 1001], routes);
    assert_eq!(check_swap_args(&overflowing), Err(Error::Router(ErrorCode::CalculationError)));
}

#[test]
fn requests_are_refused_in_the_order_of_the_rules() {
    let routes = vec![one_hop(vec![Dex::SplTokenSwap], vec![100])];
    let mut args = request(0, 0, vec![], routes.clone());
    assert_eq!(
        check_swap_args(&args),
        Err(Error::Router(ErrorCode::AmountInMustBeGreaterThanZero))
    );
    args.amount_in = 5;
    assert_eq!(
        check_swap_args(&args),
        Err(Error::Router(ErrorCode::MinReturnMustBeGreaterThanZero))
    );
    args.min_return = 3;
    args.expect_amount_out = 2;
    assert_eq!(check_swap_args(&args), Err(Error::Router(ErrorCode::InvalidExpectAmountOut)));
    args.expect_amount_out = 3;
    assert_eq!(
        check_swap_args(&args),
        Err(Error::Router(ErrorCode::AmountsAndRoutesMustHaveTheSameLength))
    );
    args.amounts = vec![5];
    assert_eq!(check_swap_args(&args), Ok(()));
}

#[test]
fn hops_are_held_to_their_rules() {
    let two = vec![Dex::SplTokenSwap, Dex::StableSwap];
    assert_eq!(check_route(&Route { dexes: two.clone(), weights: vec![30, 70] }), Ok(()));
    assert_eq!(
        check_route(&Route { dexes: two.clone(), weights: vec![30, 69] }),
        Err(Error::Router(ErrorCode::WeightsMustSumTo100))
    );
    assert_eq!(
        check_route(&Route { dexes: two.clone(), weights: vec![100] }),
        Err(Error::Router(ErrorCode::DexesAndWeightsMustHaveTheSameLength))
    );
    assert_eq!(
        check_route(&Route { dexes: two, weights: vec![200, 100] }),
        Err(Error::Router(ErrorCode::CalculationError))
    );
    assert_eq!(
        check_route(&Route { dexes: vec![], weights: vec![] }),
        Err(Error::Router(ErrorCode::WeightsMustSumTo100))
    );
}

#[test]
fn the_last_fork_takes_the_rest() {
    let weights = vec![30u8, 70];
    assert_eq!(split_fork_amount(1000, &weights, 0, 0), Ok(300));
    assert_eq!(split_fork_amount(1000, &weights, 1, 300), Ok(700));

    let weights = vec![33u8, 33, 34];
    assert_eq!(split_fork_amount(100, &weights, 0, 0), Ok(33));
    assert_eq!(split_fork_amount(100, &weights, 1, 33), Ok(33));
    assert_eq!(split_fork_amount(100, &weights, 2, 66), Ok(34));

    // 7 * 33 / 100 = 2, twice; the last fork gets 3 though its share would round to 2
    assert_eq!(split_fork_amount(7, &weights, 0, 0), Ok(2));
    assert_eq!(split_fork_amount(7, &weights, 1, 2), Ok(2));
    assert_eq!(split_fork_amount(7, &weights, 2, 4), Ok(3));

    assert_eq!(
        split_fork_amount(u64::MAX, &weights, 0, 0),
        Err(Error::Router(ErrorCode::CalculationError))
    );
    assert_eq!(split_fork_amount(u64::MAX, &vec![100u8], 0, 0), Ok(u64::MAX));
    assert_eq!(
        split_fork_amount(10, &weights, 2, 11),
        Err(Error::Router(ErrorCode::CalculationError))
    );
}

#[test]
fn two_forks_of_eleven_and_fourteen_accounts_move_the_cursor_by_twenty_five() {
    let source = token(10, 1, 1000);
    let destination = token(11, 2, 40);
    let mut accounts = token_swap_pool(signer(12), &source, &destination, 20);
    accounts.extend(lifinity_pool(signer(12), &source, &destination, 40));
    accounts.push(plain(99));
    let args = request(
        1000,
        100,
        vec![1000],
        vec![one_hop(vec![Dex::SplTokenSwap, Dex::LifinityV1], vec![30, 70])],
    );
    let mut process = begin(&source, &destination, args).unwrap();
    assert_eq!(process.offset, 0);
    assert_eq!(process.before_destination_balance, 40);

    let first = invocation(&process, &accounts);
    assert_eq!(first.next_offset, 11);
    assert_eq!(first.call.instruction.data, spl_token_swap::pack_swap_instruction(300, 1));
    assert_eq!(first.before_destination_balance, 40);
    assert!(!first.call.signed);
    assert_eq!(first.destination, 3);
    assert!(first.call.account_infos.iter().all(|a| a.place < 11));

    // the venue paid 250 into the destination
    let destination_after = token(11, 2, 290);
    let event = process.record(&first, Ok(()), &destination_after).unwrap();
    assert_eq!(event, SwapEvent { dex: Dex::SplTokenSwap, amount_in: 300, amount_out: 250 });
    assert_eq!(process.offset, 11);
    assert_eq!(process.fork, 1);
    assert_eq!(process.hop_accounts.from_account, key(10));
    assert_eq!(process.hop_accounts.to_account, key(11));

    accounts[3] = destination_after.clone();
    accounts[14] = destination_after.clone();
    let second = invocation(&process, &accounts);
    assert_eq!(second.next_offset, 25);
    assert_eq!(second.call.instruction.data, lifinity::pack_swap_instruction(700, 1));
    assert_eq!(second.before_destination_balance, 290);
    assert_eq!(second.destination, 14);
    assert!(second.call.account_infos.iter().all(|a| 11 <= a.place && a.place < 25));

    let destination_after = token(11, 2, 900);
    let event = process.record(&second, Ok(()), &destination_after).unwrap();
    assert_eq!(event, SwapEvent { dex: Dex::LifinityV1, amount_in: 700, amount_out: 610 });
    assert_eq!(process.offset, 25);
    assert_eq!(process.bucket, 1);

    assert!(matches!(process.next(&accounts), Ok(Step::Settle)));
    assert_eq!(process.settle(&token(10, 1, 0), &destination_after), Ok(860));
}

#[test]
fn an_account_outside_the_venues_part_has_no_say() {
    let source = token(10, 1, 1000);
    let destination = token(11, 2, 0);
    let mut accounts = token_swap_pool(signer(12), &source, &destination, 20);
    accounts.push(plain(99));
    let args = request(500, 1, vec![500], vec![one_hop(vec![Dex::SplTokenSwap], vec![100])]);
    let process = begin(&source, &destination, args).unwrap();
    let with_one = invocation(&process, &accounts);
    accounts[11] = token(98, 7, 3);
    accounts.push(plain(97));
    let with_another = invocation(&process, &accounts);
    assert_eq!(with_one, with_another);
    accounts.truncate(10);
    assert_eq!(
        process.next(&accounts).err(),
        Some(Error::Router(ErrorCode::InvalidAccountsLength))
    );
}

fn two_hops(middle_of_second_hop: u8, destination_of_second_hop: u8) -> (SwapProcess, Vec<AccountInfo>, Invocation) {
    let source = token(10, 1, 1000);
    let middle = token(13, 2, 0);
    let destination = token(11, 1, 0);
    let mut accounts = token_swap_pool(signer(12), &source, &middle, 20);
    // the second hop trades the other way round: the pool's second asset for its first
    let second_source = token(middle_of_second_hop, 2, 0);
    let second_destination = token(destination_of_second_hop, 1, 0);
    let mut authority = plain(0);
    authority.key = Pubkey::new_from_array(AUTHORITY_PDA);
    accounts.extend(token_swap_pool(authority, &second_source, &second_destination, 40));
    let args = request(
        1000,
        100,
        vec![1000],
        vec![vec![
            Route { dexes: vec![Dex::SplTokenSwap], weights: vec![100] },
            Route { dexes: vec![Dex::SplTokenSwap], weights: vec![100] },
        ]],
    );
    let process = begin(&source, &destination, args).unwrap();
    let first = invocation(&process, &accounts);
    (process, accounts, first)
}

#[test]
fn a_hop_must_draw_from_the_account_the_hop_before_paid_into() {
    let (mut process, mut accounts, first) = two_hops(14, 11);
    assert_eq!(first.swap_destination_token, key(13));
    let middle_after = token(13, 2, 480);
    process.record(&first, Ok(()), &middle_after).unwrap();
    assert_eq!(process.hop, 1);
    assert_eq!(process.amount_in, 480);
    assert_eq!(process.hop_accounts.last_to_account, key(13));
    accounts[3] = middle_after;
    // the second hop's venue is set to draw from account 14, not from 13
    assert_eq!(
        process.next(&accounts).err(),
        Some(Error::Router(ErrorCode::InvalidHopFromAccount))
    );
    assert_eq!(process.offset, 11);
}

#[test]
fn a_chain_of_two_hops_goes_through() {
    let (mut process, mut accounts, first) = two_hops(13, 11);
    let middle_after = token(13, 2, 480);
    process.record(&first, Ok(()), &middle_after).unwrap();
    accounts[3] = middle_after.clone();
    accounts[13] = middle_after;
    let second = invocation(&process, &accounts);
    assert!(second.call.signed);
    assert_eq!(second.swap_source_token, key(13));
    assert_eq!(second.call.instruction.data, spl_token_swap::pack_swap_instruction(480, 1));
    // the pool's token accounts stand in the direction of the trade
    assert_eq!(second.call.instruction.accounts[4].pubkey, key(44));
    assert_eq!(second.call.instruction.accounts[5].pubkey, key(43));
    let destination_after = token(11, 1, 470);
    let event = process.record(&second, Ok(()), &destination_after).unwrap();
    assert_eq!(event.amount_out, 470);
    assert_eq!(process.offset, 22);
    assert!(matches!(process.next(&accounts), Ok(Step::Settle)));
    assert_eq!(process.settle(&token(10, 1, 0), &destination_after), Ok(470));
}

#[test]
fn the_last_hop_must_pay_into_the_callers_destination() {
    let (mut process, mut accounts, first) = two_hops(13, 15);
    let middle_after = token(13, 2, 480);
    process.record(&first, Ok(()), &middle_after).unwrap();
    accounts[3] = middle_after.clone();
    accounts[13] = middle_after;
    let second = invocation(&process, &accounts);
    assert_eq!(second.swap_destination_token, key(15));
    let before = (process.offset, process.hop, process.fork, process.amount_in);
    // the venue's call went through and paid 470 into account 15
    assert_eq!(
        process.record(&second, Ok(()), &token(15, 1, 470)).err(),
        Some(Error::Router(ErrorCode::InvalidDestinationTokenAccount))
    );
    assert_eq!((process.offset, process.hop, process.fork, process.amount_in), before);
}

#[test]
fn the_first_hop_must_draw_from_the_callers_source() {
    let source = token(10, 1, 1000);
    let destination = token(11, 2, 0);
    let other = token(16, 1, 1000);
    let accounts = token_swap_pool(signer(12), &other, &destination, 20);
    let args = request(500, 1, vec![500], vec![one_hop(vec![Dex::SplTokenSwap], vec![100])]);
    let mut process = begin(&source, &destination, args).unwrap();
    let call = invocation(&process, &accounts);
    assert_eq!(
        process.record(&call, Ok(()), &token(11, 2, 5)).err(),
        Some(Error::Router(ErrorCode::InvalidSourceTokenAccount))
    );
}

fn settled_with(outputs: [u64; 2]) -> Result<u64, Error> {
    let source = token(10, 1, 1000);
    let destination = token(11, 2, 0);
    let mut accounts = token_swap_pool(signer(12), &source, &destination, 20);
    accounts.extend(token_swap_pool(signer(12), &source, &destination, 40));
    let args = request(
        1000,
        100,
        vec![1000],
        vec![one_hop(vec![Dex::SplTokenSwap, Dex::SplTokenSwap], vec![50, 50])],
    );
    let mut process = begin(&source, &destination, args)?;
    let first = invocation(&process, &accounts);
    let after_first = token(11, 2, outputs[0]);
    process.record(&first, Ok(()), &after_first)?;
    accounts[3] = after_first.clone();
    accounts[14] = after_first;
    let second = invocation(&process, &accounts);
    let after_second = token(11, 2, outputs[0] + outputs[1]);
    process.record(&second, Ok(()), &after_second)?;
    process.settle(&token(10, 1, 0), &after_second)
}

#[test]
fn the_output_must_reach_the_minimum() {
    assert_eq!(settled_with([49, 50]), Err(Error::Router(ErrorCode::MinReturnNotReached)));
    assert_eq!(settled_with([50, 50]), Ok(100));
    assert_eq!(settled_with([50, 51]), Ok(101));
}

#[test]
fn the_growth_of_the_destination_is_what_counts() {
    let source = token(10, 1, 1000);
    let destination = token(11, 2, 30);
    let accounts = token_swap_pool(signer(12), &source, &destination, 20);
    let args = request(500, 100, vec![500], vec![one_hop(vec![Dex::SplTokenSwap], vec![100])]);
    let mut process = begin(&source, &destination, args).unwrap();
    let call = invocation(&process, &accounts);
    let event = process.record(&call, Ok(()), &token(11, 2, 180)).unwrap();
    assert_eq!(event.amount_out, 150);
    // a fee was taken from the destination after the venue paid: 140 is left of the 150
    assert_eq!(process.settle(&token(10, 1, 500), &token(11, 2, 170)), Ok(140));
    assert_eq!(
        process.settle(&token(10, 1, 500), &token(11, 2, 129)),
        Err(Error::Router(ErrorCode::MinReturnNotReached))
    );
    // a source that grew, or a destination that shrank, is an arithmetic failure
    assert_eq!(
        process.settle(&token(10, 1, 1001), &token(11, 2, 170)),
        Err(Error::Router(ErrorCode::CalculationError))
    );
    assert_eq!(
        process.settle(&token(10, 1, 500), &token(11, 2, 29)),
        Err(Error::Router(ErrorCode::CalculationError))
    );
    // a source account that was closed on the way is not read
    let mut closed = plain(10);
    closed.lamports = 0;
    assert_eq!(process.settle(&closed, &token(11, 2, 170)), Ok(140));
}

#[test]
fn the_same_request_gets_the_same_decision() {
    let run = || {
        let source = token(10, 1, 1000);
        let destination = token(11, 2, 40);
        let mut accounts = token_swap_pool(signer(12), &source, &destination, 20);
        accounts.extend(lifinity_pool(signer(12), &source, &destination, 40));
        let args = request(
            1000,
            100,
            vec![1000],
            vec![one_hop(vec![Dex::SplTokenSwap, Dex::LifinityV1], vec![33, 67])],
        );
        let process = begin(&source, &destination, args).unwrap();
        invocation(&process, &accounts)
    };
    let first = run();
    let second = run();
    assert_eq!(first, second);
    assert_eq!(amount_in_of(&first.call.instruction.data, 1), 330);

    let refused = || {
        let args = request(1000, 100, vec![999], vec![one_hop(vec![Dex::SplTokenSwap], vec![100])]);
        begin(&token(10, 1, 1000), &token(11, 2, 40), args).err()
    };
    assert_eq!(refused(), refused());
    assert_eq!(refused(), Some(Error::Router(ErrorCode::TotalAmountsMustBeEqualToAmountIn)));
}

#[test]
fn a_bucket_may_chain_three_hops_and_no_more() {
    let source = token(10, 1, 1000);
    let destination = token(11, 2, 0);
    let accounts = token_swap_pool(signer(12), &source, &destination, 20);
    let hop = Route { dexes: vec![Dex::SplTokenSwap], weights: vec![100] };
    let four = request(5, 1, vec![5], vec![vec![hop.clone(), hop.clone(), hop.clone(), hop.clone()]]);
    let process = begin(&source, &destination, four).unwrap();
    assert_eq!(process.next(&accounts).err(), Some(Error::Router(ErrorCode::TooManyHops)));
    let three = request(5, 1, vec![5], vec![vec![hop.clone(), hop.clone(), hop]]);
    let process = begin(&source, &destination, three).unwrap();
    assert!(matches!(process.next(&accounts), Ok(Step::Invoke(_))));
}

#[test]
fn buckets_without_hops_are_passed_over() {
    let source = token(10, 1, 1000);
    let destination = token(11, 2, 0);
    let accounts = token_swap_pool(signer(12), &source, &destination, 20);
    let hop = Route { dexes: vec![Dex::SplTokenSwap], weights: vec![100] };
    let args = request(12, 1, vec![5, 7, 0], vec![vec![], vec![hop], vec![]]);
    let mut process = begin(&source, &destination, args).unwrap();
    assert_eq!(process.bucket, 1);
    assert_eq!(process.amount_in, 7);
    let call = invocation(&process, &accounts);
    assert_eq!(call.call.instruction.data, spl_token_swap::pack_swap_instruction(7, 1));
    process.record(&call, Ok(()), &token(11, 2, 3)).unwrap();
    assert_eq!(process.bucket, 3);
    assert!(matches!(process.next(&accounts), Ok(Step::Settle)));

    let nothing = request(12, 1, vec![12], vec![vec![]]);
    let process = begin(&source, &destination, nothing).unwrap();
    assert!(matches!(process.next(&accounts), Ok(Step::Settle)));
    assert_eq!(
        process.settle(&source, &destination),
        Err(Error::Router(ErrorCode::MinReturnNotReached))
    );
}

#[test]
fn a_failed_call_aborts_and_leaves_the_state() {
    let source = token(10, 1, 1000);
    let destination = token(11, 2, 30);
    let accounts = token_swap_pool(signer(12), &source, &destination, 20);
    let args = request(500, 100, vec![500], vec![one_hop(vec![Dex::SplTokenSwap], vec![100])]);
    let mut process = begin(&source, &destination, args).unwrap();
    let call = invocation(&process, &accounts);
    let failed = CallFailure { call: 0, code: 6001 };
    assert_eq!(
        process.record(&call, Err(failed), &destination).err(),
        Some(Error::Program(6001))
    );
    assert_eq!(process.offset, 0);
    assert_eq!(process.hop_accounts.from_account, Pubkey::new_from_array(ZERO_ADDRESS));
    // a destination that shrank under the venue is an arithmetic failure
    assert_eq!(
        process.record(&call, Ok(()), &token(11, 2, 29)).err(),
        Some(Error::Router(ErrorCode::CalculationError))
    );
    // a destination that cannot be read any more fails with the decoder's code
    let mut broken = destination.clone();
    broken.data.truncate(10);
    assert!(matches!(process.record(&call, Ok(()), &broken), Err(Error::Program(_))));
    assert_eq!(process.offset, 0);
}

#[test]
fn the_invocation_is_completed_as_the_adapter_contract_says() {
    let source = token(10, 1, 1000);
    let destination = token(11, 2, 30);
    let accounts = token_swap_pool(signer(12), &source, &destination, 20);
    let args = request(500, 100, vec![500], vec![one_hop(vec![Dex::SplTokenSwap], vec![100])]);
    let process = begin(&source, &destination, args).unwrap();
    let call = invocation(&process, &accounts);
    let mut offset = 0usize;
    let mut hop_accounts = process.hop_accounts;
    assert_eq!(
        call.complete(Ok(()), &token(11, 2, 29), &mut offset, &mut hop_accounts),
        Err(Error::Router(ErrorCode::CalculationError))
    );
    assert_eq!(offset, 0);
    assert_eq!(hop_accounts, process.hop_accounts);
    assert_eq!(call.complete(Ok(()), &token(11, 2, 75), &mut offset, &mut hop_accounts), Ok(45));
    assert_eq!(offset, 11);
    assert_eq!(hop_accounts.from_account, key(10));
    assert_eq!(hop_accounts.to_account, key(11));
}

#[test]
fn the_states_the_engine_hands_out_are_well_formed() {
    let source = token(10, 1, 1000);
    let destination = token(11, 2, 40);
    let mut accounts = token_swap_pool(signer(12), &source, &destination, 20);
    accounts.extend(lifinity_pool(signer(12), &source, &destination, 40));
    let args = request(
        1000,
        100,
        vec![1000],
        vec![one_hop(vec![Dex::SplTokenSwap, Dex::LifinityV1], vec![33, 67])],
    );
    let mut process = begin(&source, &destination, args).unwrap();
    assert!(process.is_wf());
    let first = invocation(&process, &accounts);
    process.record(&first, Ok(()), &token(11, 2, 50)).unwrap();
    assert!(process.is_wf());
    assert_eq!(process.acc_fork_in, 330);
    // a state in which the first fork took another amount than its share
    process.acc_fork_in = 331;
    assert!(!process.is_wf());
    process.acc_fork_in = 330;
    process.fork = 2;
    assert!(!process.is_wf());
    process.fork = 1;
    process.hop = 1;
    assert!(!process.is_wf());
    process.hop = 0;
    process.bucket = 2;
    assert!(!process.is_wf());
    process.bucket = 1;
    assert!(process.is_wf());
}
