//! The payloads of the venues' instructions, byte for byte.

use dex_solana::adapters::{
    aldrin, fluxbeam, lifinity, meteora, obric_v2, openbookv2, phoenix, pumpfun, raydium, sanctum,
    spl_token_swap, stable_swap, whirlpool,
};
use dex_solana::constants::{CPSWAP_SELECTOR, SWAP_SELECTOR, SWAP_V2_SELECTOR};

#[test]
fn aldrin_test_pack_swap_instruction() {
    let amount_in = 100u64;
    let data = aldrin::pack_swap_instruction(amount_in, 99u64, aldrin::Side::Ask);

    println!("data.len: {}", data.len());
    assert!(data.len() == aldrin::ARGS_LEN);
    assert!(
        data == vec![
            248, 198, 158, 145, 225, 117, 135, 200, 100, 0, 0, 0, 0, 0, 0, 0, 99, 0, 0, 0, 0,
            0, 0, 0, 1
        ]
    );
}

#[test]
fn fluxbeam_test_pack_swap_instruction() {
    let amount_in = 100u64;
    let data = fluxbeam::pack_swap_instruction(amount_in, 1u64);

    println!("data.len: {}", data.len());
    assert!(data.len() == fluxbeam::ARGS_LEN);
}

#[test]
fn lifinity_test_pack_swap_instruction() {
    let amount_in = 100u64;
    let data = lifinity::pack_swap_instruction(amount_in, 1u64);

    println!("data.len: {}", data.len());
    assert!(data.len() == lifinity::ARGS_LEN);
}

#[test]
fn meteora_test_pack_swap_instruction() {
    let amount_in = 100u64;
    let data = meteora::pack_swap_instruction(amount_in, 1u64);

    println!("data.len: {}", data.len());
    assert!(data.len() == meteora::ARGS_LEN);
}

#[test]
fn obric_v2_test_pack_swap_instruction() {
    let amount_in = 100u64;
    let x_to_y = true;
    let data = obric_v2::pack_swap_instruction(x_to_y, amount_in, 1u64);

    println!("data.len: {}", data.len());
    assert!(data.len() == obric_v2::ARGS_LEN);
}

#[test]
fn openbookv2_test_pack_instruction() {
    let amount_in = 39624782u64;

    let side = openbookv2::Side::Bid;
    let price_lots = i64::MAX;
    // let quote_lot_size = 1i64;
    let base_lot_size = 100000i64;
    let max_base_lots = i64::MAX / base_lot_size;
    let max_quote_lots_including_fees = i64::try_from(amount_in).unwrap();
    let order_type = 3u8;
    let limit = 50u8;

    let data = openbookv2::pack_instruction(
        side,
        price_lots,
        max_base_lots,
        max_quote_lots_including_fees,
        order_type,
        limit,
    );
    println!("data.len: {}", data.len());
    assert!(data.len() == openbookv2::ARGS_LEN);
    println!("constructed_data {:?}", data);
    //032c47031ac7cb5500ffffffffffffff7fa38d23d6e25300004ea05c02000000000332
    assert_eq!(
        data,
        vec![
            0x03, 0x2c, 0x47, 0x03, 0x1a, 0xc7, 0xcb, 0x55, 0x00, 0xff, 0xff, 0xff, 0xff, 0xff,
            0xff, 0xff, 0x7f, 0xa3, 0x8d, 0x23, 0xd6, 0xe2, 0x53, 0x00, 0x00, 0x4e, 0xa0, 0x5c,
            0x02, 0x00, 0x00, 0x00, 0x00, 0x03, 0x32
        ]
    );
}

#[test]
fn test_div() {
    let amount_in: u64 = 113934176;
    let base_lot_size = i64::try_from(1000000).unwrap();
    let res = openbookv2::count_lots(i64::try_from(amount_in).unwrap(), base_lot_size);
    println!("res: {:?}", res);
    assert_eq!(res, Some(i64::try_from(amount_in).unwrap() / base_lot_size));
    assert_eq!(res, Some(113));
}

#[test]
fn phoenix_test_pack_instruction() {
    let side = 1u8; // 'ask' side
    let num_base_lots = 68378u64;
    let num_quote_lots = 0u64;
    let order_type = 2u8; // 'immediateOrCancel'
    let self_trade_behavior = 1u8; // 'cancelProvide'

    let data = phoenix::pack_instruction(
        order_type,
        side,
        num_base_lots,
        num_quote_lots,
        self_trade_behavior,
    );

    println!("data.len: {}", data.len());
    assert!(data.len() == phoenix::ARGS_LEN);
    println!("constructed_data {:?}", data);
    let mut expected = vec![0u8, 2, 1, 0];
    expected.extend_from_slice(&68378u64.to_le_bytes());
    expected.extend_from_slice(&[0u8; 8]);
    expected.extend_from_slice(&[0u8; 8]);
    expected.extend_from_slice(&[0u8; 8]);
    expected.push(1);
    expected.push(0);
    expected.extend_from_slice(&[0u8; 16]);
    expected.push(0);
    assert_eq!(data, expected);
}

#[test]
fn raydium_test_pack_swap_instruction() {
    let amount_in = 100u64;
    let data = raydium::pack_swap_instruction(amount_in, 1u64);

    println!("data.len: {}", data.len());
    assert!(data.len() == raydium::ARGS_LEN);
    let mut expected = vec![9u8];
    expected.extend_from_slice(&amount_in.to_le_bytes());
    expected.extend_from_slice(&1u64.to_le_bytes());
    assert_eq!(data, expected);
}

#[test]
fn test_pack_clmm_instruction() {
    let amount_in = 100u64;
    let is_base_input = true;
    let sqrt_price_limit_x64 = 0u128;
    let other_amount_threshold = 1u64;

    let data = raydium::pack_clmm_instruction(
        SWAP_SELECTOR,
        amount_in,
        other_amount_threshold,
        sqrt_price_limit_x64,
        is_base_input,
    );

    println!("data.len: {}", data.len());
    assert!(data.len() == raydium::ARGS_CLMM_LEN);
    let mut expected = SWAP_SELECTOR.to_vec();
    expected.extend_from_slice(&amount_in.to_le_bytes());
    expected.extend_from_slice(&other_amount_threshold.to_le_bytes());
    expected.extend_from_slice(&sqrt_price_limit_x64.to_le_bytes());
    expected.extend_from_slice(&(is_base_input as u8).to_le_bytes());
    assert_eq!(data, expected);
}

#[test]
fn test_pack_cpmm_instruction() {
    let amount_in = 100u64;
    let minimum_amount_out = 0u64;

    let data = raydium::pack_cpmm_instruction(amount_in, minimum_amount_out);

    println!("data.len: {}", data.len());
    assert!(data.len() == raydium::ARGS_CPMM_LEN);
    let mut expected = CPSWAP_SELECTOR.to_vec();
    expected.extend_from_slice(&amount_in.to_le_bytes());
    expected.extend_from_slice(&minimum_amount_out.to_le_bytes());
    assert_eq!(data, expected);
}

#[test]
fn spl_token_swap_test_pack_swap_instruction() {
    let amount_in = 100u64;
    let data = spl_token_swap::pack_swap_instruction(amount_in, 1u64);

    println!("data.len: {}", data.len());
    assert!(data.len() == spl_token_swap::ARGS_LEN);
}

#[test]
fn stable_swap_test_pack_swap_instruction() {
    let amount_in = 100u64;
    let data = stable_swap::pack_swap_instruction(amount_in, 1u64);

    println!("data.len: {}", data.len());
    assert!(data.len() == stable_swap::ARGS_LEN);
}

#[test]
fn whirlpool_test_pack_swap_instruction() {
    let amount_in = 100u64;
    let amount_specified_is_input = true;
    let other_amount_threshold = 1u64;
    let a_to_b = true;
    let sqrt_price_limit = 0u128;

    let data = whirlpool::pack_swap_instruction(
        amount_in,
        other_amount_threshold,
        sqrt_price_limit,
        amount_specified_is_input,
        a_to_b,
    );

    println!("data.len: {}", data.len());
    assert!(data.len() == whirlpool::ARGS_LEN);
}

#[test]
fn whirlpool_payloads_carry_the_price_limits() {
    let sell_first = whirlpool::pack_swap_instruction(
        7,
        1,
        whirlpool::MIN_SQRT_PRICE,
        true,
        true,
    );
    let mut expected = SWAP_SELECTOR.to_vec();
    expected.extend_from_slice(&7u64.to_le_bytes());
    expected.extend_from_slice(&1u64.to_le_bytes());
    expected.extend_from_slice(&4295048016i128.to_le_bytes());
    expected.push(1);
    expected.push(1);
    assert_eq!(sell_first, expected);

    let sell_second = whirlpool::pack_swap_v2_instruction(
        7,
        1,
        whirlpool::MAX_SQRT_PRICE,
        true,
        false,
    );
    let mut expected = SWAP_V2_SELECTOR.to_vec();
    expected.extend_from_slice(&7u64.to_le_bytes());
    expected.extend_from_slice(&1u64.to_le_bytes());
    expected.extend_from_slice(&79226673515401279992447579055i128.to_le_bytes());
    expected.push(1);
    expected.push(0);
    expected.push(0);
    assert_eq!(sell_second, expected);
    assert_eq!(sell_second.len(), whirlpool::ARGS_V2_LEN);
}

#[test]
fn order_book_payload_holds_negative_numbers_in_twos_complement() {
    let data = openbookv2::pack_instruction(openbookv2::Side::Ask, 1, -2, i64::MIN, 3, 50);
    let mut expected = vec![3u8, 44, 71, 3, 26, 199, 203, 85, 1];
    expected.extend_from_slice(&1i64.to_le_bytes());
    expected.extend_from_slice(&(-2i64).to_le_bytes());
    expected.extend_from_slice(&i64::MIN.to_le_bytes());
    expected.push(3);
    expected.push(50);
    assert_eq!(data, expected);
}

#[test]
fn lots_round_toward_zero() {
    assert_eq!(openbookv2::count_lots(7, 2), Some(3));
    assert_eq!(openbookv2::count_lots(7, -2), Some(-3));
    assert_eq!(openbookv2::count_lots(7, i64::MIN), Some(0));
    assert_eq!(openbookv2::count_lots(i64::MAX, -1), Some(-i64::MAX));
    assert_eq!(openbookv2::count_lots(7, 0), None);
    assert_eq!(openbookv2::count_lots(-7, 2), Some(-3));
    assert_eq!(openbookv2::count_lots(-7, -2), Some(3));
    assert_eq!(openbookv2::count_lots(i64::MIN, 1), Some(i64::MIN));
    assert_eq!(openbookv2::count_lots(i64::MIN, i64::MIN), Some(1));
    assert_eq!(openbookv2::count_lots(i64::MIN, -1), None);
    assert_eq!(openbookv2::count_lots(-7, 2), (-7i64).checked_div(2));
    assert_eq!(openbookv2::count_lots(i64::MIN, -1), i64::MIN.checked_div(-1));
}

#[test]
fn bonding_curve_payloads() {
    let buy = pumpfun::pack_buy_instruction(5, 6);
    let mut expected = vec![102u8, 6, 61, 18, 1, 218, 235, 234];
    expected.extend_from_slice(&5u64.to_le_bytes());
    expected.extend_from_slice(&6u64.to_le_bytes());
    assert_eq!(buy, expected);
    assert_eq!(buy.len(), pumpfun::ARGS_LEN);

    let sell = pumpfun::pack_sell_instruction(u64::MAX, 0);
    let mut expected = vec![51u8, 230, 133, 164, 1, 127, 131, 173];
    expected.extend_from_slice(&u64::MAX.to_le_bytes());
    expected.extend_from_slice(&0u64.to_le_bytes());
    assert_eq!(sell, expected);
}

#[test]
fn liquid_stake_pool_payloads() {
    let add = sanctum::pack_liquidity_instruction(3, 5, 0x01020304, 1000, 1);
    let mut expected = vec![3u8, 5, 4, 3, 2, 1];
    expected.extend_from_slice(&1000u64.to_le_bytes());
    expected.extend_from_slice(&1u64.to_le_bytes());
    assert_eq!(add, expected);
    assert_eq!(add.len(), sanctum::ADD_REMOVE_LIQ_ARGS_LEN);

    let swap = sanctum::pack_swap_exact_in_instruction(5, 1, 7, 1, 1, 250);
    let mut expected = vec![1u8, 5, 1];
    expected.extend_from_slice(&7u32.to_le_bytes());
    expected.extend_from_slice(&1u32.to_le_bytes());
    expected.extend_from_slice(&1u64.to_le_bytes());
    expected.extend_from_slice(&250u64.to_le_bytes());
    assert_eq!(swap, expected);
    assert_eq!(swap.len(), sanctum::SWAP_EXACT_IN_ARGS_LEN);
}

#[test]
fn sides_have_their_tags() {
    assert_eq!(aldrin::Side::Bid.into(), 0);
    assert_eq!(aldrin::Side::Ask.into(), 1);
    assert_eq!(aldrin::Side::try_from_primitive(1), Some(aldrin::Side::Ask));
    assert_eq!(aldrin::Side::try_from_primitive(2), None);
    assert_eq!(openbookv2::Side::try_from_primitive(0), Some(openbookv2::Side::Bid));
}
