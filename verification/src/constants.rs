//! The router's limits, selectors and the addresses it knows.

use vstd::prelude::*;

verus! {

/// Seed of the program-derived authority.
pub const SEED_SA: [u8; 6] = [111, 107, 120, 95, 115, 97];

/// Bump of the program-derived authority.
pub const BUMP_SA: u8 = 251;

/// Highest commission rate, in basis points.
pub const COMMISSION_RATE_LIMIT: u16 = 300;

/// What a commission rate is a fraction of.
pub const COMMISSION_DENOMINATOR: u64 = 10000;

/// Number of hops a split bucket may chain.
pub const MAX_HOPS: usize = 3;

/// What the weights of the forks of one hop add up to.
pub const TOTAL_WEIGHT: u8 = 100;

pub const SWAP_SELECTOR: [u8; 8] = [248, 198, 158, 145, 225, 117, 135, 200];

pub const CPSWAP_SELECTOR: [u8; 8] = [143, 190, 90, 218, 196, 30, 51, 222];

pub const SWAP_V2_SELECTOR: [u8; 8] = [43, 4, 237, 11, 26, 201, 30, 98];

pub const PLACE_TAKE_ORDER_SELECTOR: [u8; 8] = [3, 44, 71, 3, 26, 199, 203, 85];

pub const BRIDGE_TO_LOG_SELECTOR: [u8; 8] = [212, 189, 176, 218, 196, 135, 64, 122];

pub const PUMPFUN_BUY_SELECTOR: [u8; 8] = [102, 6, 61, 18, 1, 218, 235, 234];

pub const PUMPFUN_SELL_SELECTOR: [u8; 8] = [51, 230, 133, 164, 1, 127, 131, 173];

/// The address that stands for "no account".
pub const ZERO_ADDRESS: [u8; 32] = [
    0, 0, 0, 0, 0, 0, 0, 0, 0, 0, 0, 0, 0, 0, 0, 0,
    0, 0, 0, 0, 0, 0, 0, 0, 0, 0, 0, 0, 0, 0, 0, 0,
];

/// The program-derived authority under which delegated hops run.
///
/// `HV1KXxWFaSeriyFvXyx48FqG9BoFbfinB8njCJonqP7K`
pub const AUTHORITY_PDA: [u8; 32] = [
    244, 231, 157, 98, 207, 105, 184, 124, 23, 212, 197, 191, 32, 118, 192, 120,
    36, 42, 55, 37, 188, 253, 111, 161, 111, 107, 218, 150, 76, 223, 206, 86,
];

/// The bridge program that takes the relay call.
///
/// `okxBd18urPbBi2vsExxUDArzQNcju2DugV9Mt46BxYE`
pub const OKX_BRIDGE_PROGRAM: [u8; 32] = [
    11, 250, 105, 203, 124, 185, 71, 212, 173, 83, 110, 88, 209, 13, 241, 176,
    254, 98, 1, 170, 227, 171, 160, 82, 88, 223, 133, 187, 244, 250, 110, 79,
];

/// The token program.
///
/// `TokenkegQfeZyiNwAJbNbGKPFXCWuBvf9Ss623VQ5DA`
pub const TOKEN_PROGRAM: [u8; 32] = [
    6, 221, 246, 225, 215, 101, 161, 147, 217, 203, 225, 70, 206, 235, 121, 172,
    28, 180, 133, 237, 95, 91, 55, 145, 58, 140, 245, 133, 126, 255, 0, 169,
];

/// The mint of the wrapped native asset.
///
/// `So11111111111111111111111111111111111111112`
pub const WSOL_PROGRAM: [u8; 32] = [
    6, 155, 136, 87, 254, 171, 129, 132, 251, 104, 127, 99, 70, 24, 192, 53,
    218, 196, 57, 220, 26, 235, 59, 85, 152, 160, 240, 0, 0, 0, 0, 1,
];

/// Raydium's constant-product pools.
///
/// `675kPX9MHTjS2zt1qfr1NYHuzeLXfQM9H24wFSUt1Mp8`
pub const RAYDIUM_SWAP_PROGRAM: [u8; 32] = [
    75, 217, 73, 196, 54, 2, 195, 63, 32, 119, 144, 237, 22, 163, 82, 76,
    161, 185, 151, 92, 241, 33, 162, 169, 12, 255, 236, 125, 248, 182, 138, 205,
];

/// Raydium's stable pools.
///
/// `5quBtoiQqxF9Jv6KYKctB59NT3gtJD2Y65kdnB1Uev3h`
pub const RAYDIUM_STABLE_PROGRAM: [u8; 32] = [
    71, 245, 162, 175, 123, 37, 210, 187, 148, 173, 92, 73, 88, 70, 95, 82,
    15, 144, 44, 208, 49, 196, 224, 221, 6, 46, 119, 252, 227, 251, 34, 136,
];

/// Raydium's concentrated-liquidity pools.
///
/// `CAMMCzo5YL8w4VFF8KVHrK22GGUsp5VTaW7grrKgrWqK`
pub const RAYDIUM_CLMM_PROGRAM: [u8; 32] = [
    165, 213, 202, 158, 4, 207, 93, 181, 144, 183, 20, 186, 47, 227, 44, 177,
    89, 19, 63, 193, 193, 146, 183, 34, 87, 253, 7, 211, 156, 176, 64, 30,
];

/// Raydium's constant-product pools without an order book.
///
/// `CPMMoo8L3F4NbTegBCKVNunggL7H1ZpdTHKxQB5qKP1C`
pub const RAYDIUM_CPMM_PROGRAM: [u8; 32] = [
    169, 42, 90, 139, 79, 41, 89, 82, 132, 37, 80, 170, 147, 253, 91, 149,
    181, 172, 230, 168, 235, 146, 12, 147, 148, 46, 67, 105, 12, 32, 236, 115,
];

/// Aldrin's first exchange.
///
/// `AMM55ShdkoGRB5jVYPjWziwk8m5MpwyDgsMWHaMSQWH6`
pub const ALDRIN_V1_PROGRAM: [u8; 32] = [
    138, 239, 125, 247, 227, 166, 116, 164, 62, 209, 129, 86, 34, 14, 3, 6,
    250, 71, 135, 139, 147, 32, 126, 36, 149, 229, 158, 237, 187, 218, 76, 161,
];

/// Aldrin's second exchange.
///
/// `CURVGoZn8zycx6FXwwevgBTB2gVvdbGTEpvMJDbgs2t4`
pub const ALDRIN_V2_PROGRAM: [u8; 32] = [
    170, 118, 237, 20, 59, 86, 98, 94, 215, 88, 182, 138, 197, 29, 0, 3,
    204, 94, 135, 199, 136, 114, 230, 64, 222, 236, 64, 136, 2, 187, 8, 181,
];

/// Orca's whirlpools.
///
/// `whirLbMiicVdio4qvUfM5KAg6Ct8VwpYzGff3uctyCc`
pub const WHIRLPOOL_PROGRAM: [u8; 32] = [
    14, 3, 104, 95, 142, 144, 144, 83, 228, 88, 18, 28, 102, 245, 167, 106,
    237, 199, 112, 106, 161, 28, 130, 248, 170, 149, 42, 143, 43, 120, 121, 169,
];

/// Meteora's dynamic pools.
///
/// `Eo7WjKq67rjJQSZxS6z3YkapzY3eMj6Xy8X5EQVn5UaB`
pub const METEORA_DYNAMICPOOL_PROGRAM: [u8; 32] = [
    204, 248, 2, 212, 204, 204, 132, 215, 251, 33, 181, 247, 59, 73, 216, 26,
    22, 197, 180, 200, 142, 227, 35, 148, 225, 201, 29, 53, 136, 204, 64, 128,
];

/// Meteora's liquidity-bin pools.
///
/// `LBUZKhRxPF3XUpBCjp4YzTKgLccjZhTSDM9YuVaPwxo`
pub const METEORA_DLMM_PROGRAM: [u8; 32] = [
    4, 233, 225, 47, 188, 132, 232, 38, 201, 50, 204, 233, 226, 100, 12, 206,
    21, 89, 12, 28, 98, 115, 176, 146, 87, 8, 186, 59, 133, 32, 176, 188,
];

/// Lifinity's first pools.
///
/// `EewxydAPCCVuNEyrVN68PuSYdQ7wKn27V9Gjeoi8dy3S`
pub const LIFINITY_V1POOL_PROGRAM: [u8; 32] = [
    202, 224, 145, 184, 172, 192, 232, 65, 49, 108, 223, 230, 138, 103, 104, 149,
    161, 192, 205, 87, 117, 171, 35, 254, 136, 10, 53, 254, 169, 65, 52, 29,
];

/// Lifinity's second pools.
///
/// `2wT8Yq49kHgDzXuPxZSaeLaH1qbmGXtEyPy64bL7aD3c`
pub const LIFINITY_V2POOL_PROGRAM: [u8; 32] = [
    28, 206, 152, 152, 53, 109, 235, 63, 44, 52, 141, 202, 162, 64, 79, 85,
    142, 144, 236, 53, 202, 227, 57, 218, 198, 85, 4, 45, 100, 3, 87, 175,
];

/// FluxBeam's pools.
///
/// `FLUXubRmkEi2q6K3Y9kBPg9248ggaZVsoSFhtJHSrm1X`
pub const FLUX_BEAM_PROGRAM: [u8; 32] = [
    213, 0, 200, 171, 63, 250, 208, 168, 107, 171, 95, 83, 101, 49, 198, 221,
    94, 98, 176, 98, 109, 51, 205, 237, 223, 130, 234, 215, 238, 197, 14, 70,
];

/// The OpenBook order book.
///
/// `opnb2LAfJYbRMAHHvqjCwQxanZn7ReEHp1k81EohpZb`
pub const OPENBOOKV2_PROGRAM: [u8; 32] = [
    11, 254, 191, 189, 251, 171, 250, 208, 180, 101, 113, 191, 149, 140, 30, 184,
    36, 120, 123, 176, 153, 75, 177, 132, 107, 41, 120, 7, 30, 23, 153, 190,
];

/// The Phoenix order book.
///
/// `PhoeNiXZ8ByJGLkxNfZRnkUfjvmuYqLR89jjFHGqdXY`
pub const PHOENIX_PROGRAM: [u8; 32] = [
    5, 208, 234, 79, 51, 115, 112, 19, 165, 99, 224, 147, 72, 237, 182, 244,
    89, 61, 145, 252, 118, 65, 249, 36, 124, 36, 65, 168, 66, 161, 187, 235,
];

/// Obric's pools.
///
/// `obriQD1zbpyLz95G5n7nJe6a4DPjpFwa5XYPoNm113y`
pub const OBRIC_V2_PROGRAM: [u8; 32] = [
    11, 240, 33, 91, 170, 159, 148, 24, 247, 111, 15, 60, 221, 210, 13, 72,
    178, 63, 199, 181, 10, 107, 134, 153, 153, 75, 211, 55, 106, 94, 15, 12,
];

/// Sanctum's liquid-stake pool.
///
/// `5ocnV1qiCgaQR8Jb8xWnVbApfaygJ8tNoZfgPwsgx9kx`
pub const SANCTUM_PROGRAM: [u8; 32] = [
    71, 95, 237, 29, 192, 255, 243, 155, 191, 35, 123, 25, 170, 151, 71, 251,
    86, 212, 176, 221, 242, 51, 162, 19, 67, 201, 66, 214, 78, 24, 131, 221,
];

/// The pump.fun bonding curves.
///
/// `6EF8rrecthR5Dkzon8Nwu78hRvfCKubJ14M5uBEwF6P`
pub const PUMPFUN_PROGRAM: [u8; 32] = [
    1, 86, 224, 246, 147, 102, 90, 207, 68, 219, 21, 104, 191, 23, 91, 170,
    81, 137, 203, 151, 245, 210, 255, 59, 101, 93, 43, 182, 253, 109, 24, 176,
];

/// The router itself.
///
/// `6m2CDdhRgxpH4WjvdzxAYbGxwdGUz5MziiL5jek2kBma`
pub const PROGRAM_ID: [u8; 32] = [
    85, 145, 86, 241, 162, 92, 109, 19, 79, 42, 247, 230, 10, 154, 13, 52,
    126, 199, 145, 86, 99, 100, 98, 213, 209, 173, 38, 241, 53, 52, 143, 105,
];

/// The token program with extensions.
///
/// `TokenzQdBNbLqP5VEhdkAS6EPFLC1PHnBqCXEpPxuEb`
pub const TOKEN_2022_PROGRAM: [u8; 32] = [
    6, 221, 246, 225, 238, 117, 143, 222, 24, 66, 93, 188, 228, 108, 205, 218,
    182, 26, 252, 77, 131, 185, 13, 39, 254, 189, 249, 40, 216, 161, 139, 252,
];

/// The associated-token-account program.
///
/// `ATokenGPvbdGVxr1b2hvZbsiqW5xWH25efTNsLJA8knL`
pub const ASSOCIATED_TOKEN_PROGRAM: [u8; 32] = [
    140, 151, 37, 143, 78, 36, 137, 241, 187, 61, 16, 41, 20, 142, 13, 131,
    11, 90, 19, 153, 218, 255, 16, 132, 4, 142, 123, 216, 219, 233, 248, 89,
];

/// The system program.
///
/// `11111111111111111111111111111111`
pub const SYSTEM_PROGRAM: [u8; 32] = [
    0, 0, 0, 0, 0, 0, 0, 0, 0, 0, 0, 0, 0, 0, 0, 0,
    0, 0, 0, 0, 0, 0, 0, 0, 0, 0, 0, 0, 0, 0, 0, 0,
];

} // verus!
