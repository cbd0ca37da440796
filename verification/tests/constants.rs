//! The addresses the router knows, held against their text and against the crates that
//! define them.

use dex_solana::account::{AccountInfo, Interface, Mint, Program, ProgramKind, Pubkey, TokenAccount};
use dex_solana::constants::{
    ALDRIN_V1_PROGRAM, ALDRIN_V2_PROGRAM, ASSOCIATED_TOKEN_PROGRAM, AUTHORITY_PDA, BUMP_SA,
    FLUX_BEAM_PROGRAM, LIFINITY_V1POOL_PROGRAM, LIFINITY_V2POOL_PROGRAM, METEORA_DLMM_PROGRAM,
    METEORA_DYNAMICPOOL_PROGRAM, OBRIC_V2_PROGRAM, OKX_BRIDGE_PROGRAM, OPENBOOKV2_PROGRAM,
    PHOENIX_PROGRAM, PROGRAM_ID, PUMPFUN_PROGRAM, RAYDIUM_CLMM_PROGRAM, RAYDIUM_CPMM_PROGRAM,
    RAYDIUM_STABLE_PROGRAM, RAYDIUM_SWAP_PROGRAM, SANCTUM_PROGRAM, SEED_SA, SYSTEM_PROGRAM,
    TOKEN_2022_PROGRAM, TOKEN_PROGRAM, WHIRLPOOL_PROGRAM, WSOL_PROGRAM, ZERO_ADDRESS,
};
use dex_solana::error::Error;
use std::str::FromStr;

fn decoded(text: &str) -> [u8; 32] {
    anchor_lang::prelude::Pubkey::from_str(text).unwrap().to_bytes()
}

#[test]
fn addresses_are_what_their_text_says() {
    assert_eq!(AUTHORITY_PDA, decoded("HV1KXxWFaSeriyFvXyx48FqG9BoFbfinB8njCJonqP7K"));
    assert_eq!(OKX_BRIDGE_PROGRAM, decoded("okxBd18urPbBi2vsExxUDArzQNcju2DugV9Mt46BxYE"));
    assert_eq!(TOKEN_PROGRAM, decoded("TokenkegQfeZyiNwAJbNbGKPFXCWuBvf9Ss623VQ5DA"));
    assert_eq!(WSOL_PROGRAM, decoded("So11111111111111111111111111111111111111112"));
    assert_eq!(RAYDIUM_SWAP_PROGRAM, decoded("675kPX9MHTjS2zt1qfr1NYHuzeLXfQM9H24wFSUt1Mp8"));
    assert_eq!(RAYDIUM_STABLE_PROGRAM, decoded("5quBtoiQqxF9Jv6KYKctB59NT3gtJD2Y65kdnB1Uev3h"));
    assert_eq!(RAYDIUM_CLMM_PROGRAM, decoded("CAMMCzo5YL8w4VFF8KVHrK22GGUsp5VTaW7grrKgrWqK"));
    assert_eq!(RAYDIUM_CPMM_PROGRAM, decoded("CPMMoo8L3F4NbTegBCKVNunggL7H1ZpdTHKxQB5qKP1C"));
    assert_eq!(ALDRIN_V1_PROGRAM, decoded("AMM55ShdkoGRB5jVYPjWziwk8m5MpwyDgsMWHaMSQWH6"));
    assert_eq!(ALDRIN_V2_PROGRAM, decoded("CURVGoZn8zycx6FXwwevgBTB2gVvdbGTEpvMJDbgs2t4"));
    assert_eq!(WHIRLPOOL_PROGRAM, decoded("whirLbMiicVdio4qvUfM5KAg6Ct8VwpYzGff3uctyCc"));
    assert_eq!(
        METEORA_DYNAMICPOOL_PROGRAM,
        decoded("Eo7WjKq67rjJQSZxS6z3YkapzY3eMj6Xy8X5EQVn5UaB")
    );
    assert_eq!(METEORA_DLMM_PROGRAM, decoded("LBUZKhRxPF3XUpBCjp4YzTKgLccjZhTSDM9YuVaPwxo"));
    assert_eq!(LIFINITY_V1POOL_PROGRAM, decoded("EewxydAPCCVuNEyrVN68PuSYdQ7wKn27V9Gjeoi8dy3S"));
    assert_eq!(LIFINITY_V2POOL_PROGRAM, decoded("2wT8Yq49kHgDzXuPxZSaeLaH1qbmGXtEyPy64bL7aD3c"));
    assert_eq!(FLUX_BEAM_PROGRAM, decoded("FLUXubRmkEi2q6K3Y9kBPg9248ggaZVsoSFhtJHSrm1X"));
    assert_eq!(OPENBOOKV2_PROGRAM, decoded("opnb2LAfJYbRMAHHvqjCwQxanZn7ReEHp1k81EohpZb"));
    assert_eq!(PHOENIX_PROGRAM, decoded("PhoeNiXZ8ByJGLkxNfZRnkUfjvmuYqLR89jjFHGqdXY"));
    assert_eq!(OBRIC_V2_PROGRAM, decoded("obriQD1zbpyLz95G5n7nJe6a4DPjpFwa5XYPoNm113y"));
    assert_eq!(SANCTUM_PROGRAM, decoded("5ocnV1qiCgaQR8Jb8xWnVbApfaygJ8tNoZfgPwsgx9kx"));
    assert_eq!(PUMPFUN_PROGRAM, decoded("6EF8rrecthR5Dkzon8Nwu78hRvfCKubJ14M5uBEwF6P"));
    assert_eq!(PROGRAM_ID, decoded("6m2CDdhRgxpH4WjvdzxAYbGxwdGUz5MziiL5jek2kBma"));
    assert_eq!(ZERO_ADDRESS, [0u8; 32]);
}

#[test]
fn the_programs_of_the_platform_are_those_of_its_crates() {
    assert_eq!(TOKEN_PROGRAM, anchor_spl::token::ID.to_bytes());
    assert_eq!(TOKEN_2022_PROGRAM, anchor_spl::token_2022::ID.to_bytes());
    assert_eq!(ASSOCIATED_TOKEN_PROGRAM, anchor_spl::associated_token::ID.to_bytes());
    assert_eq!(SYSTEM_PROGRAM, anchor_lang::solana_program::system_program::ID.to_bytes());
    assert_eq!(ProgramKind::Token.address().to_bytes(), TOKEN_PROGRAM);
    assert_eq!(ProgramKind::Token2022.address().to_bytes(), TOKEN_2022_PROGRAM);
    assert_eq!(ProgramKind::System.address().to_bytes(), SYSTEM_PROGRAM);
    assert_eq!(ProgramKind::AssociatedToken.address().to_bytes(), ASSOCIATED_TOKEN_PROGRAM);
}

#[test]
fn the_authority_is_derived_from_its_seed_and_bump() {
    assert_eq!(SEED_SA, *b"okx_sa");
    let derived = anchor_lang::prelude::Pubkey::create_program_address(
        &[&SEED_SA, &[BUMP_SA]],
        &anchor_lang::prelude::Pubkey::new_from_array(PROGRAM_ID),
    );
    assert_eq!(derived.map(|k| k.to_bytes()).ok(), Some(AUTHORITY_PDA));
}

fn account(key: [u8; 32], owner: [u8; 32], data: Vec<u8>) -> AccountInfo {
    AccountInfo {
        key: Pubkey::new_from_array(key),
        lamports: 5,
        data,
        owner: Pubkey::new_from_array(owner),
        is_signer: false,
        is_writable: false,
        executable: false,
    }
}

#[test]
fn token_accounts_and_mints_are_decoded_by_the_token_programs_decoder() {
    // mint, owner, amount, no delegate, initialised, not native, nothing delegated, no
    // close authority
    let mut data = vec![0u8; 165];
    data[..32].copy_from_slice(&[11; 32]);
    data[32..64].copy_from_slice(&[12; 32]);
    data[64..72].copy_from_slice(&0x0102030405060708u64.to_le_bytes());
    data[108] = 1;
    let info = account([1; 32], TOKEN_PROGRAM, data.clone());
    let decoded = TokenAccount::try_from(&info).unwrap();
    assert_eq!(decoded.mint, Pubkey::new_from_array([11; 32]));
    assert_eq!(decoded.owner, Pubkey::new_from_array([12; 32]));
    assert_eq!(decoded.amount, 0x0102030405060708);
    assert_eq!(decoded.key(), Pubkey::new_from_array([1; 32]));

    // an account of the token program with extensions: the kind of account follows the
    // state, and an empty list of extensions
    let mut extended = data.clone();
    extended.push(2);
    extended.extend_from_slice(&[0u8; 4]);
    let info = account([1; 32], TOKEN_2022_PROGRAM, extended);
    assert_eq!(TokenAccount::try_from(&info).map(|t| t.amount), Ok(0x0102030405060708));

    // read again, the owner is not looked at
    let moved = account([1; 32], [77; 32], data.clone());
    assert_eq!(TokenAccount::try_from(&moved).err(), Some(Error::AccountOwnedByWrongProgram));
    assert_eq!(TokenAccount::reload(&moved).map(|t| t.amount), Ok(0x0102030405060708));
    assert!(matches!(TokenAccount::reload(&account([1; 32], TOKEN_PROGRAM, vec![1, 2, 3])), Err(Error::Program(_))));

    // a mint: no authority, supply, decimals, initialised, no freeze authority
    let mut data = vec![0u8; 82];
    data[36..44].copy_from_slice(&1000u64.to_le_bytes());
    data[44] = 9;
    data[45] = 1;
    let info = account([2; 32], TOKEN_PROGRAM, data.clone());
    let decoded = Mint::try_from(&info).unwrap();
    assert_eq!(decoded.decimals, 9);
    assert_eq!(decoded.key(), Pubkey::new_from_array([2; 32]));
    // a token account is no mint
    let wrong = account([2; 32], TOKEN_PROGRAM, vec![0u8; 165]);
    assert!(matches!(Mint::try_from(&wrong), Err(Error::Program(_))));
    let unowned = AccountInfo { lamports: 0, ..account([2; 32], SYSTEM_PROGRAM, data) };
    assert_eq!(Mint::try_from(&unowned).err(), Some(Error::AccountNotInitialized));
}

#[test]
fn programs_are_known_by_their_address_and_must_be_executable() {
    let mut info = account(TOKEN_2022_PROGRAM, [0; 32], Vec::new());
    assert_eq!(
        Program::try_from(&info, ProgramKind::Token2022).err(),
        Some(Error::InvalidProgramExecutable)
    );
    assert_eq!(Interface::try_from(&info).err(), Some(Error::InvalidProgramExecutable));
    info.executable = true;
    assert_eq!(
        Program::try_from(&info, ProgramKind::Token2022).map(|p| p.key()),
        Ok(Pubkey::new_from_array(TOKEN_2022_PROGRAM))
    );
    assert_eq!(Program::try_from(&info, ProgramKind::Token).err(), Some(Error::InvalidProgramId));
    assert!(Interface::try_from(&info).is_ok());
    info.key = Pubkey::new_from_array(SYSTEM_PROGRAM);
    assert_eq!(Interface::try_from(&info).err(), Some(Error::InvalidProgramId));
    assert!(Program::try_from(&info, ProgramKind::System).is_ok());
}
