//! One module per venue family: each reads its slice of the flat account list and prepares
//! the venue's call.

pub mod common;
pub mod fluxbeam;
pub mod lifinity;
pub mod meteora;
pub mod raydium;
pub mod spl_token_swap;
pub mod stable_swap;
pub mod aldrin;
pub mod obric_v2;
pub mod whirlpool;
pub mod openbookv2;
pub mod phoenix;
pub mod pumpfun;
pub mod sanctum;
