//! A swap router: it splits an input amount over venues and multi-step paths, prepares each
//! venue's call, and holds the realised output against the caller's minimum.

pub mod account;
pub mod bytes;
pub mod constants;
pub mod error;
pub mod adapters;
pub mod instructions;
pub mod utils;
