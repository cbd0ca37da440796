//! Transfers of the native asset and of tokens.

pub mod token;
