//! The routing engine and the calls that wrap it.

pub mod commission_from_swap;
pub mod commission_proxy_swap;
pub mod commission_swap;
pub mod common;
pub mod from_swap;
pub mod proxy_swap;
pub mod swap;
