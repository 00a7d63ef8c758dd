//! Classification of pending transactions addressed to exchange routers.

pub mod ascii;
pub mod classifier;
pub mod config;
pub mod error;
pub mod filter;
pub mod json;
pub mod monitor;
pub mod routers;
pub mod rpc;
pub mod selectors;
