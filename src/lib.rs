//! A single-node chain runtime: a ledger of balances, a clock with one nonce
//! per account, and a block executor that runs the calls of a block in order.

pub mod account_map;
pub mod balances;
pub mod runtime;
pub mod support;
pub mod system;
pub mod types;
