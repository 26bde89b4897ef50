//! A two-asset constant-product liquidity pool: reserve bookkeeping,
//! proportional deposits and fee-bearing swaps settled through a callback.
//!
//! The pool never moves funds itself. Each operation decides, from the stored
//! reserves and the balances it is shown, which transfers are owed, and the
//! embedding contract carries them out.

pub mod types;
pub mod math;
pub mod storage;
pub mod contract;
pub mod interface;
