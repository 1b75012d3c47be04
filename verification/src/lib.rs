//! Time-weighted, fixed-term reward-distribution engine.
//!
//! An issuer locks a reward reserve in escrow; participants lock a second
//! asset for a bounded period; at maturity each participant receives a share
//! of the reserve proportional to their locked-amount x time weight. This
//! crate holds the deterministic accounting and state-transition core: the
//! discrete-day accumulator, the byte-exact record codec, the instruction
//! decoder, account validation, and the seven lifecycle operation handlers,
//! each a pure function from records, account views, the clock reading and
//! the operation payload to new records and a transfer action.

pub mod accumulator;
pub mod addr;
pub mod error;
pub mod instruction;
pub mod laws;
pub mod pda;
pub mod processor;
pub mod state;
pub mod token;
