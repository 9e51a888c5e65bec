//! Keeps a fleet of secret-storage nodes unsealed without operator action.
//!
//! Each configured node is watched by one worker. On every poll tick the
//! worker checks the node's operational state; when the node reports itself
//! sealed, the worker submits previously escrowed key shares, in the
//! provider's order, until the node unseals or the attempt is provably
//! unrecoverable. The state machine that drives one such attempt, the
//! per-tick decision, and the validation of the runtime configuration live
//! here; network clients, timers and signal handling sit outside the library
//! and only hand plain values in.

pub mod attempt;
pub mod conf;
pub mod error;
pub mod worker;
