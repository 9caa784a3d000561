//! Calculation core of a two-asset constant-product market maker.
//!
//! Every function here is pure: it reads a snapshot of the pool (reserves,
//! share supply, fee rate) and user bounds, and returns the amounts to move or
//! an error. Executing transfers and burns is left to the caller.
pub mod error;
pub mod guard;
pub mod swap;
pub mod withdraw;
