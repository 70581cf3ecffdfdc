//! Instruction dispatch and account validation for the privacy devkit
//! on-chain program.
//!
//! An incoming instruction names a handler and supplies a list of account
//! references. Before a handler runs, the supplied accounts are checked
//! against the handler's declared schema of account slots; only a fully
//! validated account context ever reaches the handler.
pub mod accounts;
pub mod address;
pub mod laws;
pub mod program;
