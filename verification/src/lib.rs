//! Account model, program input parsing and entrypoint helpers for on-chain programs, with the
//! byte-level layouts and the account checks stated as contracts.

pub mod account;
pub mod bytes;
pub mod entrypoint_v2;
pub mod entrypoint_macro;
pub mod instruction;
pub mod program_error;
pub mod pubkey;
pub mod system;
pub mod test_utils;
