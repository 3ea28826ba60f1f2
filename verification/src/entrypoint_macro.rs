//! The decisions of the `entrypoint!` macro, which turns a description of a program's
//! instructions into the program entrypoint.
//!
//! The macro input names the instruction type, the program id variable and, optionally, the
//! crate to take the account and parsing types from, followed by one case per instruction:
//!
//! ```text
//! instruction_type: Instruction,
//! program_id: program_id;
//!
//! Instruction::CreateUser => |metadata: &OwnAccount<Metadata>, new_user: NewAccountMut<User>; name: &str|,
//! ```
//!
//! Each case lists the accounts, then the instruction data arguments, and an optional body.  When
//! the body is left out, the case calls the function named after the last segment of the
//! instruction path, in snake case.
//!
//! This module holds what the macro checks and decides, over a description of the parsed input;
//! reading Rust syntax and writing the generated code are left to the macro crate.

pub mod analyze;
pub mod arguments;
pub mod classify;
pub mod codegen;
pub mod grammar;
