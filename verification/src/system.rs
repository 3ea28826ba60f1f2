//! Instructions of the system program, invoked from other programs.

pub mod transfer;

pub use transfer::Transfer;

use vstd::prelude::*;

use crate::instruction::AccountMeta;
use crate::program_error::ProgramResult;
use crate::pubkey::Pubkey;

verus! {

/// The system program id: the address `11111111111111111111111111111111`, all zero bytes.
pub const ID: Pubkey = [
    0, 0, 0, 0, 0, 0, 0, 0, 0, 0, 0, 0, 0, 0, 0, 0, 0, 0, 0, 0, 0, 0, 0, 0, 0, 0, 0, 0, 0, 0, 0, 0,
];

/// Returns `true` if `id` is the system program id.
pub fn check_id(id: &Pubkey) -> (r: bool)
    ensures
        r == (id@ == ID@),
{
    crate::pubkey::pubkey_eq(id, &ID)
}

/// Returns the system program id.
pub fn id() -> (r: Pubkey)
    ensures
        r == ID,
{
    ID
}

/// A system program instruction that can be passed to a cross-program invocation.
pub trait CanInvoke {
    /// The accounts the instruction passes to the invocation.
    type Accounts;

    /// Builds the instruction and hands the program id, the accounts, the account metas and the
    /// instruction data to `invoke`, returning what it returns.  `slice_invoke` is an alternative
    /// for instructions that pass their accounts as a slice.
    fn invoke_via<F, S>(&self, invoke: F, slice_invoke: S) -> ProgramResult where
        F: FnOnce(&Pubkey, &Self::Accounts, &[AccountMeta], &[u8]) -> ProgramResult,
        S: FnOnce(&Pubkey, &[&Pubkey], &[AccountMeta], &[u8]) -> ProgramResult,

        requires
            forall|
                program_id: &Pubkey,
                accounts: &Self::Accounts,
                account_metas: &[AccountMeta],
                data: &[u8],
            | call_requires(invoke, (program_id, accounts, account_metas, data)),
            forall|
                program_id: &Pubkey,
                accounts: &[&Pubkey],
                account_metas: &[AccountMeta],
                data: &[u8],
            | call_requires(slice_invoke, (program_id, accounts, account_metas, data)),
    ;
}

} // verus!
