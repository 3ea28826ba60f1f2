//! Cross-program invocation instructions.

use vstd::prelude::*;

use crate::pubkey::Pubkey;

verus! {

/// Describes a single account passed to a cross-program invocation.
#[derive(Debug, Clone, Copy)]
pub struct AccountMeta<'a> {
    /// Address of the account.
    pub pubkey: &'a Pubkey,
    /// Indicates whether the account is writable.
    pub is_writable: bool,
    /// Indicates whether the account is a signer.
    pub is_signer: bool,
}

impl<'a> AccountMeta<'a> {
    /// A writable account that signs the instruction.
    pub fn writable_signer(pubkey: &'a Pubkey) -> (r: Self)
        ensures
            r == (AccountMeta { pubkey, is_writable: true, is_signer: true }),
    {
        AccountMeta { pubkey, is_writable: true, is_signer: true }
    }

    /// A writable account that does not sign the instruction.
    pub fn writable(pubkey: &'a Pubkey) -> (r: Self)
        ensures
            r == (AccountMeta { pubkey, is_writable: true, is_signer: false }),
    {
        AccountMeta { pubkey, is_writable: true, is_signer: false }
    }
}

} // verus!
