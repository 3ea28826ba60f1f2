//! Lamport transfer.

use vstd::prelude::*;

use crate::account::{AccountCommon, AnyAccount};
use crate::instruction::AccountMeta;
use crate::program_error::{ProgramError, ProgramResult};
use crate::pubkey::Pubkey;

use super::{CanInvoke, ID};

verus! {

/// Transfer lamports.
///
/// Accounts:
///   0. `[WRITE, SIGNER]` Funding account
///   1. `[WRITE]` Recipient account
pub struct Transfer<'a> {
    /// Funding account.
    pub from: &'a AnyAccount,
    /// Recipient account.
    pub to: &'a AnyAccount,
    /// Amount of lamports to transfer.
    pub lamports: u64,
}

/// The instruction data of a transfer: the instruction discriminator `2` as a little-endian `u32`,
/// followed by the amount as a little-endian `u64`.
pub open spec fn transfer_instruction_data(lamports: u64) -> Seq<u8> {
    seq![2u8, 0u8, 0u8, 0u8] + vstd::bytes::spec_u64_to_le_bytes(lamports)
}

/// Builds the instruction data of a transfer.
pub fn instruction_data(lamports: u64) -> (r: [u8; 12])
    ensures
        r@ == transfer_instruction_data(lamports),
{
    let mut instruction_data = [0u8; 12];
    instruction_data[0] = 2;
    let amount = crate::bytes::u64_to_le_array(lamports);
    let mut i: usize = 0;
    while i < 8
        invariant
            0 <= i <= 8,
            instruction_data@.len() == 12,
            amount@ == vstd::bytes::spec_u64_to_le_bytes(lamports),
            instruction_data@[0] == 2,
            instruction_data@[1] == 0,
            instruction_data@[2] == 0,
            instruction_data@[3] == 0,
            forall|j: int| 0 <= j < i ==> instruction_data@[4 + j] == amount@[j],
        decreases 8 - i,
    {
        instruction_data[4 + i] = amount[i];
        i = i + 1;
    }
    proof {
        vstd::bytes::lemma_auto_spec_u64_to_from_le_bytes();
    }
    assert(instruction_data@ =~= transfer_instruction_data(lamports));
    instruction_data
}

/// The transfer instruction data is 12 bytes: the system instruction number of the transfer,
/// `2`, in 4 bytes that do not depend on the amount, then the amount, which reads back from the
/// last 8 bytes; distinct amounts give distinct data.
pub proof fn lemma_transfer_instruction_data(lamports: u64, other: u64)
    ensures
        transfer_instruction_data(lamports).len() == 12,
        transfer_instruction_data(lamports)[0] == 2,
        transfer_instruction_data(lamports).subrange(0, 4) == transfer_instruction_data(
            other,
        ).subrange(0, 4),
        vstd::bytes::spec_u64_from_le_bytes(transfer_instruction_data(lamports).subrange(4, 12))
            == lamports,
        lamports != other ==> transfer_instruction_data(lamports) != transfer_instruction_data(
            other,
        ),
{
    vstd::bytes::lemma_auto_spec_u64_to_from_le_bytes();
    vstd::bytes::lemma_auto_spec_u32_to_from_le_bytes();
    let d = transfer_instruction_data(lamports);
    assert(d.subrange(4, 12) =~= vstd::bytes::spec_u64_to_le_bytes(lamports));
    assert(d.subrange(0, 4) =~= transfer_instruction_data(other).subrange(0, 4));
    if lamports != other {
        let e = transfer_instruction_data(other);
        assert(e.subrange(4, 12) =~= vstd::bytes::spec_u64_to_le_bytes(other));
        if d == e {
            assert(d.subrange(4, 12) == e.subrange(4, 12));
        }
    }
}

impl<'a> CanInvoke for Transfer<'a> {
    type Accounts = [&'a AnyAccount; 2];

    /// Hands the system program id, the funding and the recipient accounts, their metas and the
    /// transfer instruction data to `invoke`.
    fn invoke_via<F, S>(&self, invoke: F, slice_invoke: S) -> (r: ProgramResult) where
        F: FnOnce(&Pubkey, &[&'a AnyAccount; 2], &[AccountMeta], &[u8]) -> ProgramResult,
        S: FnOnce(&Pubkey, &[&Pubkey], &[AccountMeta], &[u8]) -> ProgramResult,
        ensures
            exists|
                program_id: &Pubkey,
                accounts: &[&'a AnyAccount; 2],
                account_metas: &[AccountMeta],
                data: &[u8],
            |
                {
                    &&& *program_id == ID
                    &&& accounts@ == seq![self.from, self.to]
                    &&& account_metas@ == seq![
                        AccountMeta { pubkey: &self.from@.header.address, is_writable: true, is_signer: true },
                        AccountMeta { pubkey: &self.to@.header.address, is_writable: true, is_signer: false },
                    ]
                    &&& data@ == transfer_instruction_data(self.lamports)
                    &&& call_ensures(invoke, (program_id, accounts, account_metas, data), r)
                },
    {
        let instruction_data = instruction_data(self.lamports);
        let accounts: [&'a AnyAccount; 2] = [self.from, self.to];
        let account_metas: [AccountMeta; 2] = [
            AccountMeta::writable_signer(self.from.address()),
            AccountMeta::writable(self.to.address()),
        ];
        let metas = account_metas.as_slice();
        let data = instruction_data.as_slice();
        assert(metas@ =~= seq![
            AccountMeta { pubkey: &self.from@.header.address, is_writable: true, is_signer: true },
            AccountMeta { pubkey: &self.to@.header.address, is_writable: true, is_signer: false },
        ]);
        assert(accounts@ =~= seq![self.from, self.to]);
        let r = invoke(&ID, &accounts, metas, data);
        assert(call_ensures(invoke, (&ID, &accounts, metas, data), r));
        r
    }
}

} // verus!
