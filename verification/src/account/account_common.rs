//! Properties shared by all account types, stored in the account header.

use vstd::prelude::*;

use crate::account::AbiAccountHeader;
use crate::pubkey::Pubkey;

verus! {

/// Read access to the account properties stored in the header.
pub trait AccountCommon {
    /// The header of the account.
    spec fn common_header(&self) -> AbiAccountHeader;

    fn is_signer(&self) -> (r: bool)
        ensures
            r == (self.common_header().is_signer != 0),
    ;

    fn is_writable(&self) -> (r: bool)
        ensures
            r == (self.common_header().is_writable != 0),
    ;

    fn is_executable(&self) -> (r: bool)
        ensures
            r == (self.common_header().is_executable != 0),
    ;

    fn resize_delta(&self) -> (r: i32)
        ensures
            r == self.common_header().spec_resize_delta(),
    ;

    fn address(&self) -> (r: &Pubkey)
        ensures
            *r == self.common_header().address,
    ;

    fn owner(&self) -> (r: &Pubkey)
        ensures
            *r == self.common_header().owner,
    ;

    fn lamports(&self) -> (r: u64)
        ensures
            r == self.common_header().spec_lamports(),
    ;

    fn data_len(&self) -> (r: u64)
        ensures
            r == self.common_header().spec_data_len(),
    ;
}

/// Write access to the account properties the runtime reads back when the program terminates.
/// The changes reach the program input once the account block is stored back in the account
/// lists and [`crate::entrypoint_v2::write_back::write_back`] lays the lists out in the input.
pub trait AccountCommonMut: AccountCommon {
    fn set_owner(&mut self, value: &Pubkey)
        ensures
            final(self).common_header() == (AbiAccountHeader {
                owner: *value,
                ..old(self).common_header()
            }),
    ;

    fn set_lamport(&mut self, value: u64)
        ensures
            final(self).common_header() == (AbiAccountHeader {
                lamports: final(self).common_header().lamports,
                ..old(self).common_header()
            }),
            final(self).common_header().spec_lamports() == value,
    ;
}

} // verus!
