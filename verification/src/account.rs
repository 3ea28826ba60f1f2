//! Account types.
//!
//! While fundamentally all accounts are identical, a program interprets the accounts it receives in
//! several distinct ways, and each way has a type of its own:
//!   * [`NewAccount`] - an account that is expected to be empty for this instruction invocation; it
//!     needs to be initialized before it can be accessed.
//!   * [`OwnAccount`] - an account that needs an ownership check before its data can be accessed.
//!   * [`SysvarAccount`] - a system variable account, recognized by its address.
//!   * [`AnyAccount`] - an account whose data is not going to be accessed.
//!   * [`Account`] - an account that has passed the initial verification and is ready to be used by
//!     the rest of the program logic.
//!
//! An account is held either for shared access (the plain type) or for exclusive access
//! ([`Exclusive`], the counterpart of a pinned mutable reference).  The parsers in
//! [`crate::entrypoint_v2`] only hand out exclusive access to accounts that are not referenced a
//! second time in the program input.

pub mod abi_account_header;
pub mod account_common;
pub mod account_content;
pub mod any_account;
pub mod initializable;
pub mod new_account;
pub mod own_account;
pub mod sysvar_account;

use core::marker::PhantomData;

use vstd::prelude::*;

use crate::pubkey::Pubkey;

pub use abi_account_header::AbiAccountHeader;
pub use account_common::{AccountCommon, AccountCommonMut};
pub use account_content::AccountContent;
pub use any_account::{AnyAccount, AnyAccountMut};
pub use initializable::Initializable;
pub use new_account::{NewAccount, NewAccountMut};
pub use own_account::{OwnAccount, OwnAccountMut};
pub use sysvar_account::{SysvarAccount, SysvarAccountContent, SysvarAccountMut};

verus! {

/// What an account holds: its header and its data bytes.
pub ghost struct AccountState {
    pub header: AbiAccountHeader,
    pub data: Seq<u8>,
}

/// An account block as the runtime provides it: the header, followed by exactly as many data bytes
/// as the header's data length says.
#[derive(Debug)]
pub struct AccountRegion {
    pub header: AbiAccountHeader,
    pub data: Vec<u8>,
}

impl View for AccountRegion {
    type V = AccountState;

    open spec fn view(&self) -> AccountState {
        AccountState { header: self.header, data: self.data@ }
    }
}

impl AccountRegion {
    /// The data length recorded in the header matches the number of data bytes.
    pub open spec fn wf(&self) -> bool {
        self.header.spec_data_len() == self.data@.len()
    }

    /// A copy of this account block.
    pub fn duplicate(&self) -> (r: AccountRegion)
        ensures
            r@ == self@,
    {
        AccountRegion { header: self.header, data: vstd::slice::slice_to_vec(self.data.as_slice()) }
    }

    /// The account data bytes.
    pub fn data_slice(&self) -> (r: &[u8])
        ensures
            r@ == self.data@,
    {
        self.data.as_slice()
    }
}

/// An account held for exclusive access.  Accounts that the program input references more than
/// once are never handed out this way.
#[derive(Debug)]
pub struct Exclusive<A> {
    account: A,
}

impl<A> Exclusive<A> {
    /// The account held.
    pub closed spec fn inner(&self) -> A {
        self.account
    }

    pub(crate) fn new(account: A) -> (r: Self)
        ensures
            r.inner() == account,
    {
        Exclusive { account }
    }

    /// Shared access to the account.
    pub fn get(&self) -> (r: &A)
        ensures
            *r == self.inner(),
    {
        &self.account
    }

    /// Exclusive access to the account.
    pub fn get_mut(&mut self) -> (r: &mut A)
        ensures
            *r == old(self).inner(),
            final(self).inner() == *final(r),
    {
        &mut self.account
    }

    /// Gives up the exclusive wrapper, returning the account.
    pub fn into_inner(self) -> (r: A)
        ensures
            r == self.inner(),
    {
        self.account
    }
}

/// An account that has passed the initial verification stage and is ready to be accessed by the
/// rest of the program logic.  Its data bytes hold a `T`, as described by [`AccountContent`].
#[derive(Debug)]
pub struct Account<T: AccountContent> {
    region: AccountRegion,
    _data: PhantomData<T>,
}

/// An [`Account`] held for exclusive access.
pub type AccountMut<T> = Exclusive<Account<T>>;

impl<T: AccountContent> View for Account<T> {
    type V = AccountState;

    closed spec fn view(&self) -> AccountState {
        self.region@
    }
}

impl<T: AccountContent> Account<T> {
    pub(crate) fn from_region(region: AccountRegion) -> (r: Self)
        ensures
            r@ == region@,
    {
        Account { region, _data: PhantomData }
    }

    /// The account header.
    pub fn header(&self) -> (r: &AbiAccountHeader)
        ensures
            *r == self@.header,
    {
        &self.region.header
    }

    /// Write access to the account header.  The data bytes are not changed.  A data length that
    /// no longer matches the data is refused by
    /// [`crate::entrypoint_v2::write_back::write_back`].
    pub fn header_mut(&mut self) -> (r: &mut AbiAccountHeader)
        ensures
            *r == old(self)@.header,
            final(self)@ == (AccountState { header: *final(r), data: old(self)@.data }),
    {
        &mut self.region.header
    }

    /// The account block, with the header and the data as the program left them.  Storing it
    /// back in the account lists lets [`crate::entrypoint_v2::write_back::write_back`] return the
    /// changes to the runtime.
    pub fn region(&self) -> (r: &AccountRegion)
        ensures
            r@ == self@,
    {
        &self.region
    }

    /// The account data bytes.
    pub fn data(&self) -> (r: &[u8])
        ensures
            r@ == self@.data,
    {
        self.region.data.as_slice()
    }

    /// Write access to the account data bytes.  The number of bytes can not be changed.
    pub fn data_mut(&mut self) -> (r: &mut [u8])
        ensures
            r@ == old(self)@.data,
            final(self)@ == (AccountState { header: old(self)@.header, data: final(r)@ }),
    {
        self.region.data.as_mut_slice()
    }

    /// The account data, as the typed view of `T`.
    pub fn content(&self) -> (r: T::AsContent<'_>)
        ensures
            r == T::spec_content(self@.data),
    {
        T::content(self.region.data.as_slice())
    }

    /// Write access to the account data, as the typed view of `T`.  The header is not changed.
    pub fn content_mut(&mut self) -> (r: T::AsContentMut<'_>)
        ensures
            r == T::spec_content_mut(old(self)@.data),
            final(self)@.header == old(self)@.header,
    {
        T::content_mut(self.region.data.as_mut_slice())
    }
}

impl<T: AccountContent> AccountCommon for Account<T> {
    open spec fn common_header(&self) -> AbiAccountHeader {
        self@.header
    }

    #[inline(always)]
    fn is_signer(&self) -> bool {
        self.region.header.is_signer != 0
    }

    #[inline(always)]
    fn is_writable(&self) -> bool {
        self.region.header.is_writable != 0
    }

    #[inline(always)]
    fn is_executable(&self) -> bool {
        self.region.header.is_executable != 0
    }

    #[inline(always)]
    fn resize_delta(&self) -> i32 {
        self.region.header.resize_delta()
    }

    #[inline(always)]
    fn address(&self) -> &Pubkey {
        &self.region.header.address
    }

    #[inline(always)]
    fn owner(&self) -> &Pubkey {
        &self.region.header.owner
    }

    #[inline(always)]
    fn lamports(&self) -> u64 {
        self.region.header.lamports()
    }

    #[inline(always)]
    fn data_len(&self) -> u64 {
        self.region.header.data_len()
    }
}

impl<T: AccountContent> AccountCommonMut for Account<T> {
    #[inline(always)]
    fn set_owner(&mut self, value: &Pubkey)
        ensures
            final(self)@.data == old(self)@.data,
    {
        self.region.header.owner = *value;
    }

    #[inline(always)]
    fn set_lamport(&mut self, value: u64)
        ensures
            final(self)@.data == old(self)@.data,
    {
        self.region.header.set_lamports(value);
    }
}

} // verus!
