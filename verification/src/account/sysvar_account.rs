//! System variable accounts.
//!
//! Sysvar accounts have predefined addresses, and this is how one checks their "type".  They are
//! always initialized, as the runtime populates them.

use core::marker::PhantomData;

use vstd::prelude::*;

use crate::entrypoint_v2::program_account_parser::{
    parse_single_account_no_references, parse_single_account_with_references, region_at,
    resolve_no_references, resolve_with_references, ProgramAccountParser,
};
use crate::entrypoint_v2::CanReference;
use crate::program_error::ProgramError;
use crate::pubkey::{pubkey_eq, Pubkey};

use super::{AbiAccountHeader, AccountCommon, AccountRegion, AccountState, Exclusive};

verus! {

/// Implemented by types that describe the content of a sysvar account.
pub trait SysvarAccountContent {
    /// Address an account must have to be considered a sysvar account of the `Self` type.
    const EXPECTED_ADDRESS: Pubkey;

    /// The typed view of the sysvar data that [`SysvarAccountContent::content`] gives.
    type AsContent<'data>;

    /// The typed view of the sysvar data that [`SysvarAccountContent::content_mut`] gives.
    type AsContentMut<'data>;

    /// What [`SysvarAccountContent::content`] gives for the account bytes `data`.
    /// Implementations define it; the default leaves it unspecified.
    open spec fn spec_content<'data>(data: Seq<u8>) -> Self::AsContent<'data> {
        arbitrary()
    }

    /// What [`SysvarAccountContent::content_mut`] gives for the account bytes `data`.
    /// Implementations define it; the default leaves it unspecified.
    open spec fn spec_content_mut<'data>(data: Seq<u8>) -> Self::AsContentMut<'data> {
        arbitrary()
    }

    /// Gives the system variable held in the account bytes `data`.  The bytes are read, not
    /// reinterpreted in place.
    fn content<'data>(data: &'data [u8]) -> (r: Self::AsContent<'data>)
        ensures
            r == Self::spec_content::<'data>(data@),
    ;

    /// Gives write access to the system variable held in the account bytes `data`.
    fn content_mut<'data>(data: &'data mut [u8]) -> (r: Self::AsContentMut<'data>)
        ensures
            r == Self::spec_content_mut::<'data>(old(data)@),
    ;
}

/// A sysvar account whose address has been checked during parsing.
#[derive(Debug)]
pub struct SysvarAccount<T: SysvarAccountContent> {
    region: AccountRegion,
    _data: PhantomData<T>,
}

/// A [`SysvarAccount`] held for exclusive access.
pub type SysvarAccountMut<T> = Exclusive<SysvarAccount<T>>;

impl<T: SysvarAccountContent> View for SysvarAccount<T> {
    type V = AccountState;

    closed spec fn view(&self) -> AccountState {
        self.region@
    }
}

/// The check an account needs to pass to be treated as a `SysvarAccount<T>`: its address is the
/// expected address of `T`.
pub open spec fn sysvar_account_check<T: SysvarAccountContent>(region: AccountState) -> Result<
    (),
    ProgramError,
> {
    if region.header.address@ != T::EXPECTED_ADDRESS@ {
        Err(ProgramError::InvalidArgument)
    } else {
        Ok(())
    }
}

/// The check an account needs to pass to be held as an exclusive `SysvarAccount<T>`: it is
/// writable, and its address is the expected address of `T`.
pub open spec fn sysvar_account_mut_check<T: SysvarAccountContent>(region: AccountState) -> Result<
    (),
    ProgramError,
> {
    if region.header.is_writable == 0 {
        Err(ProgramError::Immutable)
    } else {
        sysvar_account_check::<T>(region)
    }
}

/// Every `SysvarAccount<T>` the parsers hand out has the expected address of `T`, and every
/// exclusive one is also writable: the checks pass exactly for such accounts, are `Immutable` for
/// a read-only account held exclusively, and `InvalidArgument` for any other address.
pub proof fn lemma_sysvar_account_checks<T: SysvarAccountContent>(region: AccountState)
    ensures
        sysvar_account_check::<T>(region) is Ok <==> region.header.address@ == T::EXPECTED_ADDRESS@,
        sysvar_account_mut_check::<T>(region) is Ok <==> (region.header.is_writable != 0
            && region.header.address@ == T::EXPECTED_ADDRESS@),
        region.header.is_writable == 0 ==> sysvar_account_mut_check::<T>(region) == Err::<
            (),
            ProgramError,
        >(ProgramError::Immutable),
        region.header.address@ != T::EXPECTED_ADDRESS@ ==> sysvar_account_check::<T>(region)
            == Err::<(), ProgramError>(ProgramError::InvalidArgument),
{
}

impl<T: SysvarAccountContent> SysvarAccount<T> {
    /// The account header.
    pub fn header(&self) -> (r: &AbiAccountHeader)
        ensures
            *r == self@.header,
    {
        &self.region.header
    }

    /// Write access to the account header.  The data bytes are not changed.  A data length that
    /// no longer matches the data is refused by
    /// [`crate::entrypoint_v2::write_back::write_back`].
    pub fn header_mut(&mut self) -> (r: &mut AbiAccountHeader)
        ensures
            *r == old(self)@.header,
            final(self)@ == (AccountState { header: *final(r), data: old(self)@.data }),
    {
        &mut self.region.header
    }

    /// The account block, with the header and the data as the program left them.  Storing it
    /// back in the account lists lets [`crate::entrypoint_v2::write_back::write_back`] return the
    /// changes to the runtime.
    pub fn region(&self) -> (r: &AccountRegion)
        ensures
            r@ == self@,
    {
        &self.region
    }

    /// The account data bytes, holding the system variable.
    pub fn data(&self) -> (r: &[u8])
        ensures
            r@ == self@.data,
    {
        self.region.data.as_slice()
    }

    /// The system variable, as the typed view of `T`.
    pub fn content(&self) -> (r: T::AsContent<'_>)
        ensures
            r == T::spec_content(self@.data),
    {
        T::content(self.region.data.as_slice())
    }

    /// Write access to the system variable, as the typed view of `T`.  The header is not changed.
    pub fn content_mut(&mut self) -> (r: T::AsContentMut<'_>)
        ensures
            r == T::spec_content_mut(old(self)@.data),
            final(self)@.header == old(self)@.header,
    {
        T::content_mut(self.region.data.as_mut_slice())
    }
}

/// Shared `SysvarAccount`s can only use the data of shared sysvar accounts of the same type.
impl<C: SysvarAccountContent> CanReference<SysvarAccount<C>> for SysvarAccount<C> {
    open spec fn spec_can_reference() -> i8 {
        1
    }

    fn can_reference() -> i8 {
        1
    }
}

/// Exclusive `SysvarAccount`s can not share data with any other account.
impl<FromC: SysvarAccountContent, To> CanReference<To> for Exclusive<SysvarAccount<FromC>> {
    open spec fn spec_can_reference() -> i8 {
        -2i8
    }

    fn can_reference() -> i8 {
        -2
    }
}

impl<T: SysvarAccountContent> AccountCommon for SysvarAccount<T> {
    open spec fn common_header(&self) -> AbiAccountHeader {
        self@.header
    }

    #[inline(always)]
    fn is_signer(&self) -> bool {
        self.region.header.is_signer != 0
    }

    #[inline(always)]
    fn is_writable(&self) -> bool {
        self.region.header.is_writable != 0
    }

    #[inline(always)]
    fn is_executable(&self) -> bool {
        self.region.header.is_executable != 0
    }

    #[inline(always)]
    fn resize_delta(&self) -> i32 {
        self.region.header.resize_delta()
    }

    #[inline(always)]
    fn address(&self) -> &Pubkey {
        &self.region.header.address
    }

    #[inline(always)]
    fn owner(&self) -> &Pubkey {
        &self.region.header.owner
    }

    #[inline(always)]
    fn lamports(&self) -> u64 {
        self.region.header.lamports()
    }

    #[inline(always)]
    fn data_len(&self) -> u64 {
        self.region.header.data_len()
    }
}

/// Constructs a `SysvarAccount<T>` for the full account entry at `account_idx`, checking its
/// address.
fn parse_account<T: SysvarAccountContent>(accounts: &[Option<AccountRegion>], account_idx: u8) -> (r:
    Result<SysvarAccount<T>, ProgramError>)
    requires
        (account_idx as int) < accounts@.len(),
        accounts@[account_idx as int] is Some,
    ensures
        match sysvar_account_check::<T>(region_at(accounts@, account_idx as int)@) {
            Ok(()) => r matches Ok(a) && a@ == region_at(accounts@, account_idx as int)@,
            Err(e) => r == Err::<SysvarAccount<T>, ProgramError>(e),
        },
{
    match &accounts[account_idx as usize] {
        Some(region) => {
            let expected = T::EXPECTED_ADDRESS;
            if !pubkey_eq(&region.header.address, &expected) {
                return Err(ProgramError::InvalidArgument);
            }
            Ok(SysvarAccount { region: region.duplicate(), _data: PhantomData })
        },
        None => Err(ProgramError::InvalidAccountData),
    }
}

/// Constructs an exclusive `SysvarAccount<T>` for the full account entry at `account_idx`,
/// checking that the account is writable and has the expected address.
fn parse_account_mut<T: SysvarAccountContent>(
    accounts: &[Option<AccountRegion>],
    account_idx: u8,
) -> (r: Result<Exclusive<SysvarAccount<T>>, ProgramError>)
    requires
        (account_idx as int) < accounts@.len(),
        accounts@[account_idx as int] is Some,
    ensures
        match sysvar_account_mut_check::<T>(region_at(accounts@, account_idx as int)@) {
            Ok(()) => r matches Ok(a) && a.inner()@ == region_at(accounts@, account_idx as int)@,
            Err(e) => r == Err::<Exclusive<SysvarAccount<T>>, ProgramError>(e),
        },
{
    match &accounts[account_idx as usize] {
        Some(region) => {
            if region.header.is_writable == 0 {
                return Err(ProgramError::Immutable);
            }
            let expected = T::EXPECTED_ADDRESS;
            if !pubkey_eq(&region.header.address, &expected) {
                return Err(ProgramError::InvalidArgument);
            }
            Ok(Exclusive::new(SysvarAccount { region: region.duplicate(), _data: PhantomData }))
        },
        None => Err(ProgramError::InvalidAccountData),
    }
}

/// Shared access, following duplicate references that `allowed_references_mask` permits.  Checks
/// that the account address matches [`SysvarAccountContent::EXPECTED_ADDRESS`].
impl<T: SysvarAccountContent> ProgramAccountParser for SysvarAccount<T> {
    fn parse(
        accounts: &[Option<AccountRegion>],
        account_references: &[u8],
        allowed_references_mask: u64,
        account_idx: u8,
    ) -> (r: Result<Self, ProgramError>)
        ensures
            match resolve_with_references(
                account_references@,
                allowed_references_mask,
                account_idx as int,
            ) {
                Ok(i) => match sysvar_account_check::<T>(region_at(accounts@, i as int)@) {
                    Ok(()) => r matches Ok(a) && a@ == region_at(accounts@, i as int)@,
                    Err(e) => r == Err::<Self, ProgramError>(e),
                },
                Err(e) => r == Err::<Self, ProgramError>(e),
            },
            r matches Ok(a) ==> a@.header.address@ == T::EXPECTED_ADDRESS@,
    {
        parse_single_account_with_references(
            accounts,
            account_references,
            allowed_references_mask,
            account_idx,
            (|accounts: &[Option<AccountRegion>], i: u8| -> (r: Result<
                SysvarAccount<T>,
                ProgramError,
            >)
                requires
                    (i as int) < accounts@.len(),
                    accounts@[i as int] is Some,
                ensures
                    match sysvar_account_check::<T>(region_at(accounts@, i as int)@) {
                        Ok(()) => r matches Ok(a) && a@ == region_at(accounts@, i as int)@,
                        Err(e) => r == Err::<SysvarAccount<T>, ProgramError>(e),
                    },
                { parse_account::<T>(accounts, i) }),
        )
    }
}

/// Exclusive access: the account must be writable, have the expected address, and must not be
/// referenced by another entry.
impl<T: SysvarAccountContent> ProgramAccountParser for Exclusive<SysvarAccount<T>> {
    fn parse(
        accounts: &[Option<AccountRegion>],
        account_references: &[u8],
        allowed_references_mask: u64,
        account_idx: u8,
    ) -> (r: Result<Self, ProgramError>)
        ensures
            match resolve_no_references(account_references@, account_idx as int) {
                Ok(i) => match sysvar_account_mut_check::<T>(region_at(accounts@, i as int)@) {
                    Ok(()) => r matches Ok(a) && a.inner()@ == region_at(accounts@, i as int)@,
                    Err(e) => r == Err::<Self, ProgramError>(e),
                },
                Err(e) => r == Err::<Self, ProgramError>(e),
            },
            r matches Ok(a) ==> a.inner()@.header.is_writable != 0 && a.inner()@.header.address@
                == T::EXPECTED_ADDRESS@,
    {
        parse_single_account_no_references(
            accounts,
            account_references,
            account_idx,
            (|accounts: &[Option<AccountRegion>], i: u8| -> (r: Result<
                Exclusive<SysvarAccount<T>>,
                ProgramError,
            >)
                requires
                    (i as int) < accounts@.len(),
                    accounts@[i as int] is Some,
                ensures
                    match sysvar_account_mut_check::<T>(region_at(accounts@, i as int)@) {
                        Ok(()) => r matches Ok(a) && a.inner()@ == region_at(accounts@, i as int)@,
                        Err(e) => r == Err::<Exclusive<SysvarAccount<T>>, ProgramError>(e),
                    },
                { parse_account_mut::<T>(accounts, i) }),
        )
    }
}

} // verus!
