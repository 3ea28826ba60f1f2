//! Accounts that need an ownership check before their data can be accessed.

use core::marker::PhantomData;

use vstd::prelude::*;

use crate::entrypoint_v2::program_account_parser::{
    parse_single_account_no_references, parse_single_account_with_references, region_at,
    resolve_no_references, resolve_with_references, ProgramAccountParser,
};
use crate::entrypoint_v2::CanReference;
use crate::program_error::ProgramError;
use crate::pubkey::{pubkey_eq, Pubkey};

use super::{
    AbiAccountHeader, Account, AccountCommon, AccountContent, AccountRegion, AccountState,
    AnyAccount, Exclusive,
};

verus! {

/// An account that needs to be initialized and needs an ownership check before its content can
/// be accessed, via a conversion into an [`Account<T>`].
///
/// The parsers only construct an `OwnAccount<T>` for accounts whose data `T` reports as
/// initialized.
#[derive(Debug)]
pub struct OwnAccount<T: AccountContent> {
    account: Account<T>,
}

/// An [`OwnAccount`] held for exclusive access.
pub type OwnAccountMut<T> = Exclusive<OwnAccount<T>>;

impl<T: AccountContent> View for OwnAccount<T> {
    type V = AccountState;

    closed spec fn view(&self) -> AccountState {
        self.account.region@
    }
}

/// The check an account needs to pass to be treated as an `OwnAccount<T>`: `T` reports its data
/// as initialized.
pub open spec fn own_account_check<T: AccountContent>(region: AccountState) -> Result<(), ProgramError> {
    match T::spec_is_initialized(region.data) {
        Err(e) => Err(e),
        Ok(false) => Err(ProgramError::UninitializedAccount),
        Ok(true) => Ok(()),
    }
}

/// The check an account needs to pass to be held as an exclusive `OwnAccount<T>`: it is writable,
/// and `T` reports its data as initialized.
pub open spec fn own_account_mut_check<T: AccountContent>(region: AccountState) -> Result<
    (),
    ProgramError,
> {
    if region.header.is_writable == 0 {
        Err(ProgramError::Immutable)
    } else {
        own_account_check::<T>(region)
    }
}

/// Every `OwnAccount<T>` the parsers hand out holds data that `T` reports as initialized, and
/// every exclusive one is also writable: the checks pass exactly for such accounts, are
/// `Immutable` for a read-only account held exclusively, `UninitializedAccount` for data that is
/// not initialized, and otherwise carry the initialization check's error.
pub proof fn lemma_own_account_checks<T: AccountContent>(region: AccountState)
    ensures
        own_account_check::<T>(region) is Ok <==> T::spec_is_initialized(region.data) == Ok::<
            bool,
            ProgramError,
        >(true),
        own_account_mut_check::<T>(region) is Ok <==> (region.header.is_writable != 0
            && T::spec_is_initialized(region.data) == Ok::<bool, ProgramError>(true)),
        region.header.is_writable == 0 ==> own_account_mut_check::<T>(region) == Err::<
            (),
            ProgramError,
        >(ProgramError::Immutable),
        T::spec_is_initialized(region.data) == Ok::<bool, ProgramError>(false) ==> {
            &&& own_account_check::<T>(region) == Err::<(), ProgramError>(
                ProgramError::UninitializedAccount,
            )
            &&& region.header.is_writable != 0 ==> own_account_mut_check::<T>(region) == Err::<
                (),
                ProgramError,
            >(ProgramError::UninitializedAccount)
        },
        forall|e: ProgramError|
            T::spec_is_initialized(region.data) == Err::<bool, ProgramError>(e) ==> {
                &&& own_account_check::<T>(region) == Err::<(), ProgramError>(e)
                &&& region.header.is_writable != 0 ==> own_account_mut_check::<T>(region)
                    == Err::<(), ProgramError>(e)
            },
{
}

impl<T: AccountContent> OwnAccount<T> {
    #[inline(always)]
    pub fn require_signer(&self) -> (r: Result<&Self, ProgramError>)
        ensures
            self@.header.is_signer != 0 ==> r == Ok::<&Self, ProgramError>(self),
            self@.header.is_signer == 0 ==> r == Err::<&Self, ProgramError>(
                ProgramError::MissingRequiredSignature,
            ),
    {
        if self.is_signer() {
            Ok(self)
        } else {
            Err(ProgramError::MissingRequiredSignature)
        }
    }

    #[inline(always)]
    pub fn require_signer_mut(&mut self) -> (r: Result<&mut Self, ProgramError>)
        ensures
            old(self)@.header.is_signer != 0 ==> (r matches Ok(a) && *a == *old(self)),
            r matches Ok(a) ==> *final(self) == *final(a),
            old(self)@.header.is_signer == 0 ==> (r matches Err(e) && e
                == ProgramError::MissingRequiredSignature && *final(self) == *old(self)),
    {
        if self.is_signer() {
            Ok(self)
        } else {
            Err(ProgramError::MissingRequiredSignature)
        }
    }

    #[inline(always)]
    pub fn require_address(&self, value: &Pubkey) -> (r: Result<&Self, ProgramError>)
        ensures
            self@.header.address@ == value@ ==> r == Ok::<&Self, ProgramError>(self),
            self@.header.address@ != value@ ==> r == Err::<&Self, ProgramError>(
                ProgramError::InvalidSeeds,
            ),
    {
        if pubkey_eq(self.address(), value) {
            Ok(self)
        } else {
            Err(ProgramError::InvalidSeeds)
        }
    }

    #[inline(always)]
    pub fn require_address_mut(&mut self, value: &Pubkey) -> (r: Result<&mut Self, ProgramError>)
        ensures
            old(self)@.header.address@ == value@ ==> (r matches Ok(a) && *a == *old(self)),
            r matches Ok(a) ==> *final(self) == *final(a),
            old(self)@.header.address@ != value@ ==> (r matches Err(e) && e
                == ProgramError::InvalidSeeds && *final(self) == *old(self)),
    {
        if pubkey_eq(self.address(), value) {
            Ok(self)
        } else {
            Err(ProgramError::InvalidSeeds)
        }
    }

    /// Checks the account owner, and gives access to the account as an [`Account<T>`].
    #[inline(always)]
    pub fn require_owner(&self, value: &Pubkey) -> (r: Result<&Account<T>, ProgramError>)
        ensures
            self@.header.owner@ == value@ ==> (r matches Ok(a) && a@ == self@),
            self@.header.owner@ != value@ ==> r == Err::<&Account<T>, ProgramError>(
                ProgramError::InvalidAccountOwner,
            ),
    {
        if !pubkey_eq(self.owner(), value) {
            return Err(ProgramError::InvalidAccountOwner);
        }
        Ok(&self.account)
    }

    /// Checks the account owner, and gives exclusive access to the account as an
    /// [`Account<T>`].
    #[inline(always)]
    pub fn require_owner_mut(&mut self, value: &Pubkey) -> (r: Result<&mut Account<T>, ProgramError>)
        ensures
            old(self)@.header.owner@ == value@ ==> (r matches Ok(a) && a@ == old(self)@),
            r matches Ok(a) ==> final(self)@ == final(a)@,
            old(self)@.header.owner@ != value@ ==> (r matches Err(e) && e
                == ProgramError::InvalidAccountOwner && *final(self) == *old(self)),
    {
        if !pubkey_eq(self.owner(), value) {
            return Err(ProgramError::InvalidAccountOwner);
        }
        Ok(&mut self.account)
    }
}

/// Shared `OwnAccount`s can use the data of other shared `OwnAccount`s.
impl<FromC: AccountContent, ToC: AccountContent> CanReference<OwnAccount<ToC>> for OwnAccount<FromC> {
    open spec fn spec_can_reference() -> i8 {
        1
    }

    fn can_reference() -> i8 {
        1
    }
}

/// Shared `OwnAccount`s can use the data of shared [`AnyAccount`]s.
impl<FromC: AccountContent> CanReference<AnyAccount> for OwnAccount<FromC> {
    open spec fn spec_can_reference() -> i8 {
        1
    }

    fn can_reference() -> i8 {
        1
    }
}

/// Exclusive `OwnAccount`s can not share data with any other account.
impl<FromC: AccountContent, To> CanReference<To> for Exclusive<OwnAccount<FromC>> {
    open spec fn spec_can_reference() -> i8 {
        -2i8
    }

    fn can_reference() -> i8 {
        -2
    }
}

impl<T: AccountContent> AccountCommon for OwnAccount<T> {
    open spec fn common_header(&self) -> AbiAccountHeader {
        self@.header
    }

    #[inline(always)]
    fn is_signer(&self) -> bool {
        self.account.region.header.is_signer != 0
    }

    #[inline(always)]
    fn is_writable(&self) -> bool {
        self.account.region.header.is_writable != 0
    }

    #[inline(always)]
    fn is_executable(&self) -> bool {
        self.account.region.header.is_executable != 0
    }

    #[inline(always)]
    fn resize_delta(&self) -> i32 {
        self.account.region.header.resize_delta()
    }

    #[inline(always)]
    fn address(&self) -> &Pubkey {
        &self.account.region.header.address
    }

    #[inline(always)]
    fn owner(&self) -> &Pubkey {
        &self.account.region.header.owner
    }

    #[inline(always)]
    fn lamports(&self) -> u64 {
        self.account.region.header.lamports()
    }

    #[inline(always)]
    fn data_len(&self) -> u64 {
        self.account.region.header.data_len()
    }
}

/// Constructs an `OwnAccount<T>` for the full account entry at `account_idx`, checking that the
/// account is initialized.
fn parse_account<T: AccountContent>(accounts: &[Option<AccountRegion>], account_idx: u8) -> (r: Result<
    OwnAccount<T>,
    ProgramError,
>)
    requires
        (account_idx as int) < accounts@.len(),
        accounts@[account_idx as int] is Some,
    ensures
        match own_account_check::<T>(region_at(accounts@, account_idx as int)@) {
            Ok(()) => r matches Ok(a) && a@ == region_at(accounts@, account_idx as int)@,
            Err(e) => r == Err::<OwnAccount<T>, ProgramError>(e),
        },
{
    match &accounts[account_idx as usize] {
        Some(region) => {
            if !T::is_initialized(region.data.as_slice())? {
                return Err(ProgramError::UninitializedAccount);
            }
            Ok(OwnAccount { account: Account { region: region.duplicate(), _data: PhantomData } })
        },
        None => Err(ProgramError::InvalidAccountData),
    }
}

/// Constructs an exclusive `OwnAccount<T>` for the full account entry at `account_idx`, checking
/// that the account is writable and initialized.
fn parse_account_mut<T: AccountContent>(accounts: &[Option<AccountRegion>], account_idx: u8) -> (r:
    Result<Exclusive<OwnAccount<T>>, ProgramError>)
    requires
        (account_idx as int) < accounts@.len(),
        accounts@[account_idx as int] is Some,
    ensures
        match own_account_mut_check::<T>(region_at(accounts@, account_idx as int)@) {
            Ok(()) => r matches Ok(a) && a.inner()@ == region_at(accounts@, account_idx as int)@,
            Err(e) => r == Err::<Exclusive<OwnAccount<T>>, ProgramError>(e),
        },
{
    match &accounts[account_idx as usize] {
        Some(region) => {
            if region.header.is_writable == 0 {
                return Err(ProgramError::Immutable);
            }
            if !T::is_initialized(region.data.as_slice())? {
                return Err(ProgramError::UninitializedAccount);
            }
            Ok(
                Exclusive::new(
                    OwnAccount {
                        account: Account { region: region.duplicate(), _data: PhantomData },
                    },
                ),
            )
        },
        None => Err(ProgramError::InvalidAccountData),
    }
}

/// Shared access, following duplicate references that `allowed_references_mask` permits.  Checks
/// that the account is initialized; the ownership check is done by
/// [`OwnAccount::require_owner`].
impl<T: AccountContent> ProgramAccountParser for OwnAccount<T> {
    fn parse(
        accounts: &[Option<AccountRegion>],
        account_references: &[u8],
        allowed_references_mask: u64,
        account_idx: u8,
    ) -> (r: Result<Self, ProgramError>)
        ensures
            match resolve_with_references(
                account_references@,
                allowed_references_mask,
                account_idx as int,
            ) {
                Ok(i) => match own_account_check::<T>(region_at(accounts@, i as int)@) {
                    Ok(()) => r matches Ok(a) && a@ == region_at(accounts@, i as int)@,
                    Err(e) => r == Err::<Self, ProgramError>(e),
                },
                Err(e) => r == Err::<Self, ProgramError>(e),
            },
            r matches Ok(a) ==> T::spec_is_initialized(a@.data) == Ok::<bool, ProgramError>(true),
    {
        parse_single_account_with_references(
            accounts,
            account_references,
            allowed_references_mask,
            account_idx,
            (|accounts: &[Option<AccountRegion>], i: u8| -> (r: Result<OwnAccount<T>, ProgramError>)
                requires
                    (i as int) < accounts@.len(),
                    accounts@[i as int] is Some,
                ensures
                    match own_account_check::<T>(region_at(accounts@, i as int)@) {
                        Ok(()) => r matches Ok(a) && a@ == region_at(accounts@, i as int)@,
                        Err(e) => r == Err::<OwnAccount<T>, ProgramError>(e),
                    },
                { parse_account::<T>(accounts, i) }),
        )
    }
}

/// Exclusive access: the account must be writable, initialized, and must not be referenced by
/// another entry.
impl<T: AccountContent> ProgramAccountParser for Exclusive<OwnAccount<T>> {
    fn parse(
        accounts: &[Option<AccountRegion>],
        account_references: &[u8],
        allowed_references_mask: u64,
        account_idx: u8,
    ) -> (r: Result<Self, ProgramError>)
        ensures
            match resolve_no_references(account_references@, account_idx as int) {
                Ok(i) => match own_account_mut_check::<T>(region_at(accounts@, i as int)@) {
                    Ok(()) => r matches Ok(a) && a.inner()@ == region_at(accounts@, i as int)@,
                    Err(e) => r == Err::<Self, ProgramError>(e),
                },
                Err(e) => r == Err::<Self, ProgramError>(e),
            },
            r matches Ok(a) ==> a.inner()@.header.is_writable != 0 && T::spec_is_initialized(
                a.inner()@.data,
            ) == Ok::<bool, ProgramError>(true),
    {
        parse_single_account_no_references(
            accounts,
            account_references,
            account_idx,
            (|accounts: &[Option<AccountRegion>], i: u8| -> (r: Result<
                Exclusive<OwnAccount<T>>,
                ProgramError,
            >)
                requires
                    (i as int) < accounts@.len(),
                    accounts@[i as int] is Some,
                ensures
                    match own_account_mut_check::<T>(region_at(accounts@, i as int)@) {
                        Ok(()) => r matches Ok(a) && a.inner()@ == region_at(accounts@, i as int)@,
                        Err(e) => r == Err::<Exclusive<OwnAccount<T>>, ProgramError>(e),
                    },
                { parse_account_mut::<T>(accounts, i) }),
        )
    }
}

} // verus!
