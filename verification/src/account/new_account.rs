//! Accounts that are expected to be empty, and need to be initialized before they can be used.

use core::marker::PhantomData;

use vstd::prelude::*;

use crate::entrypoint_v2::program_account_parser::{
    parse_single_account_no_references, parse_single_account_with_references, region_at,
    resolve_no_references, resolve_with_references, ProgramAccountParser,
};
use crate::entrypoint_v2::CanReference;
use crate::program_error::ProgramError;
use crate::pubkey::{pubkey_eq, Pubkey};

use super::{
    AbiAccountHeader, Account, AccountCommon, AccountContent, AccountRegion, AccountState,
    Exclusive, Initializable,
};

verus! {

/// An account that is expected to be uninitialized, and that needs to be initialized before it
/// can be converted into an [`Account<T>`] and used in the rest of the program logic.
///
/// The parsers only construct a `NewAccount<T>` for accounts whose data `T` reports as not
/// initialized.
#[derive(Debug)]
pub struct NewAccount<T: AccountContent> {
    account: Account<T>,
}

/// An [`NewAccount`] held for exclusive access.
pub type NewAccountMut<T> = Exclusive<NewAccount<T>>;

impl<T: AccountContent> View for NewAccount<T> {
    type V = AccountState;

    closed spec fn view(&self) -> AccountState {
        self.account.region@
    }
}

/// The check an account needs to pass to be treated as a `NewAccount<T>`: `T` reports its data
/// as not initialized.
pub open spec fn new_account_check<T: AccountContent>(region: AccountState) -> Result<(), ProgramError> {
    match T::spec_is_initialized(region.data) {
        Err(e) => Err(e),
        Ok(true) => Err(ProgramError::AccountAlreadyInitialized),
        Ok(false) => Ok(()),
    }
}

/// The check an account needs to pass to be held as an exclusive `NewAccount<T>`: it is writable,
/// and `T` reports its data as not initialized.
pub open spec fn new_account_mut_check<T: AccountContent>(region: AccountState) -> Result<
    (),
    ProgramError,
> {
    if region.header.is_writable == 0 {
        Err(ProgramError::Immutable)
    } else {
        new_account_check::<T>(region)
    }
}

/// Every exclusive `NewAccount<T>` the parsers hand out is writable and holds data that `T`
/// reports as not initialized: the check passes exactly for such accounts, is `Immutable` for a
/// read-only account, and otherwise carries the initialization check's error or
/// `AccountAlreadyInitialized`.
pub proof fn lemma_new_account_mut_check<T: AccountContent>(region: AccountState)
    ensures
        new_account_mut_check::<T>(region) is Ok <==> (region.header.is_writable != 0
            && T::spec_is_initialized(region.data) == Ok::<bool, ProgramError>(false)),
        region.header.is_writable == 0 ==> new_account_mut_check::<T>(region) == Err::<
            (),
            ProgramError,
        >(ProgramError::Immutable),
        region.header.is_writable != 0 && T::spec_is_initialized(region.data) == Ok::<
            bool,
            ProgramError,
        >(true) ==> new_account_mut_check::<T>(region) == Err::<(), ProgramError>(
            ProgramError::AccountAlreadyInitialized,
        ),
{
}

impl<T: AccountContent> NewAccount<T> {
    #[inline(always)]
    pub fn require_signer(&self) -> (r: Result<&Self, ProgramError>)
        ensures
            self@.header.is_signer != 0 ==> r == Ok::<&Self, ProgramError>(self),
            self@.header.is_signer == 0 ==> r == Err::<&Self, ProgramError>(
                ProgramError::MissingRequiredSignature,
            ),
    {
        if self.is_signer() {
            Ok(self)
        } else {
            Err(ProgramError::MissingRequiredSignature)
        }
    }

    #[inline(always)]
    pub fn require_signer_mut(&mut self) -> (r: Result<&mut Self, ProgramError>)
        ensures
            old(self)@.header.is_signer != 0 ==> (r matches Ok(a) && *a == *old(self)),
            r matches Ok(a) ==> *final(self) == *final(a),
            old(self)@.header.is_signer == 0 ==> (r matches Err(e) && e
                == ProgramError::MissingRequiredSignature && *final(self) == *old(self)),
    {
        if self.is_signer() {
            Ok(self)
        } else {
            Err(ProgramError::MissingRequiredSignature)
        }
    }

    #[inline(always)]
    pub fn require_address(&self, value: &Pubkey) -> (r: Result<&Self, ProgramError>)
        ensures
            self@.header.address@ == value@ ==> r == Ok::<&Self, ProgramError>(self),
            self@.header.address@ != value@ ==> r == Err::<&Self, ProgramError>(
                ProgramError::InvalidSeeds,
            ),
    {
        if pubkey_eq(self.address(), value) {
            Ok(self)
        } else {
            Err(ProgramError::InvalidSeeds)
        }
    }

    #[inline(always)]
    pub fn require_address_mut(&mut self, value: &Pubkey) -> (r: Result<&mut Self, ProgramError>)
        ensures
            old(self)@.header.address@ == value@ ==> (r matches Ok(a) && *a == *old(self)),
            r matches Ok(a) ==> *final(self) == *final(a),
            old(self)@.header.address@ != value@ ==> (r matches Err(e) && e
                == ProgramError::InvalidSeeds && *final(self) == *old(self)),
    {
        if pubkey_eq(self.address(), value) {
            Ok(self)
        } else {
            Err(ProgramError::InvalidSeeds)
        }
    }

    #[inline(always)]
    pub fn require_owner(&self, value: &Pubkey) -> (r: Result<&Self, ProgramError>)
        ensures
            self@.header.owner@ == value@ ==> r == Ok::<&Self, ProgramError>(self),
            self@.header.owner@ != value@ ==> r == Err::<&Self, ProgramError>(
                ProgramError::InvalidAccountOwner,
            ),
    {
        if pubkey_eq(self.owner(), value) {
            Ok(self)
        } else {
            Err(ProgramError::InvalidAccountOwner)
        }
    }

    #[inline(always)]
    pub fn require_owner_mut(&mut self, value: &Pubkey) -> (r: Result<&mut Self, ProgramError>)
        ensures
            old(self)@.header.owner@ == value@ ==> (r matches Ok(a) && *a == *old(self)),
            r matches Ok(a) ==> *final(self) == *final(a),
            old(self)@.header.owner@ != value@ ==> (r matches Err(e) && e
                == ProgramError::InvalidAccountOwner && *final(self) == *old(self)),
    {
        if pubkey_eq(self.owner(), value) {
            Ok(self)
        } else {
            Err(ProgramError::InvalidAccountOwner)
        }
    }
}

impl<T: Initializable> NewAccount<T> {
    /// Initializes the account bytes to hold a discriminator and an instance of `T`, as defined by
    /// the [`Initializable`] instance for `T`, and returns the account as an initialized
    /// [`Account<T>`].
    ///
    /// Expects the account to have enough space for the discriminator and an instance of `T` in
    /// the already allocated data.
    #[inline(always)]
    pub fn initialize(&mut self, state: T::Init) -> (r: Result<&mut Account<T>, ProgramError>)
        requires
            T::spec_is_initialized(old(self)@.data) == Ok::<bool, ProgramError>(false),
        ensures
            match T::spec_initialize_bytes(state, old(self)@.data) {
                Ok(bytes) => r matches Ok(a) && a@.data == bytes,
                Err(e) => r matches Err(e2) && e2 == e,
            },
            r matches Ok(a) ==> {
                &&& a@.header == old(self)@.header
                &&& a@.data.len() == old(self)@.data.len()
                &&& T::spec_is_initialized(a@.data) == Ok::<bool, ProgramError>(true)
                &&& final(self)@ == final(a)@
            },
            r is Err ==> final(self)@.header == old(self)@.header && final(self)@.data.len()
                == old(self)@.data.len(),
    {
        let data = self.account.region.data.as_mut_slice();
        match T::initialize_bytes(state, data) {
            Ok(()) => Ok(&mut self.account),
            Err(e) => Err(e),
        }
    }
}

/// Exclusive `NewAccount`s can not share data with any other account.
impl<FromC: AccountContent, To> CanReference<To> for Exclusive<NewAccount<FromC>> {
    open spec fn spec_can_reference() -> i8 {
        -2i8
    }

    fn can_reference() -> i8 {
        -2
    }
}

impl<T: AccountContent> AccountCommon for NewAccount<T> {
    open spec fn common_header(&self) -> AbiAccountHeader {
        self@.header
    }

    #[inline(always)]
    fn is_signer(&self) -> bool {
        self.account.region.header.is_signer != 0
    }

    #[inline(always)]
    fn is_writable(&self) -> bool {
        self.account.region.header.is_writable != 0
    }

    #[inline(always)]
    fn is_executable(&self) -> bool {
        self.account.region.header.is_executable != 0
    }

    #[inline(always)]
    fn resize_delta(&self) -> i32 {
        self.account.region.header.resize_delta()
    }

    #[inline(always)]
    fn address(&self) -> &Pubkey {
        &self.account.region.header.address
    }

    #[inline(always)]
    fn owner(&self) -> &Pubkey {
        &self.account.region.header.owner
    }

    #[inline(always)]
    fn lamports(&self) -> u64 {
        self.account.region.header.lamports()
    }

    #[inline(always)]
    fn data_len(&self) -> u64 {
        self.account.region.header.data_len()
    }
}

/// Constructs a `NewAccount<T>` for the full account entry at `account_idx`, checking that the
/// account is not initialized.
fn parse_account<T: AccountContent>(accounts: &[Option<AccountRegion>], account_idx: u8) -> (r: Result<
    NewAccount<T>,
    ProgramError,
>)
    requires
        (account_idx as int) < accounts@.len(),
        accounts@[account_idx as int] is Some,
    ensures
        match new_account_check::<T>(region_at(accounts@, account_idx as int)@) {
            Ok(()) => r matches Ok(a) && a@ == region_at(accounts@, account_idx as int)@,
            Err(e) => r == Err::<NewAccount<T>, ProgramError>(e),
        },
{
    match &accounts[account_idx as usize] {
        Some(region) => {
            if T::is_initialized(region.data.as_slice())? {
                return Err(ProgramError::AccountAlreadyInitialized);
            }
            Ok(NewAccount { account: Account { region: region.duplicate(), _data: PhantomData } })
        },
        None => Err(ProgramError::InvalidAccountData),
    }
}

/// Constructs an exclusive `NewAccount<T>` for the full account entry at `account_idx`, checking
/// that the account is writable and not initialized.
fn parse_account_mut<T: AccountContent>(accounts: &[Option<AccountRegion>], account_idx: u8) -> (r:
    Result<Exclusive<NewAccount<T>>, ProgramError>)
    requires
        (account_idx as int) < accounts@.len(),
        accounts@[account_idx as int] is Some,
    ensures
        match new_account_mut_check::<T>(region_at(accounts@, account_idx as int)@) {
            Ok(()) => r matches Ok(a) && a.inner()@ == region_at(accounts@, account_idx as int)@,
            Err(e) => r == Err::<Exclusive<NewAccount<T>>, ProgramError>(e),
        },
{
    match &accounts[account_idx as usize] {
        Some(region) => {
            if region.header.is_writable == 0 {
                return Err(ProgramError::Immutable);
            }
            if T::is_initialized(region.data.as_slice())? {
                return Err(ProgramError::AccountAlreadyInitialized);
            }
            Ok(
                Exclusive::new(
                    NewAccount {
                        account: Account { region: region.duplicate(), _data: PhantomData },
                    },
                ),
            )
        },
        None => Err(ProgramError::InvalidAccountData),
    }
}

/// Shared access, following duplicate references that `allowed_references_mask` permits.  Checks
/// that the account is not initialized.  Initialization needs exclusive access, so a shared
/// `NewAccount` can not be initialized.
impl<T: AccountContent> ProgramAccountParser for NewAccount<T> {
    fn parse(
        accounts: &[Option<AccountRegion>],
        account_references: &[u8],
        allowed_references_mask: u64,
        account_idx: u8,
    ) -> (r: Result<Self, ProgramError>)
        ensures
            match resolve_with_references(
                account_references@,
                allowed_references_mask,
                account_idx as int,
            ) {
                Ok(i) => match new_account_check::<T>(region_at(accounts@, i as int)@) {
                    Ok(()) => r matches Ok(a) && a@ == region_at(accounts@, i as int)@,
                    Err(e) => r == Err::<Self, ProgramError>(e),
                },
                Err(e) => r == Err::<Self, ProgramError>(e),
            },
            r matches Ok(a) ==> T::spec_is_initialized(a@.data) == Ok::<bool, ProgramError>(false),
    {
        parse_single_account_with_references(
            accounts,
            account_references,
            allowed_references_mask,
            account_idx,
            (|accounts: &[Option<AccountRegion>], i: u8| -> (r: Result<NewAccount<T>, ProgramError>)
                requires
                    (i as int) < accounts@.len(),
                    accounts@[i as int] is Some,
                ensures
                    match new_account_check::<T>(region_at(accounts@, i as int)@) {
                        Ok(()) => r matches Ok(a) && a@ == region_at(accounts@, i as int)@,
                        Err(e) => r == Err::<NewAccount<T>, ProgramError>(e),
                    },
                { parse_account::<T>(accounts, i) }),
        )
    }
}

/// Exclusive access: the account must be writable, not initialized, and must not be referenced by
/// another entry.  Initialization is done by [`NewAccount::initialize`].
impl<T: AccountContent> ProgramAccountParser for Exclusive<NewAccount<T>> {
    fn parse(
        accounts: &[Option<AccountRegion>],
        account_references: &[u8],
        allowed_references_mask: u64,
        account_idx: u8,
    ) -> (r: Result<Self, ProgramError>)
        ensures
            match resolve_no_references(account_references@, account_idx as int) {
                Ok(i) => match new_account_mut_check::<T>(region_at(accounts@, i as int)@) {
                    Ok(()) => r matches Ok(a) && a.inner()@ == region_at(accounts@, i as int)@,
                    Err(e) => r == Err::<Self, ProgramError>(e),
                },
                Err(e) => r == Err::<Self, ProgramError>(e),
            },
            r matches Ok(a) ==> a.inner()@.header.is_writable != 0 && T::spec_is_initialized(
                a.inner()@.data,
            ) == Ok::<bool, ProgramError>(false),
    {
        parse_single_account_no_references(
            accounts,
            account_references,
            account_idx,
            (|accounts: &[Option<AccountRegion>], i: u8| -> (r: Result<
                Exclusive<NewAccount<T>>,
                ProgramError,
            >)
                requires
                    (i as int) < accounts@.len(),
                    accounts@[i as int] is Some,
                ensures
                    match new_account_mut_check::<T>(region_at(accounts@, i as int)@) {
                        Ok(()) => r matches Ok(a) && a.inner()@ == region_at(accounts@, i as int)@,
                        Err(e) => r == Err::<Exclusive<NewAccount<T>>, ProgramError>(e),
                    },
                { parse_account_mut::<T>(accounts, i) }),
        )
    }
}

} // verus!
