//! Accounts whose data is not going to be accessed.

use vstd::prelude::*;

use crate::entrypoint_v2::program_account_parser::{
    parse_single_account_no_references, parse_single_account_with_references, program_accounts_wf,
    region_at, resolve_no_references, resolve_with_references, ProgramAccountParser,
};
use crate::entrypoint_v2::CanReference;
use crate::program_error::ProgramError;
use crate::pubkey::{pubkey_eq, Pubkey};

use super::{AbiAccountHeader, AccountCommon, AccountContent, AccountRegion, AccountState, Exclusive, OwnAccount};

verus! {

/// Used for accounts when the account data is not going to be accessed.  Allows access to the
/// common account properties stored in the account header, such as the balance, the owner and
/// the address.
///
/// Shared `AnyAccount`s can reference, and be referenced by, shared [`OwnAccount`]s and other
/// shared `AnyAccount`s: the same account may be passed to the program twice.
#[derive(Debug)]
pub struct AnyAccount {
    region: AccountRegion,
}

/// An [`AnyAccount`] held for exclusive access.
pub type AnyAccountMut = Exclusive<AnyAccount>;

impl View for AnyAccount {
    type V = AccountState;

    closed spec fn view(&self) -> AccountState {
        self.region@
    }
}

impl AnyAccount {
    #[inline(always)]
    pub fn require_signer(&self) -> (r: Result<&Self, ProgramError>)
        ensures
            self@.header.is_signer != 0 ==> r == Ok::<&Self, ProgramError>(self),
            self@.header.is_signer == 0 ==> r == Err::<&Self, ProgramError>(
                ProgramError::MissingRequiredSignature,
            ),
    {
        if self.is_signer() {
            Ok(self)
        } else {
            Err(ProgramError::MissingRequiredSignature)
        }
    }

    #[inline(always)]
    pub fn require_signer_mut(&mut self) -> (r: Result<&mut Self, ProgramError>)
        ensures
            old(self)@.header.is_signer != 0 ==> (r matches Ok(a) && *a == *old(self)),
            r matches Ok(a) ==> *final(self) == *final(a),
            old(self)@.header.is_signer == 0 ==> (r matches Err(e) && e
                == ProgramError::MissingRequiredSignature && *final(self) == *old(self)),
    {
        if self.is_signer() {
            Ok(self)
        } else {
            Err(ProgramError::MissingRequiredSignature)
        }
    }

    #[inline(always)]
    pub fn require_address(&self, value: &Pubkey) -> (r: Result<&Self, ProgramError>)
        ensures
            self@.header.address@ == value@ ==> r == Ok::<&Self, ProgramError>(self),
            self@.header.address@ != value@ ==> r == Err::<&Self, ProgramError>(
                ProgramError::InvalidSeeds,
            ),
    {
        if pubkey_eq(self.address(), value) {
            Ok(self)
        } else {
            Err(ProgramError::InvalidSeeds)
        }
    }

    #[inline(always)]
    pub fn require_address_mut(&mut self, value: &Pubkey) -> (r: Result<&mut Self, ProgramError>)
        ensures
            old(self)@.header.address@ == value@ ==> (r matches Ok(a) && *a == *old(self)),
            r matches Ok(a) ==> *final(self) == *final(a),
            old(self)@.header.address@ != value@ ==> (r matches Err(e) && e
                == ProgramError::InvalidSeeds && *final(self) == *old(self)),
    {
        if pubkey_eq(self.address(), value) {
            Ok(self)
        } else {
            Err(ProgramError::InvalidSeeds)
        }
    }

    #[inline(always)]
    pub fn require_owner(&self, value: &Pubkey) -> (r: Result<&Self, ProgramError>)
        ensures
            self@.header.owner@ == value@ ==> r == Ok::<&Self, ProgramError>(self),
            self@.header.owner@ != value@ ==> r == Err::<&Self, ProgramError>(
                ProgramError::InvalidAccountOwner,
            ),
    {
        if pubkey_eq(self.owner(), value) {
            Ok(self)
        } else {
            Err(ProgramError::InvalidAccountOwner)
        }
    }

    #[inline(always)]
    pub fn require_owner_mut(&mut self, value: &Pubkey) -> (r: Result<&mut Self, ProgramError>)
        ensures
            old(self)@.header.owner@ == value@ ==> (r matches Ok(a) && *a == *old(self)),
            r matches Ok(a) ==> *final(self) == *final(a),
            old(self)@.header.owner@ != value@ ==> (r matches Err(e) && e
                == ProgramError::InvalidAccountOwner && *final(self) == *old(self)),
    {
        if pubkey_eq(self.owner(), value) {
            Ok(self)
        } else {
            Err(ProgramError::InvalidAccountOwner)
        }
    }
}

/// Shared `AnyAccount`s can use the data of other shared `AnyAccount`s.
impl CanReference<AnyAccount> for AnyAccount {
    open spec fn spec_can_reference() -> i8 {
        1
    }

    fn can_reference() -> i8 {
        1
    }
}

/// Shared `AnyAccount`s can use the data of shared [`OwnAccount`]s.
impl<ToC: AccountContent> CanReference<OwnAccount<ToC>> for AnyAccount {
    open spec fn spec_can_reference() -> i8 {
        1
    }

    fn can_reference() -> i8 {
        1
    }
}

/// Exclusive `AnyAccount`s can not share data with any other account.
impl<To> CanReference<To> for Exclusive<AnyAccount> {
    open spec fn spec_can_reference() -> i8 {
        -2i8
    }

    fn can_reference() -> i8 {
        -2
    }
}

impl AccountCommon for AnyAccount {
    open spec fn common_header(&self) -> AbiAccountHeader {
        self@.header
    }

    #[inline(always)]
    fn is_signer(&self) -> bool {
        self.region.header.is_signer != 0
    }

    #[inline(always)]
    fn is_writable(&self) -> bool {
        self.region.header.is_writable != 0
    }

    #[inline(always)]
    fn is_executable(&self) -> bool {
        self.region.header.is_executable != 0
    }

    #[inline(always)]
    fn resize_delta(&self) -> i32 {
        self.region.header.resize_delta()
    }

    #[inline(always)]
    fn address(&self) -> &Pubkey {
        &self.region.header.address
    }

    #[inline(always)]
    fn owner(&self) -> &Pubkey {
        &self.region.header.owner
    }

    #[inline(always)]
    fn lamports(&self) -> u64 {
        self.region.header.lamports()
    }

    #[inline(always)]
    fn data_len(&self) -> u64 {
        self.region.header.data_len()
    }
}

/// Constructs an `AnyAccount` for the full account entry at `account_idx`.  This does not check
/// that the account is initialized.
fn parse_account(accounts: &[Option<AccountRegion>], account_idx: u8) -> (r: Result<
    AnyAccount,
    ProgramError,
>)
    requires
        (account_idx as int) < accounts@.len(),
        accounts@[account_idx as int] is Some,
    ensures
        r matches Ok(a) && a@ == region_at(accounts@, account_idx as int)@,
{
    match &accounts[account_idx as usize] {
        Some(region) => Ok(AnyAccount { region: region.duplicate() }),
        None => Err(ProgramError::InvalidAccountData),
    }
}

/// Constructs an exclusive `AnyAccount` for the full account entry at `account_idx`.  This checks
/// that the account is writable, but does not check that it is initialized.
fn parse_account_mut(accounts: &[Option<AccountRegion>], account_idx: u8) -> (r: Result<
    Exclusive<AnyAccount>,
    ProgramError,
>)
    requires
        (account_idx as int) < accounts@.len(),
        accounts@[account_idx as int] is Some,
    ensures
        region_at(accounts@, account_idx as int).header.is_writable == 0 ==> r
            == Err::<Exclusive<AnyAccount>, ProgramError>(ProgramError::Immutable),
        region_at(accounts@, account_idx as int).header.is_writable != 0 ==> (r matches Ok(a)
            && a.inner()@ == region_at(accounts@, account_idx as int)@),
{
    match &accounts[account_idx as usize] {
        Some(region) => {
            if region.header.is_writable == 0 {
                return Err(ProgramError::Immutable);
            }
            Ok(Exclusive::new(AnyAccount { region: region.duplicate() }))
        },
        None => Err(ProgramError::InvalidAccountData),
    }
}

/// Shared access, following duplicate references that `allowed_references_mask` permits.
impl ProgramAccountParser for AnyAccount {
    fn parse(
        accounts: &[Option<AccountRegion>],
        account_references: &[u8],
        allowed_references_mask: u64,
        account_idx: u8,
    ) -> (r: Result<Self, ProgramError>)
        ensures
            match resolve_with_references(
                account_references@,
                allowed_references_mask,
                account_idx as int,
            ) {
                Ok(i) => r matches Ok(a) && a@ == region_at(accounts@, i as int)@,
                Err(e) => r == Err::<Self, ProgramError>(e),
            },
    {
        parse_single_account_with_references(
            accounts,
            account_references,
            allowed_references_mask,
            account_idx,
            (|accounts: &[Option<AccountRegion>], i: u8| -> (r: Result<AnyAccount, ProgramError>)
                requires
                    (i as int) < accounts@.len(),
                    accounts@[i as int] is Some,
                ensures
                    r matches Ok(a) && a@ == region_at(accounts@, i as int)@,
                { parse_account(accounts, i) }),
        )
    }
}

/// Exclusive access: the account must be writable and must not be referenced by another entry.
impl ProgramAccountParser for Exclusive<AnyAccount> {
    fn parse(
        accounts: &[Option<AccountRegion>],
        account_references: &[u8],
        allowed_references_mask: u64,
        account_idx: u8,
    ) -> (r: Result<Self, ProgramError>)
        ensures
            match resolve_no_references(account_references@, account_idx as int) {
                Ok(i) => {
                    &&& region_at(accounts@, i as int).header.is_writable == 0 ==> r
                        == Err::<Self, ProgramError>(ProgramError::Immutable)
                    &&& region_at(accounts@, i as int).header.is_writable != 0 ==> (r matches Ok(
                        a,
                    ) && a.inner()@ == region_at(accounts@, i as int)@)
                },
                Err(e) => r == Err::<Self, ProgramError>(e),
            },
    {
        parse_single_account_no_references(
            accounts,
            account_references,
            account_idx,
            (|accounts: &[Option<AccountRegion>], i: u8| -> (r: Result<
                Exclusive<AnyAccount>,
                ProgramError,
            >)
                requires
                    (i as int) < accounts@.len(),
                    accounts@[i as int] is Some,
                ensures
                    region_at(accounts@, i as int).header.is_writable == 0 ==> r == Err::<
                        Exclusive<AnyAccount>,
                        ProgramError,
                    >(ProgramError::Immutable),
                    region_at(accounts@, i as int).header.is_writable != 0 ==> (r matches Ok(a)
                        && a.inner()@ == region_at(accounts@, i as int)@),
                { parse_account_mut(accounts, i) }),
        )
    }
}

} // verus!
