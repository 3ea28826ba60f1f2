//! Construction of typed accounts out of the account list found in the program input.
//!
//! The account list holds an entry per account passed to the program.  An entry is either a full
//! account block, or a reference to an earlier entry, when the same account is passed more than
//! once.  `account_references[i]` is `u8::MAX` for a full account, and the index of the referenced
//! entry otherwise; `accounts[i]` holds the account block for full accounts.

use vstd::prelude::*;

use crate::account::AccountRegion;
use crate::program_error::ProgramError;

verus! {

/// Marks a full account in the account references list.
pub const NOT_A_DUPLICATE: u8 = 255;

/// The account list is consistent: both lists have the same length, every full account has its
/// block, with a data length that matches its data, and every reference points at an earlier full
/// account.
pub open spec fn program_accounts_wf(accounts: Seq<Option<AccountRegion>>, account_references: Seq<u8>) -> bool {
    &&& accounts.len() == account_references.len()
    &&& forall|i: int|
        0 <= i < accounts.len() ==> {
            let r = #[trigger] account_references[i];
            if r == NOT_A_DUPLICATE {
                accounts[i] matches Some(region) && region.wf()
            } else {
                &&& (r as int) < i
                &&& account_references[r as int] == NOT_A_DUPLICATE
            }
        }
}

/// The entry that account `account_idx` resolves to, for a type that accepts references to
/// the entries whose bits are set in `allowed_references_mask`.
pub open spec fn resolve_with_references(
    account_references: Seq<u8>,
    allowed_references_mask: u64,
    account_idx: int,
) -> Result<u8, ProgramError> {
    let r = account_references[account_idx];
    if r == NOT_A_DUPLICATE {
        Ok(account_idx as u8)
    } else if r < 64 && allowed_references_mask & (1u64 << r) != 0 {
        Ok(r)
    } else {
        Err(ProgramError::InvalidAccountData)
    }
}

/// The entry that account `account_idx` resolves to, for a type that accepts no references.
pub open spec fn resolve_no_references(account_references: Seq<u8>, account_idx: int) -> Result<
    u8,
    ProgramError,
> {
    if account_references[account_idx] == NOT_A_DUPLICATE {
        Ok(account_idx as u8)
    } else {
        Err(ProgramError::AccountBorrowFailed)
    }
}

/// The account block of a full account entry.
pub open spec fn region_at(accounts: Seq<Option<AccountRegion>>, idx: int) -> AccountRegion {
    accounts[idx]->Some_0
}

/// In a consistent account list, an account always resolves to a full account entry at or before
/// it, with its account block: a reference is only followed to an earlier full account, and an
/// account that accepts no references resolves to itself or not at all.
pub proof fn lemma_resolved_entry_is_full(
    accounts: Seq<Option<AccountRegion>>,
    account_references: Seq<u8>,
    allowed_references_mask: u64,
    account_idx: u8,
)
    requires
        program_accounts_wf(accounts, account_references),
        (account_idx as int) < account_references.len(),
    ensures
        resolve_with_references(account_references, allowed_references_mask, account_idx as int)
            matches Ok(i) ==> {
            &&& i <= account_idx
            &&& account_references[i as int] == NOT_A_DUPLICATE
            &&& accounts[i as int] matches Some(region) && region.wf()
        },
        resolve_no_references(account_references, account_idx as int) matches Ok(i) ==> {
            &&& i == account_idx
            &&& account_references[i as int] == NOT_A_DUPLICATE
            &&& accounts[i as int] matches Some(region) && region.wf()
        },
{
    let r = account_references[account_idx as int];
    if r != NOT_A_DUPLICATE {
        assert(account_references[r as int] == NOT_A_DUPLICATE);
    }
}

/// Given the account list, constructs an account object for the account at `account_idx`.
pub trait ProgramAccountParser: Sized {
    /// Constructs `Self` for the account at `account_idx`.  Types that allow duplicate references
    /// follow a reference only when the `allowed_references_mask` bit of its target is set; types
    /// that do not allow references refuse any.
    fn parse(
        accounts: &[Option<AccountRegion>],
        account_references: &[u8],
        allowed_references_mask: u64,
        account_idx: u8,
    ) -> (r: Result<Self, ProgramError>)
        requires
            program_accounts_wf(accounts@, account_references@),
            (account_idx as int) < account_references@.len(),
    ;
}

/// Resolves a possible duplicate reference for the account at `start_account_idx`, allowing
/// references to the entries whose bits are set in `allowed_references_mask`, then calls `parse`
/// once on the resolved entry.
pub fn parse_single_account_with_references<'a, T, Parse>(
    accounts: &'a [Option<AccountRegion>],
    account_references: &[u8],
    allowed_references_mask: u64,
    start_account_idx: u8,
    parse: Parse,
) -> (r: Result<T, ProgramError>) where
    Parse: FnOnce(&'a [Option<AccountRegion>], u8) -> Result<T, ProgramError>,

    requires
        program_accounts_wf(accounts@, account_references@),
        (start_account_idx as int) < account_references@.len(),
        forall|i: u8|
            (i as int) < account_references@.len() && account_references@[i as int]
                == NOT_A_DUPLICATE ==> call_requires(parse, (accounts, i)),
    ensures
        match resolve_with_references(
            account_references@,
            allowed_references_mask,
            start_account_idx as int,
        ) {
            Ok(i) => call_ensures(parse, (accounts, i), r),
            Err(e) => r == Err::<T, ProgramError>(e),
        },
{
    let mut account_idx = start_account_idx;
    let reference_idx = account_references[account_idx as usize];
    if reference_idx != NOT_A_DUPLICATE {
        if reference_idx >= 64 || allowed_references_mask & (1u64 << reference_idx) == 0 {
            return Err(ProgramError::InvalidAccountData);
        }
        account_idx = reference_idx;
    }
    parse(accounts, account_idx)
}

/// Refuses a duplicate reference for the account at `account_idx`, then calls `parse` once on
/// it.
pub fn parse_single_account_no_references<'a, T, Parse>(
    accounts: &'a [Option<AccountRegion>],
    account_references: &[u8],
    account_idx: u8,
    parse: Parse,
) -> (r: Result<T, ProgramError>) where
    Parse: FnOnce(&'a [Option<AccountRegion>], u8) -> Result<T, ProgramError>,

    requires
        program_accounts_wf(accounts@, account_references@),
        (account_idx as int) < account_references@.len(),
        forall|i: u8|
            (i as int) < account_references@.len() && account_references@[i as int]
                == NOT_A_DUPLICATE ==> call_requires(parse, (accounts, i)),
    ensures
        match resolve_no_references(account_references@, account_idx as int) {
            Ok(i) => call_ensures(parse, (accounts, i), r),
            Err(e) => r == Err::<T, ProgramError>(e),
        },
{
    if account_references[account_idx as usize] != NOT_A_DUPLICATE {
        return Err(ProgramError::AccountBorrowFailed);
    }
    parse(accounts, account_idx)
}

} // verus!
