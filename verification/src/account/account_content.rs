//! Types stored in accounts as a top level entity: account type checks and initialization checks.
//!
//! Common convention is to use a prefix of the account bytes, the "discriminator", as an identifier
//! of the account type, within the set of accounts owned by the same program.  A discriminator
//! that holds only zero bytes identifies an account that has not been initialized yet.
//!
//! [`is_initialized_by_discriminator`] and [`is_of_type_by_discriminator`] implement the checks of
//! [`AccountContent`] with the [`AccountContent::DISCRIMINATOR`] value as the prefix of the account
//! data.

use vstd::prelude::*;

use crate::program_error::ProgramError;

verus! {

/// Initialization check that treats `discriminator` as the prefix of `data`: too short data is an
/// error, otherwise the account is initialized when any of the prefix bytes is non-zero.
pub open spec fn discriminator_is_initialized(discriminator: Seq<u8>, data: Seq<u8>) -> Result<
    bool,
    ProgramError,
> {
    if data.len() < discriminator.len() {
        Err(ProgramError::AccountDataTooSmall)
    } else {
        Ok(exists|i: int| 0 <= i < discriminator.len() && data[i] != 0)
    }
}

/// Type check that treats `discriminator` as the prefix of `data`.
pub open spec fn discriminator_matches(discriminator: Seq<u8>, data: Seq<u8>) -> bool {
    data.len() >= discriminator.len() && data.subrange(0, discriminator.len() as int)
        == discriminator
}

/// Types that can be stored in accounts as a top level entity.
///
/// By default the checks treat [`AccountContent::DISCRIMINATOR`] as the prefix of the account
/// data: the spec functions default to [`discriminator_is_initialized`] and
/// [`discriminator_matches`], and implementations can write the checks as calls of
/// [`is_initialized_by_discriminator`] and [`is_of_type_by_discriminator`].
pub trait AccountContent {
    /// Discriminator bytes used for accounts holding `Self`.  All account types of a program need
    /// distinct discriminators, and a discriminator must hold at least one non-zero byte.
    const DISCRIMINATOR: &'static [u8];

    /// What [`AccountContent::is_initialized`] returns for the given account bytes.  By default,
    /// the discriminator check of [`discriminator_is_initialized`].
    open spec fn spec_is_initialized(data: Seq<u8>) -> Result<bool, ProgramError> {
        discriminator_is_initialized(Self::DISCRIMINATOR@, data)
    }

    /// What [`AccountContent::is_of_type`] returns for the given account bytes.  By default, the
    /// discriminator check of [`discriminator_matches`].
    open spec fn spec_is_of_type(data: Seq<u8>) -> bool {
        discriminator_matches(Self::DISCRIMINATOR@, data)
    }

    /// Given the account bytes, checks if the account was initialized.  Returns
    /// `ProgramError::AccountDataTooSmall` if `data` is too short for the check to be meaningful.
    fn is_initialized(data: &[u8]) -> (r: Result<bool, ProgramError>)
        ensures
            r == Self::spec_is_initialized(data@),
    ;

    /// Given the account bytes, checks if the account holds a `Self`.  Returns `false` for
    /// uninitialized accounts.  Can only be called on bytes for which `is_initialized()` returned
    /// `Ok(_)`.
    fn is_of_type(data: &[u8]) -> (r: bool)
        requires
            Self::spec_is_initialized(data@) is Ok,
        ensures
            r == Self::spec_is_of_type(data@),
            r ==> Self::spec_is_initialized(data@) == Ok::<bool, ProgramError>(true),
    ;

    /// The typed view of the account data that [`AccountContent::content`] gives, such as
    /// `&'data Self` or a value decoded from the bytes.
    type AsContent<'data>;

    /// The typed view of the account data that [`AccountContent::content_mut`] gives, such as
    /// `&'data mut Self` or a wrapper over the content bytes.
    type AsContentMut<'data>;

    /// What [`AccountContent::content`] gives for the account bytes `data`.  Implementations
    /// define it; the default leaves it unspecified.
    open spec fn spec_content<'data>(data: Seq<u8>) -> Self::AsContent<'data> {
        arbitrary()
    }

    /// What [`AccountContent::content_mut`] gives for the account bytes `data`.  Implementations
    /// define it; the default leaves it unspecified.
    open spec fn spec_content_mut<'data>(data: Seq<u8>) -> Self::AsContentMut<'data> {
        arbitrary()
    }

    /// Gives the content of the account bytes `data`, past the discriminator, as the typed view of
    /// `Self`.  The bytes are read, not reinterpreted in place, so any bytes can be given; what the
    /// view holds for bytes that are not of type `Self` is up to the implementation.
    fn content<'data>(data: &'data [u8]) -> (r: Self::AsContent<'data>)
        ensures
            r == Self::spec_content::<'data>(data@),
    ;

    /// Gives write access to the content of the account bytes `data` as the typed view of `Self`.
    fn content_mut<'data>(data: &'data mut [u8]) -> (r: Self::AsContentMut<'data>)
        ensures
            r == Self::spec_content_mut::<'data>(old(data)@),
    ;
}

/// The initialization check for accounts whose data starts with the discriminator: too short data
/// is an error, otherwise the account is initialized when any discriminator byte is non-zero.
pub fn is_initialized_by_discriminator(discriminator: &[u8], data: &[u8]) -> (r: Result<
    bool,
    ProgramError,
>)
    ensures
        r == discriminator_is_initialized(discriminator@, data@),
{
    let discriminator_len = discriminator.len();
    if data.len() < discriminator_len {
        return Err(ProgramError::AccountDataTooSmall);
    }
    let mut i: usize = 0;
    while i < discriminator_len
        invariant
            discriminator_len == discriminator@.len(),
            discriminator_len <= data@.len(),
            0 <= i <= discriminator_len,
            forall|j: int| 0 <= j < i ==> data@[j] == 0,
        decreases discriminator_len - i,
    {
        if data[i] != 0 {
            assert(data@[i as int] != 0);
            return Ok(true);
        }
        i = i + 1;
    }
    Ok(false)
}

/// The type check for accounts whose data starts with the discriminator: the data prefix equals
/// the discriminator.
pub fn is_of_type_by_discriminator(discriminator: &[u8], data: &[u8]) -> (r: bool)
    ensures
        r == discriminator_matches(discriminator@, data@),
{
    let discriminator_len = discriminator.len();
    if data.len() < discriminator_len {
        return false;
    }
    let mut i: usize = 0;
    while i < discriminator_len
        invariant
            discriminator_len == discriminator@.len(),
            discriminator_len <= data@.len(),
            0 <= i <= discriminator_len,
            forall|j: int| 0 <= j < i ==> data@[j] == discriminator@[j],
        decreases discriminator_len - i,
    {
        if data[i] != discriminator[i] {
            assert(data@.subrange(0, discriminator_len as int)[i as int] != discriminator@[i as int]);
            return false;
        }
        i = i + 1;
    }
    assert(data@.subrange(0, discriminator_len as int) =~= discriminator@);
    true
}

/// With a discriminator that holds a non-zero byte, bytes that carry the discriminator are
/// initialized: a type check never accepts an uninitialized account.
pub proof fn lemma_matching_discriminator_is_initialized(discriminator: Seq<u8>, data: Seq<u8>)
    requires
        exists|i: int| 0 <= i < discriminator.len() && discriminator[i] != 0,
        discriminator_matches(discriminator, data),
    ensures
        discriminator_is_initialized(discriminator, data) == Ok::<bool, ProgramError>(true),
{
    let i = choose|i: int| 0 <= i < discriminator.len() && discriminator[i] != 0;
    assert(data.subrange(0, discriminator.len() as int)[i] == data[i]);
}

/// The discriminator type check compares every byte of the prefix: data that starts with the
/// discriminator, followed by anything, is of the type; data shorter than the discriminator, or
/// that differs from it in any byte of the prefix, zero or not, is not; and two discriminators of
/// the same length that differ in a byte never both match the same data.
pub proof fn lemma_type_check_is_prefix_equality(discriminator: Seq<u8>, data: Seq<u8>)
    ensures
        forall|rest: Seq<u8>| #[trigger] discriminator_matches(discriminator, discriminator + rest),
        data.len() < discriminator.len() ==> !discriminator_matches(discriminator, data),
        forall|i: int|
            0 <= i < discriminator.len() && i < data.len() && #[trigger] data[i] != discriminator[i]
                ==> !discriminator_matches(discriminator, data),
        forall|other: Seq<u8>|
            other.len() == discriminator.len() && other != discriminator ==> !(
            #[trigger] discriminator_matches(other, data) && discriminator_matches(
                discriminator,
                data,
            )),
{
    assert forall|rest: Seq<u8>| #[trigger] discriminator_matches(
        discriminator,
        discriminator + rest,
    ) by {
        assert((discriminator + rest).subrange(0, discriminator.len() as int) =~= discriminator);
    }
    assert forall|i: int|
        0 <= i < discriminator.len() && i < data.len() && #[trigger] data[i] != discriminator[i]
            implies !discriminator_matches(discriminator, data) by {
        if data.len() >= discriminator.len() {
            assert(data.subrange(0, discriminator.len() as int)[i] == data[i]);
        }
    }
}

/// The discriminator initialization check looks at the prefix bytes only: data shorter than the
/// discriminator is `AccountDataTooSmall`; otherwise the account is initialized exactly when one
/// of those bytes is non-zero, so all-zero data is never initialized and the bytes past the
/// prefix never matter.
pub proof fn lemma_initialization_check_reads_the_prefix(discriminator: Seq<u8>, data: Seq<u8>)
    ensures
        data.len() < discriminator.len() ==> discriminator_is_initialized(discriminator, data)
            == Err::<bool, ProgramError>(ProgramError::AccountDataTooSmall),
        data.len() >= discriminator.len() ==> (discriminator_is_initialized(discriminator, data)
            == Ok::<bool, ProgramError>(true) <==> exists|i: int|
            0 <= i < discriminator.len() && #[trigger] data[i] != 0),
        data.len() >= discriminator.len() && (forall|i: int| 0 <= i < data.len() ==> #[trigger] data[i]
            == 0) ==> discriminator_is_initialized(discriminator, data) == Ok::<bool, ProgramError>(
            false,
        ),
        forall|rest: Seq<u8>|
            data.len() >= discriminator.len() ==> #[trigger] discriminator_is_initialized(
                discriminator,
                data + rest,
            ) == discriminator_is_initialized(discriminator, data),
{
    assert forall|rest: Seq<u8>|
        data.len() >= discriminator.len() implies #[trigger] discriminator_is_initialized(
            discriminator,
            data + rest,
        ) == discriminator_is_initialized(discriminator, data) by {
        assert forall|i: int| 0 <= i < discriminator.len() implies (data + rest)[i] == data[i] by {}
    }
}

} // verus!
