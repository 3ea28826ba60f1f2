//! Account types that the program knows how to initialize.

use vstd::prelude::*;

use crate::program_error::ProgramError;

use super::AccountContent;

verus! {

/// Implemented for account types the program can initialize.  Accounts a program only reads do
/// not need it.
pub trait Initializable: AccountContent {
    /// Arguments needed to initialize account bytes to represent a valid state of `Self`.
    type Init;

    /// What [`Initializable::initialize_bytes`] does with the account bytes `data` and the
    /// arguments `state`: the bytes it leaves in the account, or the error it returns.
    /// Implementations define it; the default leaves it unspecified.
    open spec fn spec_initialize_bytes(state: Self::Init, data: Seq<u8>) -> Result<
        Seq<u8>,
        ProgramError,
    > {
        arbitrary()
    }

    /// Given the bytes of an account that is not initialized, initializes them according to
    /// `state`.  Writes the discriminator as well as the content bytes.
    ///
    /// Checks that `data` has enough space for the discriminator and the content, and returns
    /// `ProgramError::AccountDataTooSmall` when it does not.  After a successful initialization
    /// the account is reported as initialized.
    fn initialize_bytes(state: Self::Init, data: &mut [u8]) -> (r: Result<(), ProgramError>)
        requires
            Self::spec_is_initialized(old(data)@) == Ok::<bool, ProgramError>(false),
        ensures
            match Self::spec_initialize_bytes(state, old(data)@) {
                Ok(bytes) => r is Ok && final(data)@ == bytes,
                Err(e) => r == Err::<(), ProgramError>(e),
            },
            final(data)@.len() == old(data)@.len(),
            r is Ok ==> Self::spec_is_initialized(final(data)@) == Ok::<bool, ProgramError>(true),
    ;
}

/// Names the type a mutable reference points to: for `&mut T`, `SizedSelf` is `T`.  Lets an
/// account type whose mutable access is a reference name the value type that initialization
/// writes.
pub trait ContentIsSizedSelf<'account>: Sized {
    type SizedSelf;
}

impl<'account, T: Sized> ContentIsSizedSelf<'account> for &'account mut T {
    type SizedSelf = T;
}

/// Initializes the bytes of an account whose content takes `content_size` bytes after the
/// discriminator: checks that `data` has room for the discriminator and the content, returning
/// `AccountDataTooSmall` when it does not, writes `T::DISCRIMINATOR`, and then hands the content
/// bytes to `init_with_self`, returning what it returns.
pub fn initialize_bytes_with_sized_self<T, F>(
    state: T::Init,
    data: &mut [u8],
    content_size: usize,
    init_with_self: F,
) -> (r: Result<(), ProgramError>) where
    T: Initializable,
    F: FnOnce(T::Init, &mut [u8]) -> Result<(), ProgramError>,

    requires
        forall|content: &mut [u8]| call_requires(init_with_self, (state, content)),
    ensures
        old(data)@.len() < T::DISCRIMINATOR@.len() + content_size ==> r == Err::<(), ProgramError>(
            ProgramError::AccountDataTooSmall,
        ) && final(data)@ == old(data)@,
        old(data)@.len() >= T::DISCRIMINATOR@.len() + content_size ==> exists|
            content: &mut [u8],
        |
            {
                &&& content@ == old(data)@.subrange(
                    T::DISCRIMINATOR@.len() as int,
                    T::DISCRIMINATOR@.len() + content_size,
                )
                &&& call_ensures(init_with_self, (state, content), r)
                &&& final(data)@ == T::DISCRIMINATOR@ + final(content)@ + old(data)@.subrange(
                    T::DISCRIMINATOR@.len() + content_size,
                    old(data)@.len() as int,
                )
            },
{
    let discriminator_len = T::DISCRIMINATOR.len();
    if data.len() < discriminator_len || data.len() - discriminator_len < content_size {
        return Err(ProgramError::AccountDataTooSmall);
    }
    let mut i: usize = 0;
    while i < discriminator_len
        invariant
            discriminator_len == T::DISCRIMINATOR@.len(),
            discriminator_len <= data@.len(),
            data@.len() == old(data)@.len(),
            0 <= i <= discriminator_len,
            forall|j: int| 0 <= j < i ==> data@[j] == T::DISCRIMINATOR@[j],
            forall|j: int| i <= j < data@.len() ==> data@[j] == old(data)@[j],
        decreases discriminator_len - i,
    {
        data[i] = T::DISCRIMINATOR[i];
        i = i + 1;
    }
    assert(data@.subrange(0, discriminator_len as int) =~= T::DISCRIMINATOR@);
    let ghost written = data@;
    let (_discriminator, rest) = data.split_at_mut(discriminator_len);
    let (content, _tail) = rest.split_at_mut(content_size);
    assert(written.subrange(discriminator_len + content_size, written.len() as int)
        =~= old(data)@.subrange(discriminator_len + content_size, old(data)@.len() as int));
    assert(content@ =~= old(data)@.subrange(
        discriminator_len as int,
        discriminator_len + content_size,
    ));
    init_with_self(state, content)
}

} // verus!
