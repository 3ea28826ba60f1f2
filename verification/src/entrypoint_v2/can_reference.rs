//! Data sharing between account types.
//!
//! When the same account is passed to a program more than once, the later entries of the account
//! list reference the first one.  Whether an account object of type `From` may use the data of an
//! account object of type `To` is decided by two scores: `<From as CanReference<To>>` and
//! `<To as CanReference<From>>`.  The scores are added, and sharing is allowed when the sum is
//! positive.  A missing `CanReference` implementation counts as a score of `0`.
//!
//! As the two scores are added, the relation is symmetric by construction.

use core::marker::PhantomData;

use vstd::prelude::*;

use crate::account::{
    AccountContent, AnyAccount, Exclusive, NewAccount, OwnAccount, SysvarAccount,
    SysvarAccountContent,
};

verus! {

/// Sharing score of `Self` towards the account type `To`.
pub trait CanReference<To> {
    /// The score returned by [`CanReference::can_reference`].
    spec fn spec_can_reference() -> i8;

    fn can_reference() -> (r: i8)
        ensures
            r == Self::spec_can_reference(),
    ;
}

/// Helper used to pick a default score of `0` when `CanReference` is not implemented for a pair
/// of types: calling `score()` on a value of this type picks the `CanReference` score when there
/// is one, and the default through a reference otherwise.
#[derive(Debug)]
pub struct ComputeCanReference<From, To> {
    _from: PhantomData<From>,
    _to: PhantomData<To>,
}

impl<From, To> ComputeCanReference<From, To> {
    #[inline(always)]
    pub fn dispatcher() -> (r: Self) {
        Self { _from: PhantomData, _to: PhantomData }
    }
}

/// Sharing score of `From` towards `To`, with a default of `0`.
pub trait CanReferenceScore<From, To> {
    /// The score returned by [`CanReferenceScore::score`].
    spec fn spec_score() -> i8;

    fn score(self) -> (r: i8)
        ensures
            r == Self::spec_score(),
    ;
}

impl<From: CanReference<To>, To> CanReferenceScore<From, To> for ComputeCanReference<From, To> {
    open spec fn spec_score() -> i8 {
        From::spec_can_reference()
    }

    #[inline(always)]
    fn score(self) -> i8 {
        From::can_reference()
    }
}

impl<'a, From, To> CanReferenceScore<From, To> for &'a ComputeCanReference<From, To> {
    open spec fn spec_score() -> i8 {
        0
    }

    #[inline(always)]
    fn score(self) -> i8 {
        0
    }
}

/// Two account types share data when the sum of their scores towards each other is positive.
pub open spec fn spec_can_share(from_to: i8, to_from: i8) -> bool {
    from_to + to_from > 0
}

/// Decides if two account types can share data, given the score of each towards the other.  The
/// sum saturates at the bounds of `i8`, which never changes its sign.
pub fn can_share(from_to: i8, to_from: i8) -> (r: bool)
    ensures
        r == spec_can_share(from_to, to_from),
{
    (from_to as i16) + (to_from as i16) > 0
}

/// Data sharing is symmetric: `From` can use the data of `To` exactly when `To` can use the data
/// of `From`, for every pair of scores.
pub proof fn lemma_can_share_symmetric(from_to: i8, to_from: i8)
    ensures
        spec_can_share(from_to, to_from) == spec_can_share(to_from, from_to),
{
}

/// Sharing grows with the scores and depends on nothing else: raising either score never stops
/// two types from sharing; two types without `CanReference` scores (`0` each) do not share, a
/// shared pair (`1` each) and a single positive score against a missing one do, and an exclusive
/// score (`-2`) is outweighed by no score up to `1`.
pub proof fn lemma_sharing_scores(a: i8, b: i8, c: i8)
    ensures
        a <= c && spec_can_share(a, b) ==> spec_can_share(c, b),
        a <= c && spec_can_share(b, a) ==> spec_can_share(b, c),
        !spec_can_share(0, 0),
        spec_can_share(1, 1),
        spec_can_share(1, 0),
        b <= 1 ==> !spec_can_share(-2i8, b) && !spec_can_share(b, -2i8),
{
}

/// Bit `k` of `mask` is set.
pub open spec fn has_bit(mask: u64, k: u64) -> bool {
    mask & (1u64 << k) != 0
}

/// The set of earlier accounts an account can reference: index `j` is in the set exactly when
/// the account can share data with the account at index `j`.
pub open spec fn spec_allowed_references(pair_scores: Seq<(i8, i8)>) -> Set<int> {
    Set::new(
        |j: int| 0 <= j < pair_scores.len() && spec_can_share(pair_scores[j].0, pair_scores[j].1),
    )
}

/// Builds the allowed references mask of an account, given, for each earlier account `j` in the
/// instruction's account list, the pair of sharing scores between the two account types.
pub fn allowed_references_mask(pair_scores: &[(i8, i8)]) -> (r: u64)
    requires
        pair_scores@.len() <= 64,
    ensures
        forall|k: u64|
            k < 64 ==> (#[trigger] has_bit(r, k) <==> spec_allowed_references(
                pair_scores@,
            ).contains(k as int)),
{
    let mut mask: u64 = 0;
    let mut j: usize = 0;
    assert forall|k: u64| k < 64 implies !#[trigger] has_bit(mask, k) by {
        assert(k < 64 ==> (0u64 & (1u64 << k)) == 0) by (bit_vector);
    }
    while j < pair_scores.len()
        invariant
            pair_scores@.len() <= 64,
            0 <= j <= pair_scores@.len(),
            forall|k: u64|
                k < 64 ==> (#[trigger] has_bit(mask, k) <==> ((k as int) < j && spec_can_share(
                    pair_scores@[k as int].0,
                    pair_scores@[k as int].1,
                ))),
        decreases pair_scores@.len() - j,
    {
        let (from_to, to_from) = pair_scores[j];
        assert(pair_scores@[j as int] == (from_to, to_from));
        let old_mask = mask;
        let jj = j as u64;
        let share = can_share(from_to, to_from);
        if share {
            mask = mask | (1u64 << jj);
        }
        assert forall|k: u64| k < 64 implies (#[trigger] has_bit(mask, k) <==> ((k as int) < j + 1
            && spec_can_share(pair_scores@[k as int].0, pair_scores@[k as int].1))) by {
            assert(k < 64 && jj < 64 ==> ((old_mask | (1u64 << jj)) & (1u64 << k) != 0 <==> (
            old_mask & (1u64 << k) != 0 || k == jj))) by (bit_vector);
            assert(has_bit(old_mask, k) <==> ((k as int) < j && spec_can_share(
                pair_scores@[k as int].0,
                pair_scores@[k as int].1,
            )));
        }
        j = j + 1;
    }
    assert forall|k: u64| k < 64 implies (#[trigger] has_bit(mask, k)
        <==> spec_allowed_references(pair_scores@).contains(k as int)) by {
        assert(has_bit(mask, k) <==> ((k as int) < j && spec_can_share(
            pair_scores@[k as int].0,
            pair_scores@[k as int].1,
        )));
    }
    mask
}

/// The sharing rules between the account types: shared accounts that only read account data
/// share with each other (a shared `AnyAccount` with a shared `AnyAccount` or `OwnAccount`, shared
/// `OwnAccount`s of any content types with each other, a shared `SysvarAccount` with one of the
/// same sysvar), each giving a positive score towards the other; an account held exclusively
/// shares with no account type whose score towards it is at most `1`, the highest score any type
/// gives.
pub proof fn lemma_account_type_sharing<C, D, S, To>()
    where
        C: AccountContent,
        D: AccountContent,
        S: SysvarAccountContent,
    ensures
        <AnyAccount as CanReference<AnyAccount>>::spec_can_reference() > 0,
        spec_can_share(
            <AnyAccount as CanReference<AnyAccount>>::spec_can_reference(),
            <AnyAccount as CanReference<AnyAccount>>::spec_can_reference(),
        ),
        <OwnAccount<C> as CanReference<AnyAccount>>::spec_can_reference() > 0,
        <AnyAccount as CanReference<OwnAccount<C>>>::spec_can_reference() > 0,
        spec_can_share(
            <OwnAccount<C> as CanReference<AnyAccount>>::spec_can_reference(),
            <AnyAccount as CanReference<OwnAccount<C>>>::spec_can_reference(),
        ),
        <OwnAccount<C> as CanReference<OwnAccount<D>>>::spec_can_reference() > 0,
        spec_can_share(
            <OwnAccount<C> as CanReference<OwnAccount<D>>>::spec_can_reference(),
            <OwnAccount<D> as CanReference<OwnAccount<C>>>::spec_can_reference(),
        ),
        <SysvarAccount<S> as CanReference<SysvarAccount<S>>>::spec_can_reference() > 0,
        spec_can_share(
            <SysvarAccount<S> as CanReference<SysvarAccount<S>>>::spec_can_reference(),
            <SysvarAccount<S> as CanReference<SysvarAccount<S>>>::spec_can_reference(),
        ),
        forall|score: i8|
            score <= 1 ==> {
                &&& !spec_can_share(
                    <Exclusive<AnyAccount> as CanReference<To>>::spec_can_reference(),
                    score,
                )
                &&& !spec_can_share(
                    <Exclusive<OwnAccount<C>> as CanReference<To>>::spec_can_reference(),
                    score,
                )
                &&& !spec_can_share(
                    <Exclusive<NewAccount<C>> as CanReference<To>>::spec_can_reference(),
                    score,
                )
                &&& !spec_can_share(
                    <Exclusive<SysvarAccount<S>> as CanReference<To>>::spec_can_reference(),
                    score,
                )
            },
{
}

} // verus!
