//! Decisions the generated entrypoint code depends on.

use vstd::prelude::*;

verus! {

/// The largest of `counts`, or `0` when there are none.
pub open spec fn spec_max(counts: Seq<usize>) -> int
    decreases counts.len(),
{
    if counts.len() == 0 {
        0
    } else {
        vstd::math::max(spec_max(counts.drop_last()), counts.last() as int)
    }
}

/// Size of the account lists the generated entrypoint allocates: the largest number of accounts
/// any instruction case takes, or `0` when there are no cases.
pub fn max_num_accounts(account_counts: &[usize]) -> (r: usize)
    ensures
        r == spec_max(account_counts@),
{
    let mut r: usize = 0;
    let mut i: usize = 0;
    while i < account_counts.len()
        invariant
            0 <= i <= account_counts@.len(),
            r == spec_max(account_counts@.take(i as int)),
        decreases account_counts@.len() - i,
    {
        assert(account_counts@.take(i + 1).drop_last() =~= account_counts@.take(i as int));
        if account_counts[i] > r {
            r = account_counts[i];
        }
        i = i + 1;
    }
    assert(account_counts@.take(account_counts@.len() as int) =~= account_counts@);
    r
}

/// Every instruction case fits in the account lists: the allocated size is at least the number of
/// accounts of each case.
pub proof fn lemma_max_bounds_each(counts: Seq<usize>, i: int)
    requires
        0 <= i < counts.len(),
    ensures
        counts[i] <= spec_max(counts),
    decreases counts.len(),
{
    if i < counts.len() - 1 {
        lemma_max_bounds_each(counts.drop_last(), i);
    }
}

/// The allocated size is the size of one of the cases (the largest), not more than needed: for
/// cases, it is the account count of one of them.
pub proof fn lemma_max_is_a_case(counts: Seq<usize>)
    ensures
        counts.len() == 0 ==> spec_max(counts) == 0,
        counts.len() > 0 ==> exists|i: int| 0 <= i < counts.len() && spec_max(counts) == counts[i],
    decreases counts.len(),
{
    if counts.len() > 0 {
        let prefix = counts.drop_last();
        lemma_max_is_a_case(prefix);
        if spec_max(counts) == counts.last() as int {
            assert(counts[counts.len() - 1] == counts.last());
        } else {
            let i = choose|i: int| 0 <= i < prefix.len() && spec_max(prefix) == prefix[i];
            assert(prefix[i] == counts[i]);
        }
    }
}

} // verus!
