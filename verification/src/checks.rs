//! The first failure among checks done in order.
use vstd::prelude::*;

verus! {

/// The failure of the first of the checks `check(0)`, ..., `check(n - 1)` that
/// fails, or `None` when all of them pass.
pub open spec fn first_failure<E>(n: nat, check: spec_fn(int) -> Option<E>) -> Option<E>
    decreases n,
{
    if n == 0 {
        None
    } else {
        match first_failure((n - 1) as nat, check) {
            Some(e) => Some(e),
            None => check(n - 1),
        }
    }
}

/// Once a failure is found, checking more does not change it.
pub proof fn lemma_first_failure_stays<E>(check: spec_fn(int) -> Option<E>, n: nat, m: nat)
    requires
        n <= m,
        first_failure(n, check) is Some,
    ensures
        first_failure(m, check) == first_failure(n, check),
    decreases m - n,
{
    if m > n {
        lemma_first_failure_stays(check, n, (m - 1) as nat);
    }
}

/// No failure means that every check passed.
pub proof fn lemma_no_failure<E>(check: spec_fn(int) -> Option<E>, n: nat, i: int)
    requires
        first_failure(n, check) is None,
        0 <= i < n,
    ensures
        check(i) is None,
    decreases n,
{
    if i < n - 1 {
        lemma_no_failure(check, (n - 1) as nat, i);
    }
}

/// A check that fails among the first `n` makes a failure.
pub proof fn lemma_failure_found<E>(check: spec_fn(int) -> Option<E>, n: nat, i: int)
    requires
        0 <= i < n,
        check(i) is Some,
    ensures
        first_failure(n, check) is Some,
    decreases n,
{
    if i < n - 1 {
        lemma_failure_found(check, (n - 1) as nat, i);
    }
}

/// Checks that all pass make no failure.
pub proof fn lemma_all_pass<E>(check: spec_fn(int) -> Option<E>, n: nat)
    requires
        forall|i: int| 0 <= i < n ==> #[trigger] check(i) is None,
    ensures
        first_failure(n, check) is None,
    decreases n,
{
    if n > 0 {
        lemma_all_pass(check, (n - 1) as nat);
    }
}

} // verus!
