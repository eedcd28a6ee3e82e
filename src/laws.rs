//! What holds of the counts and greetings over many requests.

use vstd::prelude::*;
use crate::counter::{count_after, next_count};
use crate::greeting::{chosen_name, default_name, greeting_text};

verus! {

/// Counts handed out by a greeter that starts at `initial` and handles its
/// requests one after another: the n-th request (counting from one) reports
/// `initial + n - 1`, as long as the count has not wrapped.
///
/// `reported[i]` is the count that request `i + 1` reported; each request
/// reports the count that the previous one left, one past its own.
pub proof fn lemma_sequential_counts(initial: usize, reported: Seq<usize>, n: nat)
    requires
        1 <= n <= reported.len(),
        reported[0] == initial,
        forall|i: int| 0 <= i < reported.len() - 1 ==> #[trigger] reported[i + 1] == next_count(reported[i]),
        initial + n - 1 <= usize::MAX,
    ensures
        reported[n - 1] == initial + n - 1,
    decreases n,
{
    if n > 1 {
        lemma_sequential_counts(initial, reported, (n - 1) as nat);
        assert(reported[(n - 2) + 1] == next_count(reported[n - 2]));
    }
}

/// After `k` increments from `initial` without wrapping, the count is
/// `initial + k`.
pub proof fn lemma_count_after(initial: usize, k: nat)
    requires
        initial + k <= usize::MAX,
    ensures
        count_after(initial, k) == initial + k,
    decreases k,
{
    if k > 0 {
        lemma_count_after(initial, (k - 1) as nat);
    }
}

/// A request that names nobody is answered with a body that begins
/// `Hello world,`.
pub proof fn lemma_default_greeting(times_invoked: nat)
    ensures
        greeting_text(chosen_name(None), times_invoked).take(12) == "Hello world,"@,
{
    reveal_strlit("Hello ");
    reveal_strlit("world");
    reveal_strlit(", welcome to the actix tower-service test ! I've been invoked ");
    reveal_strlit("Hello world,");
    assert(chosen_name(None) == default_name());
    assert(greeting_text(chosen_name(None), times_invoked).take(12) =~= "Hello world,"@);
}

/// A request that names `name` is answered with a body that begins
/// `Hello `, then the name, then a comma.
pub proof fn lemma_named_greeting(name: &str, times_invoked: nat)
    ensures
        greeting_text(chosen_name(Some(name)), times_invoked).take(name@.len() + 7int)
            == "Hello "@ + name@ + ","@,
{
    reveal_strlit("Hello ");
    reveal_strlit(",");
    reveal_strlit(", welcome to the actix tower-service test ! I've been invoked ");
    assert(greeting_text(chosen_name(Some(name)), times_invoked).take(name@.len() + 7int)
        =~= "Hello "@ + name@ + ","@);
}

/// Two requests in a row never report the same count: each increment moves
/// the counter to a different value.
pub proof fn lemma_consecutive_counts_differ(count: usize)
    ensures
        next_count(count) != count,
{
}

/// `k` increments of one counter that starts at `initial`, in whatever order
/// the concurrent callers' increments take effect, hand out `k` distinct
/// values, which together are exactly `initial ..= initial + k - 1`, as long as
/// the count does not wrap.
pub proof fn lemma_counts_cover_range(initial: usize, k: nat)
    requires
        initial + k <= usize::MAX + 1,
    ensures
        forall|i: nat, j: nat|
            i < k && j < k && i != j ==> #[trigger] count_after(initial, i) != #[trigger] count_after(initial, j),
        forall|i: nat| i < k ==> initial <= #[trigger] count_after(initial, i) < initial + k,
        Set::new(|v: usize| exists|i: nat| i < k && #[trigger] count_after(initial, i) == v)
            == Set::new(|v: usize| initial <= v < initial + k),
{
    assert forall|i: nat| i < k implies #[trigger] count_after(initial, i) == initial + i by {
        lemma_count_after(initial, i);
    }
    let handed = Set::new(|v: usize| exists|i: nat| i < k && #[trigger] count_after(initial, i) == v);
    let range = Set::new(|v: usize| initial <= v < initial + k);
    assert forall|v: usize| #[trigger] range.contains(v) implies handed.contains(v) by {
        let i = (v - initial) as nat;
        assert(count_after(initial, i) == v);
    }
    assert(handed =~= range);
}

} // verus!
