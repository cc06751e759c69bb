//! Tables of a fixed number of slots.

use vstd::prelude::*;

verus! {

/// How many of the first `n` slots are taken.
pub open spec fn taken<T>(s: Seq<Option<T>>, n: int) -> int
    decreases n,
{
    if n <= 0 {
        0
    } else {
        taken(s, n - 1) + if s[n - 1] is Some {
            1int
        } else {
            0
        }
    }
}

/// What the slots hold, in order.
pub open spec fn held<T>(s: Seq<Option<T>>) -> Seq<T>
    decreases s.len(),
{
    if s.len() == 0 {
        Seq::empty()
    } else {
        match s.last() {
            Some(x) => held(s.drop_last()).push(x),
            None => held(s.drop_last()),
        }
    }
}

/// No more slots are taken than there are.
pub proof fn taken_bounds<T>(s: Seq<Option<T>>, n: int)
    requires
        0 <= n,
    ensures
        0 <= taken(s, n) <= n,
    decreases n,
{
    if n > 0 {
        taken_bounds(s, n - 1);
    }
}

/// Filling or freeing a slot changes the count by one.
pub proof fn taken_update<T>(s: Seq<Option<T>>, i: int, x: Option<T>, n: int)
    requires
        0 <= i < s.len(),
        0 <= n <= s.len(),
    ensures
        taken(s.update(i, x), n) == taken(s, n) + if i < n {
            (if x is Some {
                1int
            } else {
                0
            }) - (if s[i] is Some {
                1int
            } else {
                0
            })
        } else {
            0
        },
        i < n && s[i] is Some ==> taken(s, n) >= 1,
        i < n && s[i] is None ==> taken(s, n) < n,
    decreases n,
{
    if n > 0 {
        taken_update(s, i, x, n - 1);
        taken_bounds(s, n - 1);
    }
}

/// There are as many held values as taken slots.
pub proof fn held_count<T>(s: Seq<Option<T>>)
    ensures
        held(s).len() == taken(s, s.len() as int),
    decreases s.len(),
{
    if s.len() > 0 {
        held_count(s.drop_last());
        taken_prefix(s.drop_last(), s, s.len() - 1);
    }
}

proof fn taken_prefix<T>(s: Seq<Option<T>>, t: Seq<Option<T>>, n: int)
    requires
        0 <= n <= s.len(),
        n <= t.len(),
        forall|i: int| 0 <= i < n ==> s[i] == t[i],
    ensures
        taken(s, n) == taken(t, n),
    decreases n,
{
    if n > 0 {
        taken_prefix(s, t, n - 1);
    }
}

/// Free slots are not taken.
pub proof fn none_taken<T>(s: Seq<Option<T>>, n: int)
    requires
        0 <= n <= s.len(),
        forall|i: int| 0 <= i < s.len() ==> s[i] is None,
    ensures
        taken(s, n) == 0,
    decreases n,
{
    if n > 0 {
        none_taken(s, n - 1);
    }
}

} // verus!
