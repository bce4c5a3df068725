//! Minimum-of-sequences gating utility.
//!
//! A barrier reports as "available" the minimum over the current values of a
//! set of dependent sequences.  Over an empty dependency set the minimum is
//! the default sentinel `0`, a deliberate edge case that affects gating when a
//! barrier is constructed before any dependents exist.

use vstd::prelude::*;

verus! {

/// The minimum of a sequence of values, or `0` when the sequence is empty.
pub open spec fn min_of_values(s: Seq<i64>) -> int
    decreases s.len(),
{
    if s.len() == 0 {
        0
    } else if s.len() == 1 {
        s[0] as int
    } else if s[0] <= min_of_values(s.drop_first()) {
        s[0] as int
    } else {
        min_of_values(s.drop_first())
    }
}

/// Over a non-empty set the reported minimum is a lower bound of every
/// dependent value and is itself one of them; over an empty set it is the
/// default sentinel `0`.
pub proof fn lemma_min_of_values_is_min(s: Seq<i64>)
    ensures
        s.len() == 0 ==> min_of_values(s) == 0,
        forall|i: int| 0 <= i < s.len() ==> min_of_values(s) <= s[i],
        s.len() > 0 ==> exists|i: int| 0 <= i < s.len() && min_of_values(s) == s[i],
    decreases s.len(),
{
    if s.len() == 1 {
        assert(min_of_values(s) == s[0]);
    } else if s.len() > 1 {
        lemma_min_of_values_is_min(s.drop_first());
        assert forall|i: int| 0 <= i < s.len() implies min_of_values(s) <= s[i] by {
            if i > 0 {
                assert(s.drop_first()[i - 1] == s[i]);
            }
        }
        if s[0] <= min_of_values(s.drop_first()) {
            assert(min_of_values(s) == s[0]);
        } else {
            let j = choose|j: int|
                0 <= j < s.drop_first().len() && min_of_values(s.drop_first()) == s.drop_first()[j];
            assert(s[j + 1] == s.drop_first()[j]);
            assert(min_of_values(s) == s[j + 1]);
        }
    }
}

/// Computes the smallest current value among `values`; `0` when `values` is
/// empty.
pub fn min_sequence(values: &Vec<i64>) -> (m: i64)
    ensures
        m == min_of_values(values@),
        values@.len() == 0 ==> m == 0,
        forall|i: int| 0 <= i < values@.len() ==> m <= values@[i],
        values@.len() > 0 ==> exists|i: int| 0 <= i < values@.len() && m == values@[i],
{
    proof {
        lemma_min_of_values_is_min(values@);
    }
    if values.len() == 0 {
        return 0;
    }
    let mut m: i64 = values[0];
    let mut i: usize = 1;
    while i < values.len()
        invariant
            1 <= i <= values@.len(),
            m == min_of_values(values@.take(i as int)),
        decreases values@.len() - i,
    {
        proof {
            assert(values@.take(i + 1) =~= values@.take(i as int).push(values@[i as int]));
            lemma_min_push(values@.take(i as int), values@[i as int]);
        }
        if values[i] < m {
            m = values[i];
        }
        i += 1;
    }
    proof {
        assert(values@.take(values@.len() as int) =~= values@);
    }
    m
}

/// Extending a non-empty sequence by one element takes the minimum of the old
/// minimum and the new element.
proof fn lemma_min_push(s: Seq<i64>, x: i64)
    requires
        s.len() >= 1,
    ensures
        min_of_values(s.push(x)) == if x < min_of_values(s) {
            x as int
        } else {
            min_of_values(s)
        },
    decreases s.len(),
{
    if s.len() == 1 {
        assert(s.push(x).drop_first() =~= seq![x]);
        assert(min_of_values(seq![x]) == x);
        assert(min_of_values(s) == s[0]);
    } else {
        lemma_min_push(s.drop_first(), x);
        assert(s.push(x).drop_first() =~= s.drop_first().push(x));
    }
}

} // verus!
