//! Most-recent-first queues of image indices: adding a value moves it to the
//! front, and no value is held twice.

use std::collections::VecDeque;
use vstd::prelude::*;

verus! {

broadcast use vstd::std_specs::vecdeque::group_vec_dequeue_axioms;

/// The values other than `v`.
pub open spec fn other_than(v: usize) -> spec_fn(usize) -> bool {
    |x: usize| x != v
}

/// `s` with every occurrence of `v` taken out, the rest in their order.
pub open spec fn spec_without(s: Seq<usize>, v: usize) -> Seq<usize> {
    s.filter(other_than(v))
}

/// `s` after `v` is moved, or put, at its front.
pub open spec fn spec_with_front(s: Seq<usize>, v: usize) -> Seq<usize> {
    seq![v] + spec_without(s, v)
}

/// Taking `v` out of `s` keeps exactly the other values of `s`.
pub proof fn lemma_without_contains(s: Seq<usize>, v: usize, x: usize)
    ensures
        spec_without(s, v).contains(x) <==> (s.contains(x) && x != v),
{
    broadcast use vstd::seq_lib::group_seq_properties;
    let p = other_than(v);
    if spec_without(s, v).contains(x) {
        s.lemma_filter_contains_rev(p, x);
        let i = choose|i: int| 0 <= i < spec_without(s, v).len() && spec_without(s, v)[i] == x;
        s.lemma_filter_pred(p, i);
    }
    if s.contains(x) && x != v {
        let i = choose|i: int| 0 <= i < s.len() && s[i] == x;
        s.lemma_filter_contains(p, i);
    }
}

/// Taking a value out of a sequence without repeats leaves one without
/// repeats; its length drops by one exactly when the value was there.
pub proof fn lemma_without_no_duplicates(s: Seq<usize>, v: usize)
    requires
        s.no_duplicates(),
    ensures
        spec_without(s, v).no_duplicates(),
        spec_without(s, v).len() == if s.contains(v) { s.len() - 1 } else { s.len() as int },
    decreases s.len(),
{
    broadcast use vstd::seq_lib::group_seq_properties;
    let p = other_than(v);
    if s.len() > 0 {
        let rest = s.drop_last();
        let last = s.last();
        assert(rest.push(last) =~= s);
        assert(rest.no_duplicates()) by {
            assert forall|i: int, j: int| 0 <= i < rest.len() && 0 <= j < rest.len() && i != j
                implies rest[i] != rest[j] by {
                assert(s[i] == rest[i] && s[j] == rest[j]);
            }
        }
        lemma_without_no_duplicates(rest, v);
        rest.lemma_filter_push(last, p);
        assert(!rest.contains(last)) by {
            if rest.contains(last) {
                let i = choose|i: int| 0 <= i < rest.len() && rest[i] == last;
                assert(s[i] == s[s.len() - 1]);
            }
        }
        if last != v {
            lemma_without_contains(rest, v, last);
            let w = spec_without(rest, v);
            assert(w.push(last).no_duplicates()) by {
                assert forall|i: int, j: int|
                    0 <= i < w.push(last).len() && 0 <= j < w.push(last).len() && i != j
                    implies w.push(last)[i] != w.push(last)[j] by {
                    if i == w.len() {
                        assert(w.contains(w[j]));
                    } else if j == w.len() {
                        assert(w.contains(w[i]));
                    }
                }
            }
            assert(s.contains(v) == rest.contains(v)) by {
                if s.contains(v) {
                    let i = choose|i: int| 0 <= i < s.len() && s[i] == v;
                    assert(rest[i] == v);
                }
            }
        } else {
            assert(s.contains(v)) by { assert(s[s.len() - 1] == v); }
        }
    } else {
        reveal(Seq::filter);
    }
}

/// Takes every occurrence of `value` out of `que`, keeping the order of the rest.
pub fn remove_from_que(que: &mut VecDeque<usize>, value: usize)
    ensures
        final(que)@ == spec_without(old(que)@, value),
{
    broadcast use vstd::seq_lib::group_seq_properties;
    let ghost p = other_than(value);
    let ghost s = que@;
    let mut kept: VecDeque<usize> = VecDeque::new();
    let n = que.len();
    let mut i: usize = 0;
    while i < n
        invariant
            n == s.len(),
            que@ == s,
            p == other_than(value),
            i <= n,
            kept@ == s.take(i as int).filter(p),
        decreases n - i,
    {
        let x = que[i];
        proof {
            assert(s.take(i as int).push(x) =~= s.take(i + 1));
            s.take(i as int).lemma_filter_push(x, p);
            assert(other_than(value)(x) == (x != value));
        }
        if x != value {
            kept.push_back(x);
        }
        i = i + 1;
    }
    assert(s.take(n as int) =~= s);
    *que = kept;
}

/// Moves `value` to the front of `que`, putting it there if it was absent.
pub fn add_to_que(que: &mut VecDeque<usize>, value: usize)
    ensures
        final(que)@ == spec_with_front(old(que)@, value),
{
    remove_from_que(que, value);
    que.push_front(value);
}

/// A queue without repeats stays without repeats when a value is moved to its front.
pub proof fn lemma_with_front_no_duplicates(s: Seq<usize>, v: usize)
    requires
        s.no_duplicates(),
    ensures
        spec_with_front(s, v).no_duplicates(),
        spec_with_front(s, v)[0] == v,
        spec_with_front(s, v).len() == if s.contains(v) { s.len() as int } else { s.len() + 1int },
        forall|x: usize| spec_with_front(s, v).contains(x) <==> (x == v || s.contains(x)),
{
    lemma_without_no_duplicates(s, v);
    let w = spec_without(s, v);
    let f = spec_with_front(s, v);
    assert forall|x: usize| f.contains(x) <==> (x == v || s.contains(x)) by {
        lemma_without_contains(s, v, x);
        if f.contains(x) && x != v {
            let i = choose|i: int| 0 <= i < f.len() && f[i] == x;
            assert(w[i - 1] == x);
        }
        if w.contains(x) {
            let i = choose|i: int| 0 <= i < w.len() && w[i] == x;
            assert(f[i + 1] == x);
        }
        if x == v {
            assert(f[0] == v);
        }
    }
    assert forall|i: int, j: int| 0 <= i < f.len() && 0 <= j < f.len() && i != j
        implies f[i] != f[j] by {
        if i == 0 {
            lemma_without_contains(s, v, v);
            assert(w[j - 1] == f[j]);
        } else if j == 0 {
            lemma_without_contains(s, v, v);
            assert(w[i - 1] == f[i]);
        } else {
            assert(w[i - 1] == f[i] && w[j - 1] == f[j]);
        }
    }
}

/// Taking out a value other than the first keeps the first in front.
pub proof fn lemma_without_keeps_first(s: Seq<usize>, v: usize)
    requires
        s.len() > 0,
        s[0] != v,
    ensures
        spec_without(s, v).len() > 0,
        spec_without(s, v)[0] == s[0],
{
    let rest = s.drop_first();
    assert(seq![s[0]] + rest =~= s);
    rest.lemma_filter_prepend(s[0], other_than(v));
}

/// Taking a value out twice is taking it out once.
pub proof fn lemma_without_idempotent(s: Seq<usize>, v: usize)
    ensures
        spec_without(spec_without(s, v), v) == spec_without(s, v),
    decreases s.len(),
{
    let p = other_than(v);
    if s.len() == 0 {
        reveal(Seq::filter);
    } else {
        let rest = s.drop_last();
        let last = s.last();
        assert(rest.push(last) =~= s);
        rest.lemma_filter_push(last, p);
        lemma_without_idempotent(rest, v);
        if last != v {
            spec_without(rest, v).lemma_filter_push(last, p);
        }
    }
}

/// Taking `v` out after moving it to the front is taking it out.
pub proof fn law_without_after_with_front(s: Seq<usize>, v: usize)
    ensures
        spec_without(spec_with_front(s, v), v) == spec_without(s, v),
{
    let p = other_than(v);
    spec_without(s, v).lemma_filter_prepend(v, p);
    lemma_without_idempotent(s, v);
}

/// Moving a value to the front twice is moving it there once.
pub proof fn law_with_front_idempotent(s: Seq<usize>, v: usize)
    ensures
        spec_with_front(spec_with_front(s, v), v) == spec_with_front(s, v),
{
    law_without_after_with_front(s, v);
}

/// A sequence without repeats of values below `n` has at most `n` elements.
pub proof fn lemma_distinct_below_len(s: Seq<usize>, n: nat)
    requires
        s.no_duplicates(),
        forall|i: int| 0 <= i < s.len() ==> #[trigger] s[i] < n,
    ensures
        s.len() <= n,
    decreases n,
{
    if n == 0 {
        if s.len() > 0 {
            assert(s[0] < n);
        }
    } else {
        let top = (n - 1) as usize;
        let w = spec_without(s, top);
        lemma_without_no_duplicates(s, top);
        assert forall|i: int| 0 <= i < w.len() implies #[trigger] w[i] < (n - 1) as nat by {
            assert(w.contains(w[i]));
            lemma_without_contains(s, top, w[i]);
            let j = choose|j: int| 0 <= j < s.len() && s[j] == w[i];
            assert(s[j] < n);
        }
        lemma_distinct_below_len(w, (n - 1) as nat);
    }
}

} // verus!
