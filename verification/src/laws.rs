//! What holds of the viewer over several operations.

use vstd::prelude::*;
use vstd::arithmetic::div_mod::{lemma_add_mod_noop, lemma_add_mod_noop_right, lemma_small_mod};

use crate::index::{Index, spec_wrap};
use crate::que::{law_with_front_idempotent, law_without_after_with_front, lemma_with_front_no_duplicates, lemma_without_contains, spec_with_front};
use crate::wiever::{
    WieverState, image_count, spec_add_bookmark, spec_change_bookmark_index,
    spec_change_history_index, spec_change_image_index, spec_remove_bookmark, state_wf,
};

verus! {

/// Moving `n` images on and then `n` images back shows the image shown before.
pub proof fn law_image_offset_round_trip(s: WieverState, n: isize, m: isize, r1: int, r2: int)
    requires
        state_wf(s),
        m == -n,
    ensures
        spec_change_image_index(spec_change_image_index(s, Index::Offset(n), r1), Index::Offset(m), r2).image_index
            == s.image_index,
{
    let c = image_count(s) as int;
    let a = s.image_index as int;
    let b = (a + n) % c;
    lemma_add_mod_noop_right(b, m as int, c);
    lemma_add_mod_noop(a + n, m as int, c);
    lemma_small_mod(a as nat, c as nat);
    assert((b + (m as int % c)) % c == (a + n + m) % c);
}

/// Bookmarking the image shown and then moving to the first bookmark shows
/// the same image.
pub proof fn law_bookmark_returns(s: WieverState, r: int)
    requires
        state_wf(s),
    ensures
        spec_change_bookmark_index(spec_add_bookmark(s), Index::Position(0), r).image_index == s.image_index,
{
    let b = spec_with_front(s.bookmarks, s.image_index);
    assert(b[0] == s.image_index);
    assert(b.len() > 0);
    assert(0int % (b.len() as int) == 0);
}

/// After a move from one image to another, a step back through the history
/// shows the image left, where the move did not start from the history.
pub proof fn law_history_step_back(s: WieverState, index: Index, r1: int, r2: int)
    requires
        state_wf(s),
        !s.history_mode,
        spec_change_image_index(s, index, r1).image_index != s.image_index,
    ensures
        spec_change_history_index(spec_change_image_index(s, index, r1), Index::Offset(1), r2).image_index
            == s.image_index,
{
    let t = spec_change_image_index(s, index, r1);
    let h1 = spec_with_front(s.history, s.image_index);
    lemma_with_front_no_duplicates(s.history, s.image_index);
    assert(t.history == h1);
    assert(!t.history_mode);
    let h2 = spec_with_front(h1, t.image_index);
    lemma_with_front_no_duplicates(h1, t.image_index);
    lemma_without_contains(h1, t.image_index, s.image_index);
    assert(h1.contains(s.image_index)) by { assert(h1[0] == s.image_index); }
    // the image left is the first of the history once the image shown is taken out
    let w = h2.drop_first();
    assert(w =~= crate::que::spec_without(h1, t.image_index));
    assert(w.len() >= 1);
    assert(w[0] == s.image_index) by {
        crate::que::lemma_without_keeps_first(h1, t.image_index);
    }
    assert(h2.len() >= 2);
    lemma_small_mod(1, h2.len());
    assert(h2[1] == w[0]);
}

/// Stepping `k` entries through the history and then `k` entries back shows
/// the image shown before.
pub proof fn law_history_round_trip(s: WieverState, k: isize, m: isize, r1: int, r2: int)
    requires
        state_wf(s),
        m == -k,
    ensures
        spec_change_history_index(spec_change_history_index(s, Index::Offset(k), r1), Index::Offset(m), r2).image_index
            == s.image_index,
{
    if s.history.len() > 0 {
        let r = crate::wiever::spec_record_history(s);
        let n = r.history.len() as int;
        let i = r.history_index as int;
        if !s.history_mode {
            lemma_with_front_no_duplicates(s.history, s.image_index);
        }
        assert(0 <= i < n);
        assert(r.history[i] == s.image_index);
        crate::wiever::lemma_record_history_wf(s);
        crate::que::lemma_distinct_below_len(r.history, image_count(r));
        let j = (i + k) % n;
        let t = spec_change_history_index(s, Index::Offset(k), r1);
        assert(t.history == r.history);
        assert(t.history_mode);
        assert(t.history_index as int == j);
        assert(crate::wiever::spec_record_history(t) == t);
        lemma_add_mod_noop_right(j, m as int, n);
        lemma_add_mod_noop(i + k, m as int, n);
        lemma_small_mod(i as nat, n as nat);
        assert((j + (m as int % n)) % n == (i + k + m) % n);
        assert((j + m) % n == i);
    }
}

/// Taking the image shown out of the bookmarks right after bookmarking it
/// is the same as taking it out.
pub proof fn law_remove_after_add_bookmark(s: WieverState)
    ensures
        spec_remove_bookmark(spec_add_bookmark(s)) == spec_remove_bookmark(s),
{
    law_without_after_with_front(s.bookmarks, s.image_index);
}

/// Bookmarking the image shown twice is bookmarking it once.
pub proof fn law_add_bookmark_twice(s: WieverState)
    ensures
        spec_add_bookmark(spec_add_bookmark(s)) == spec_add_bookmark(s),
{
    law_with_front_idempotent(s.bookmarks, s.image_index);
}

/// A move by `Offset(o)` through the bookmarks lands on the bookmark
/// `o` places after the current bookmark position, counted around the
/// list, and shows the image bookmarked there; the bookmarks stay as they are.
pub proof fn law_bookmark_offset(s: WieverState, o: isize, r: int)
    requires
        state_wf(s),
        s.bookmarks.len() > 0,
    ensures
        ({
            let t = spec_change_bookmark_index(s, Index::Offset(o), r);
            &&& t.bookmarks == s.bookmarks
            &&& t.bookmark_index as int == (s.bookmark_index as int + o) % (s.bookmarks.len() as int)
            &&& t.image_index == s.bookmarks[t.bookmark_index as int]
            &&& !t.history_mode
            &&& t.reload_required
        }),
{
    crate::que::lemma_distinct_below_len(s.bookmarks, image_count(s));
}

/// The next bookmark after position `p` is the one at `p + 1`, where there
/// is one, and a step on and a step back return to the bookmark position
/// left.
pub proof fn law_bookmark_next_and_back(s: WieverState, r1: int, r2: int)
    requires
        state_wf(s),
        s.bookmarks.len() > 0,
    ensures
        s.bookmark_index + 1 < s.bookmarks.len() ==> {
            let t = spec_change_bookmark_index(s, Index::Offset(1), r1);
            &&& t.bookmark_index == s.bookmark_index + 1
            &&& t.image_index == s.bookmarks[s.bookmark_index + 1]
        },
        spec_change_bookmark_index(spec_change_bookmark_index(s, Index::Offset(1), r1), Index::Offset(-1isize), r2).bookmark_index
            == s.bookmark_index,
{
    let n = s.bookmarks.len() as int;
    let p = s.bookmark_index as int;
    crate::que::lemma_distinct_below_len(s.bookmarks, image_count(s));
    let t = spec_change_bookmark_index(s, Index::Offset(1), r1);
    crate::wiever::lemma_record_history_wf(s);
    assert(t.bookmarks == s.bookmarks);
    lemma_small_mod(p as nat, n as nat);
    if p + 1 < n {
        lemma_small_mod((p + 1) as nat, n as nat);
    }
    let j = (p + 1) % n;
    lemma_add_mod_noop_right(j, -1, n);
    lemma_add_mod_noop(p + 1, -1, n);
    assert((j + (-1int % n)) % n == (p + 1 - 1) % n);
}

/// A move by `Position(i)` through the history shows the entry at `i`,
/// counted around the history as it stands once the image shown is
/// recorded: `Position(0)` shows the most recent entry, which is the image
/// shown where the last move did not go through the history, and
/// `Position(-1)` the oldest.
pub proof fn law_history_position(s: WieverState, i: isize, r: int)
    requires
        state_wf(s),
        s.history.len() > 0,
    ensures
        ({
            let t = spec_change_history_index(s, Index::Position(i), r);
            let h = if s.history_mode { s.history } else { spec_with_front(s.history, s.image_index) };
            &&& t.history == h
            &&& t.history_index as int == (i as int) % (h.len() as int)
            &&& t.image_index == h[t.history_index as int]
            &&& t.history_mode
            &&& i == 0 ==> t.image_index == h[0]
            &&& i == -1 ==> t.image_index == h[h.len() - 1]
            &&& (i == 0 && !s.history_mode) ==> t.image_index == s.image_index
        }),
{
    crate::wiever::lemma_record_history_wf(s);
    let r0 = crate::wiever::spec_record_history(s);
    crate::que::lemma_distinct_below_len(r0.history, image_count(r0));
    let n = r0.history.len() as int;
    if !s.history_mode {
        lemma_with_front_no_duplicates(s.history, s.image_index);
    }
    if i == -1 {
        assert(-1int % n == n - 1) by {
            vstd::arithmetic::div_mod::lemma_fundamental_div_mod_converse(-1, n, -1, n - 1);
        }
    }
    if i == 0 {
        assert(0int % n == 0);
    }
}

/// A move by `Offset(o)` through the images shows the image `o` places
/// after the one shown, counted around the list, and a move by
/// `Position(i)` the image at `i`, counted around the list (so `-1` is the
/// last image).
pub proof fn law_image_index_target(s: WieverState, o: isize, i: isize, r: int)
    requires
        state_wf(s),
    ensures
        spec_change_image_index(s, Index::Offset(o), r).image_index as int
            == (s.image_index as int + o) % (image_count(s) as int),
        spec_change_image_index(s, Index::Position(i), r).image_index as int == (i as int) % (image_count(s) as int),
        i == -1 ==> spec_change_image_index(s, Index::Position(i), r).image_index == image_count(s) - 1,
{
    let n = image_count(s) as int;
    if i == -1 {
        vstd::arithmetic::div_mod::lemma_fundamental_div_mod_converse(-1, n, -1, n - 1);
    }
}

} // verus!
