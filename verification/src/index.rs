//! Addressing an entry of a cyclic list: by position, by offset from the
//! current entry, or at random.

use vstd::prelude::*;
use vstd::arithmetic::div_mod::lemma_fundamental_div_mod_converse;

verus! {

/// How to choose the next entry of a list.
#[derive(Debug, Clone, Copy)]
pub enum Index {
    /// The entry at this position; negative positions count from the end.
    Position(isize),
    /// The entry this many steps away from the current one.
    Offset(isize),
    /// An entry drawn at random.
    Random,
}

/// The position, before wrapping, that `index` designates when the current
/// entry is `current` and the random draw gave `random`.
pub open spec fn spec_target(index: Index, current: int, random: int) -> int {
    match index {
        Index::Position(i) => i as int,
        Index::Offset(o) => o + current,
        Index::Random => random,
    }
}

/// The position `target` wrapped into a list of `count` entries (Euclidean remainder).
pub open spec fn spec_wrap(target: int, count: nat) -> nat {
    (target % (count as int)) as nat
}

/// An offset from `current` stays within the range of `isize`.
pub open spec fn target_fits(index: Index, current: int) -> bool {
    match index {
        Index::Offset(o) => isize::MIN <= o + current <= isize::MAX,
        _ => true,
    }
}

/// The Euclidean remainder of `index` by `count`: the position `index` wraps
/// to in a cyclic list of `count` entries.
pub fn wrap_index(index: isize, count: usize) -> (r: usize)
    requires
        count > 0,
    ensures
        r as int == spec_wrap(index as int, count as nat),
        r < count,
{
    if index >= 0 {
        let u: usize = index as usize;
        let r: usize = u % count;
        r
    } else {
        let k: usize = (-(index + 1)) as usize;
        let m: usize = k % count;
        let r: usize = count - 1 - m;
        proof {
            let q: int = k as int / count as int;
            assert(k as int == q * count + m) by (nonlinear_arith)
                requires
                    q == k as int / count as int,
                    m == k as int % count as int,
                    count > 0,
            ;
            assert(index as int == (-q - 1) * count + r) by (nonlinear_arith)
                requires
                    k as int == q * count + m,
                    k as int == -(index as int + 1),
                    r == count - 1 - m,
            ;
            lemma_fundamental_div_mod_converse(index as int, count as int, -q - 1, r as int);
        }
        r
    }
}

/// The position in a list of `count` entries that `index` designates when
/// the current entry is `current` and a random draw gave `random`.
pub fn resolve_index(index: Index, current: usize, random: isize, count: usize) -> (r: usize)
    requires
        count > 0,
        current <= isize::MAX,
        target_fits(index, current as int),
    ensures
        r as int == spec_wrap(spec_target(index, current as int, random as int), count as nat),
        r < count,
{
    let target: isize = match index {
        Index::Position(i) => i,
        Index::Offset(o) => o + (current as isize),
        Index::Random => random,
    };
    wrap_index(target, count)
}

/// Calls `rand::random::<isize>()`, which draws an `isize` from the
/// thread-local generator, uniformly over all its values. Nothing is claimed
/// of the value drawn: any `isize` may come back.
#[verifier::external_body]
pub(crate) fn random_isize() -> (r: isize) {
    rand::random::<isize>()
}

} // verus!
