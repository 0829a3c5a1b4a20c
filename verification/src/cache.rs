//! A byte-bounded cache of textures keyed by image index. The most recently
//! cached texture stands at the front of the queue; when the cache grows past
//! its bound, textures are dropped from the back, oldest first.

use std::collections::HashMap;
use std::collections::VecDeque;
use vstd::prelude::*;

use crate::que::{
    add_to_que, lemma_with_front_no_duplicates, lemma_without_contains, other_than, spec_with_front,
    spec_without,
};

verus! {

broadcast use {
    vstd::std_specs::hash::group_hash_axioms,
    vstd::std_specs::vecdeque::group_vec_dequeue_axioms,
};

/// The bound on the bytes held by the cache (512 MiB).
pub const TEXTURE_CACHE_MAX_BYTE_SIZE: usize = 536_870_912;

/// A texture with its size in pixels.
pub struct CachedTexture<T> {
    pub texture: T,
    pub width: u32,
    pub height: u32,
}

/// The bytes a texture of `width` by `height` pixels takes, at four bytes a pixel.
pub open spec fn spec_texture_byte_size(width: u32, height: u32) -> int {
    width * height * 4
}

/// The bytes that entry `key` of `entries` takes, or nothing where it has none.
pub open spec fn key_byte_size<T>(entries: Map<usize, CachedTexture<T>>, key: usize) -> int {
    if entries.contains_key(key) {
        spec_texture_byte_size(entries[key].width, entries[key].height)
    } else {
        0
    }
}

/// The bytes taken by the entries whose keys stand in `que`, each key counted
/// where it stands.
pub open spec fn que_byte_size<T>(que: Seq<usize>, entries: Map<usize, CachedTexture<T>>) -> int
    decreases que.len(),
{
    if que.len() == 0 {
        0
    } else {
        que_byte_size(que.drop_last(), entries) + key_byte_size(entries, que.last())
    }
}

/// The bytes a texture of `width` by `height` pixels takes, at four bytes a pixel.
pub fn texture_byte_size(width: u32, height: u32) -> (r: usize)
    requires
        spec_texture_byte_size(width, height) <= usize::MAX,
    ensures
        r == spec_texture_byte_size(width, height),
{
    let w: usize = width as usize;
    let h: usize = height as usize;
    assert(w * h <= w * h * 4) by (nonlinear_arith);
    w * h * 4
}

/// Byte sizes are never negative, and a prefix of a queue takes no more than the queue.
pub proof fn lemma_que_byte_size_prefix<T>(que: Seq<usize>, entries: Map<usize, CachedTexture<T>>, i: int)
    requires
        0 <= i <= que.len(),
    ensures
        0 <= que_byte_size(que.take(i), entries) <= que_byte_size(que, entries),
    decreases que.len(),
{
    assert(spec_texture_byte_size(0, 0) >= 0);
    if que.len() > 0 {
        let w = que.last();
        if entries.contains_key(w) {
            let e = entries[w];
            assert(e.width * e.height * 4 >= 0) by (nonlinear_arith);
        }
        if i == que.len() {
            assert(que.take(i) =~= que);
            lemma_que_byte_size_prefix(que.drop_last(), entries, i - 1);
            assert(que.drop_last().take(i - 1) =~= que.drop_last());
        } else {
            lemma_que_byte_size_prefix(que.drop_last(), entries, i);
            assert(que.drop_last().take(i) =~= que.take(i));
        }
    }
}

/// Two maps that agree on the keys standing in `que` give `que` the same byte size.
pub proof fn lemma_que_byte_size_agree<T>(
    que: Seq<usize>,
    a: Map<usize, CachedTexture<T>>,
    b: Map<usize, CachedTexture<T>>,
)
    requires
        forall|i: int| 0 <= i < que.len() ==> #[trigger] key_byte_size(a, que[i]) == key_byte_size(b, que[i]),
    ensures
        que_byte_size(que, a) == que_byte_size(que, b),
    decreases que.len(),
{
    if que.len() > 0 {
        assert(key_byte_size(a, que[que.len() - 1]) == key_byte_size(b, que[que.len() - 1]));
        let rest = que.drop_last();
        assert forall|i: int| 0 <= i < rest.len() implies #[trigger] key_byte_size(a, rest[i]) == key_byte_size(b, rest[i]) by {
            assert(rest[i] == que[i]);
        }
        lemma_que_byte_size_agree(rest, a, b);
    }
}

/// Taking `key` out of the queue counts the same bytes as taking it out of the map.
pub proof fn lemma_que_byte_size_without<T>(que: Seq<usize>, entries: Map<usize, CachedTexture<T>>, key: usize)
    ensures
        que_byte_size(spec_without(que, key), entries) == que_byte_size(que, entries.remove(key)),
    decreases que.len(),
{
    if que.len() == 0 {
        reveal(Seq::filter);
    } else {
        let rest = que.drop_last();
        let last = que.last();
        assert(rest.push(last) =~= que);
        rest.lemma_filter_push(last, other_than(key));
        lemma_que_byte_size_without(rest, entries, key);
        if last != key {
            assert(spec_without(que, key).drop_last() =~= spec_without(rest, key));
        }
    }
}

/// The byte size of `seq![key] + s` is that of `key` and then that of `s`.
pub proof fn lemma_que_byte_size_prepend<T>(s: Seq<usize>, entries: Map<usize, CachedTexture<T>>, key: usize)
    ensures
        que_byte_size(seq![key] + s, entries) == key_byte_size(entries, key) + que_byte_size(s, entries),
    decreases s.len(),
{
    if s.len() == 0 {
        assert(seq![key] + s =~= seq![key]);
        assert(seq![key].drop_last() =~= Seq::<usize>::empty());
        assert(seq![key].last() == key);
        assert(que_byte_size(Seq::<usize>::empty(), entries) == 0);
    } else {
        assert((seq![key] + s).drop_last() =~= seq![key] + s.drop_last());
        assert((seq![key] + s).last() == s.last());
        lemma_que_byte_size_prepend(s.drop_last(), entries, key);
    }
}

/// A map with `key` taken out counts no more bytes for a queue.
pub proof fn lemma_que_byte_size_remove<T>(que: Seq<usize>, entries: Map<usize, CachedTexture<T>>, key: usize)
    ensures
        que_byte_size(que, entries.remove(key)) <= que_byte_size(que, entries),
    decreases que.len(),
{
    if que.len() > 0 {
        let w = que.last();
        if entries.contains_key(w) {
            let e = entries[w];
            assert(e.width * e.height * 4 >= 0) by (nonlinear_arith);
        }
        lemma_que_byte_size_remove(que.drop_last(), entries, key);
    }
}

/// The textures of the cache, keyed by image index, with the order of their use.
pub struct TextureCache<T> {
    map: HashMap<usize, CachedTexture<T>>,
    que: VecDeque<usize>,
}

impl<T> TextureCache<T> {
    /// The cached entries, by key.
    pub closed spec fn entries(&self) -> Map<usize, CachedTexture<T>> {
        self.map@
    }

    /// The keys that were cached, most recent first; a key may stay here
    /// after its entry was taken.
    pub closed spec fn que(&self) -> Seq<usize> {
        self.que@
    }

    /// The bytes held by the cache.
    pub open spec fn spec_byte_size(&self) -> int {
        que_byte_size(self.que(), self.entries())
    }

    /// The cache is consistent: its queue has no repeats, every entry has its
    /// key in the queue, and it holds no more than its bound.
    pub open spec fn wf(&self) -> bool {
        &&& self.que().no_duplicates()
        &&& forall|k: usize| #[trigger] self.entries().contains_key(k) ==> self.que().contains(k)
        &&& self.spec_byte_size() <= TEXTURE_CACHE_MAX_BYTE_SIZE
    }

    /// `after` is this cache once `entry` is cached under `key`: `key` moved to
    /// the front of the queue and `entry` put in the map, then, while the
    /// cache held more than its bound, the oldest key dropped from the queue
    /// and its entry from the map. So the queue is a prefix of the queue
    /// after the insertion, every longer prefix would hold more than the
    /// bound, and the entries are those of the keys that stay.
    pub open spec fn spec_insert(self, key: usize, entry: CachedTexture<T>, after: Self) -> bool {
        let q1 = spec_with_front(self.que(), key);
        let m1 = self.entries().insert(key, entry);
        &&& after.que().len() <= q1.len()
        &&& after.que() == q1.take(after.que().len() as int)
        &&& after.entries() == m1.restrict(after.que().to_set())
        &&& forall|j: int| after.que().len() < j <= q1.len()
            ==> #[trigger] que_byte_size(q1.take(j), m1) > TEXTURE_CACHE_MAX_BYTE_SIZE
    }

    /// Caching a texture of `width` by `height` pixels under `key` counts
    /// its bytes, and those of the entries that stay, within `usize`.
    pub open spec fn spec_insert_fits(self, key: usize, width: u32, height: u32) -> bool {
        spec_texture_byte_size(width, height) + que_byte_size(spec_without(self.que(), key), self.entries())
            <= usize::MAX
    }

    /// An empty cache.
    pub fn new() -> (r: Self)
        ensures
            r.wf(),
            r.entries() == Map::<usize, CachedTexture<T>>::empty(),
            r.que() == Seq::<usize>::empty(),
    {
        TextureCache { map: HashMap::new(), que: VecDeque::new() }
    }

    /// Drops every entry and every key.
    pub fn clear(&mut self)
        ensures
            final(self).wf(),
            final(self).entries() == Map::<usize, CachedTexture<T>>::empty(),
            final(self).que() == Seq::<usize>::empty(),
    {
        self.map.clear();
        self.que.clear();
    }

    /// The bytes held by the cache, summed over its entries.
    pub fn byte_size(&self) -> (r: usize)
        requires
            self.spec_byte_size() <= usize::MAX,
            forall|k: usize| #[trigger] self.entries().contains_key(k) ==> self.que().contains(k),
        ensures
            r == self.spec_byte_size(),
    {
        let ghost q = self.que@;
        let ghost m = self.map@;
        let n = self.que.len();
        let mut total: usize = 0;
        let mut i: usize = 0;
        while i < n
            invariant
                q == self.que@,
                m == self.map@,
                n == q.len(),
                i <= n,
                total == que_byte_size(q.take(i as int), m),
                que_byte_size(q, m) <= usize::MAX,
            decreases n - i,
        {
            let key = self.que[i];
            proof {
                assert(q.take(i + 1).drop_last() =~= q.take(i as int));
                assert(q.take(i + 1).last() == key);
                lemma_que_byte_size_prefix(q, m, i + 1);
            }
            match self.map.get(&key) {
                Some(entry) => {
                    let b = texture_byte_size(entry.width, entry.height);
                    total = total + b;
                },
                None => {},
            }
            i = i + 1;
        }
        proof {
            assert(q.take(n as int) =~= q);
        }
        total
    }

    /// Whether caching a texture of `width` by `height` pixels under `key`
    /// counts its bytes, and those of the entries that stay, within `usize`.
    pub fn insert_fits(&self, key: usize, width: u32, height: u32) -> (r: bool)
        requires
            self.wf(),
        ensures
            r == self.spec_insert_fits(key, width, height),
    {
        let ghost q = self.que@;
        let ghost m = self.map@;
        let ghost mk = m.remove(key);
        proof {
            lemma_que_byte_size_without(q, m, key);
            lemma_que_byte_size_remove(q, m, key);
        }
        let n = self.que.len();
        let mut rest: usize = 0;
        let mut i: usize = 0;
        while i < n
            invariant
                q == self.que@,
                m == self.map@,
                mk == m.remove(key),
                n == q.len(),
                i <= n,
                rest == que_byte_size(q.take(i as int), mk),
                que_byte_size(q, mk) <= TEXTURE_CACHE_MAX_BYTE_SIZE,
            decreases n - i,
        {
            let k = self.que[i];
            proof {
                assert(q.take(i + 1).drop_last() =~= q.take(i as int));
                assert(q.take(i + 1).last() == k);
                lemma_que_byte_size_prefix(q, mk, i + 1);
            }
            if k != key {
                match self.map.get(&k) {
                    Some(entry) => {
                        let b = texture_byte_size(entry.width, entry.height);
                        rest = rest + b;
                    },
                    None => {},
                }
            }
            i = i + 1;
        }
        proof {
            assert(q.take(n as int) =~= q);
        }
        let w: u128 = width as u128;
        let h: u128 = height as u128;
        assert(w * h <= 0xffff_ffff * 0xffff_ffff) by (nonlinear_arith)
            requires
                w <= 0xffff_ffff,
                h <= 0xffff_ffff,
        ;
        let size: u128 = w * h * 4;
        size + (rest as u128) <= (usize::MAX as u128)
    }

    /// Takes the entry of `key` out of the cache; its key stays in the queue.
    pub fn take(&mut self, key: usize) -> (r: Option<CachedTexture<T>>)
        requires
            old(self).wf(),
        ensures
            final(self).wf(),
            final(self).entries() == old(self).entries().remove(key),
            final(self).que() == old(self).que(),
            r == (if old(self).entries().contains_key(key) {
                Some(old(self).entries()[key])
            } else {
                None::<CachedTexture<T>>
            }),
    {
        let r = self.map.remove(&key);
        proof {
            lemma_que_byte_size_remove(old(self).que@, old(self).map@, key);
        }
        r
    }

    /// Caches `texture` under `key`, making `key` the most recent, then drops
    /// the oldest entries while the cache holds more than its bound.
    pub fn insert(&mut self, key: usize, texture: T, width: u32, height: u32)
        requires
            old(self).wf(),
            old(self).spec_insert_fits(key, width, height),
        ensures
            final(self).wf(),
            old(self).spec_insert(key, CachedTexture { texture, width, height }, *final(self)),
    {
        let ghost q0 = self.que@;
        let ghost m0 = self.map@;
        let ghost m1 = m0.insert(key, CachedTexture { texture, width, height });
        let ghost q1 = spec_with_front(q0, key);
        add_to_que(&mut self.que, key);
        self.map.insert(key, CachedTexture { texture, width, height });
        proof {
            lemma_with_front_no_duplicates(q0, key);
            lemma_without_contains(q0, key, key);
            // the queue's byte size after the insertion
            lemma_que_byte_size_prepend(spec_without(q0, key), m1, key);
            assert forall|i: int| 0 <= i < spec_without(q0, key).len()
                implies #[trigger] key_byte_size(m1, spec_without(q0, key)[i]) == key_byte_size(m0, spec_without(q0, key)[i]) by {
                let w = spec_without(q0, key);
                assert(w.contains(w[i]));
                lemma_without_contains(q0, key, w[i]);
            }
            lemma_que_byte_size_agree(spec_without(q0, key), m1, m0);
            lemma_que_byte_size_without(q0, m0, key);
            lemma_que_byte_size_remove(q0, m0, key);
            assert forall|k: usize| #[trigger] m1.contains_key(k) implies q1.contains(k) by {
                if k != key {
                    assert(q0.contains(k));
                }
            }
            assert(q1.take(q1.len() as int) =~= q1);
            assert(m1.restrict(q1.to_set()) =~= m1);
        }
        while self.byte_size() > TEXTURE_CACHE_MAX_BYTE_SIZE
            invariant
                self.que@.no_duplicates(),
                self.que@ == q1.take(self.que@.len() as int),
                self.que@.len() <= q1.len(),
                forall|k: usize| #[trigger] self.map@.contains_key(k) ==> self.que@.contains(k),
                forall|k: usize| #[trigger] self.map@.contains_key(k) <==> (m1.contains_key(k) && self.que@.contains(k)),
                forall|k: usize| #[trigger] self.map@.contains_key(k) ==> self.map@[k] == m1[k],
                que_byte_size(self.que@, self.map@) == que_byte_size(self.que@, m1),
                que_byte_size(self.que@, self.map@) <= usize::MAX,
                forall|j: int| self.que@.len() < j <= q1.len()
                    ==> #[trigger] que_byte_size(q1.take(j), m1) > TEXTURE_CACHE_MAX_BYTE_SIZE,
            decreases self.que@.len(),
        {
            let ghost q = self.que@;
            let ghost m = self.map@;
            proof {
                if q.len() == 0 {
                    assert(que_byte_size(q, m) == 0);
                }
            }
            if let Some(k) = self.que.pop_back() {
                self.map.remove(&k);
                proof {
                    let q2 = self.que@;
                    let m2 = self.map@;
                    assert(q2 =~= q.drop_last());
                    assert(q2 =~= q1.take(q2.len() as int));
                    assert(que_byte_size(q1.take(q.len() as int), m1) > TEXTURE_CACHE_MAX_BYTE_SIZE);
                    assert(!q2.contains(k)) by {
                        if q2.contains(k) {
                            let i = choose|i: int| 0 <= i < q2.len() && q2[i] == k;
                            assert(q[i] == q[q.len() - 1]);
                        }
                    }
                    assert forall|i: int| 0 <= i < q2.len()
                        implies #[trigger] key_byte_size(m2, q2[i]) == key_byte_size(m1, q2[i]) by {
                        assert(q2.contains(q2[i]));
                        assert(q.contains(q2[i])) by { assert(q[i] == q2[i]); }
                    }
                    lemma_que_byte_size_agree(q2, m2, m1);
                    lemma_que_byte_size_prefix(q, m, q2.len() as int);
                    assert(q.take(q2.len() as int) =~= q2);
                    assert forall|kk: usize| #[trigger] m2.contains_key(kk) implies q2.contains(kk) by {
                        assert(q.contains(kk));
                        let i = choose|i: int| 0 <= i < q.len() && q[i] == kk;
                        assert(i != q.len() - 1);
                        assert(q2[i] == kk);
                    }
                    assert forall|kk: usize| #[trigger] m2.contains_key(kk) <==> (m1.contains_key(kk) && q2.contains(kk)) by {
                        if q2.contains(kk) {
                            let i = choose|i: int| 0 <= i < q2.len() && q2[i] == kk;
                            assert(q[i] == kk);
                        }
                    }
                    assert(q2.no_duplicates()) by {
                        assert forall|i: int, j: int| 0 <= i < q2.len() && 0 <= j < q2.len() && i != j
                            implies q2[i] != q2[j] by {
                            assert(q[i] == q2[i] && q[j] == q2[j]);
                        }
                    }
                }
            }
        }
        proof {
            let q = self.que@;
            let m = self.map@;
            assert(m =~= m1.restrict(q.to_set())) by {
                assert forall|kk: usize| #[trigger] m.contains_key(kk) <==> m1.restrict(q.to_set()).contains_key(kk) by {
                    if q.contains(kk) {
                        assert(q.to_set().contains(kk));
                    }
                }
            }
        }
    }
}

/// A texture that fits within the cache's bound is in the cache right after
/// it was cached, under its key.
pub proof fn law_inserted_entry_stays<T>(
    cache: TextureCache<T>,
    key: usize,
    entry: CachedTexture<T>,
    after: TextureCache<T>,
)
    requires
        cache.wf(),
        cache.spec_insert(key, entry, after),
        spec_texture_byte_size(entry.width, entry.height) <= TEXTURE_CACHE_MAX_BYTE_SIZE,
    ensures
        after.entries().contains_key(key),
        after.entries()[key] == entry,
{
    let q1 = spec_with_front(cache.que(), key);
    let m1 = cache.entries().insert(key, entry);
    assert(q1.take(1) =~= seq![key] + Seq::<usize>::empty());
    lemma_que_byte_size_prepend(Seq::<usize>::empty(), m1, key);
    assert(que_byte_size(q1.take(1), m1) <= TEXTURE_CACHE_MAX_BYTE_SIZE);
    assert(after.que().len() >= 1);
    assert(q1[0] == key);
    assert(after.que()[0] == q1.take(after.que().len() as int)[0]);
    assert(q1.take(after.que().len() as int)[0] == q1[0]);
    assert(after.que()[0] == key);
    assert(after.que().to_set().contains(key));
}

} // verus!
