//! The viewer's state: which image is shown, the bookmarks, the history of
//! visited images, the texture cache and the display flags.

use std::collections::VecDeque;
use vstd::prelude::*;

use crate::cache::{CachedTexture, TextureCache};
use crate::index::{Index, random_isize, resolve_index, spec_target, spec_wrap, target_fits};
use crate::que::{
    add_to_que, lemma_distinct_below_len, lemma_with_front_no_duplicates,
    lemma_without_contains, lemma_without_no_duplicates, remove_from_que, spec_with_front,
    spec_without,
};
use crate::title::{spec_window_title, window_title};

verus! {

broadcast use vstd::std_specs::vecdeque::group_vec_dequeue_axioms;

/// What a viewer holds, apart from its textures.
pub struct WieverState {
    /// The index of the image shown.
    pub image_index: usize,
    /// The paths of the images, in the order they are browsed.
    pub image_paths: Seq<String>,
    /// The position in `bookmarks` last moved to.
    pub bookmark_index: usize,
    /// The bookmarked image indices, most recently bookmarked first.
    pub bookmarks: Seq<usize>,
    /// The position in `history` last moved to.
    pub history_index: usize,
    /// The image indices left, most recently left first.
    pub history: Seq<usize>,
    /// The last move was one through the history.
    pub history_mode: bool,
    /// The image whose texture was created last.
    pub texture_cache_key: usize,
    /// The next texture is to be read from the image file, not the cache.
    pub texture_cache_bypass: bool,
    pub texture_smooth: bool,
    pub texture_mipmap: bool,
    pub texture_srgb: bool,
    pub text_visible: bool,
    pub cursor_visible: bool,
    /// A texture is to be created before the next display.
    pub reload_required: bool,
}

/// The number of images of `s`.
pub open spec fn image_count(s: WieverState) -> nat {
    s.image_paths.len()
}

/// Every value of `s` is an index below `n`, and none stands twice.
pub open spec fn indices_below(s: Seq<usize>, n: nat) -> bool {
    &&& s.no_duplicates()
    &&& forall|i: int| 0 <= i < s.len() ==> #[trigger] s[i] < n
}

/// `i` is a position of `s`, or 0 where `s` is empty.
pub open spec fn position_in(i: usize, s: Seq<usize>) -> bool {
    if s.len() == 0 { i == 0 } else { i < s.len() }
}

/// The state is consistent.
pub open spec fn state_wf(s: WieverState) -> bool {
    &&& 0 < image_count(s) <= isize::MAX
    &&& s.image_index < image_count(s)
    &&& indices_below(s.bookmarks, image_count(s))
    &&& indices_below(s.history, image_count(s))
    &&& position_in(s.bookmark_index, s.bookmarks)
    &&& position_in(s.history_index, s.history)
    &&& s.history_mode ==> s.history.len() > 0 && s.image_index == s.history[s.history_index as int]
}

/// The state once the image shown is recorded in the history, which happens
/// unless the last move went through the history.
pub open spec fn spec_record_history(s: WieverState) -> WieverState {
    if s.history_mode {
        s
    } else {
        WieverState { history: spec_with_front(s.history, s.image_index), history_index: 0, ..s }
    }
}

/// Recording the image shown in the history keeps the state consistent.
pub proof fn lemma_record_history_wf(s: WieverState)
    requires
        state_wf(s),
    ensures
        state_wf(spec_record_history(s)),
{
    if !s.history_mode {
        let h0 = s.history;
        let h = spec_with_front(h0, s.image_index);
        lemma_with_front_no_duplicates(h0, s.image_index);
        assert forall|i: int| 0 <= i < h.len() implies #[trigger] h[i] < image_count(s) by {
            assert(h.contains(h[i]));
            if h[i] != s.image_index {
                assert(h0.contains(h[i]));
                let j = choose|j: int| 0 <= j < h0.len() && h0[j] == h[i];
            }
        }
    }
}

/// The state after a move to the image that `index` designates, with
/// `random` as the draw for `Index::Random`.
pub open spec fn spec_change_image_index(s: WieverState, index: Index, random: int) -> WieverState {
    let r = spec_record_history(s);
    WieverState {
        image_index: spec_wrap(spec_target(index, r.image_index as int, random), image_count(r)) as usize,
        history_mode: false,
        reload_required: true,
        ..r
    }
}

/// The state after a move to the bookmark that `index` designates, with
/// `random` as the draw for `Index::Random`. Without bookmarks, nothing changes.
pub open spec fn spec_change_bookmark_index(s: WieverState, index: Index, random: int) -> WieverState {
    if s.bookmarks.len() == 0 {
        s
    } else {
        let r = spec_record_history(s);
        let b = spec_wrap(spec_target(index, r.bookmark_index as int, random), r.bookmarks.len()) as usize;
        WieverState {
            bookmark_index: b,
            image_index: r.bookmarks[b as int],
            history_mode: false,
            reload_required: true,
            ..r
        }
    }
}

/// The state after a move to the history entry that `index` designates,
/// with `random` as the draw for `Index::Random`. Without history, nothing
/// changes.
pub open spec fn spec_change_history_index(s: WieverState, index: Index, random: int) -> WieverState {
    if s.history.len() == 0 {
        s
    } else {
        let r = spec_record_history(s);
        let h = spec_wrap(spec_target(index, r.history_index as int, random), r.history.len()) as usize;
        WieverState {
            history_index: h,
            image_index: r.history[h as int],
            history_mode: true,
            reload_required: true,
            ..r
        }
    }
}

/// The state once the image shown is bookmarked, as the most recent bookmark.
pub open spec fn spec_add_bookmark(s: WieverState) -> WieverState {
    WieverState { bookmarks: spec_with_front(s.bookmarks, s.image_index), bookmark_index: 0, ..s }
}

/// The state once the image shown is taken out of the bookmarks.
pub open spec fn spec_remove_bookmark(s: WieverState) -> WieverState {
    WieverState { bookmarks: spec_without(s.bookmarks, s.image_index), bookmark_index: 0, ..s }
}

/// The initial state for `paths`, showing the image at `image_index`
/// wrapped into their number.
pub open spec fn spec_initial_state(image_index: int, paths: Seq<String>) -> WieverState {
    WieverState {
        image_index: spec_wrap(image_index, paths.len()) as usize,
        image_paths: paths,
        bookmark_index: 0,
        bookmarks: Seq::empty(),
        history_index: 0,
        history: Seq::empty(),
        history_mode: false,
        texture_cache_key: 0,
        texture_cache_bypass: false,
        texture_smooth: true,
        texture_mipmap: false,
        texture_srgb: false,
        text_visible: false,
        cursor_visible: false,
        reload_required: false,
    }
}

/// An image viewer's state, with a cache of textures of type `T`.
pub struct Wiever<T> {
    image_index: usize,
    image_path_vec: Vec<String>,
    bookmark_index: usize,
    bookmark_que: VecDeque<usize>,
    history_index: usize,
    history_que: VecDeque<usize>,
    history_mode_flag: bool,
    texture_cache_key: usize,
    texture_cache: TextureCache<T>,
    texture_cache_bypass_flag: bool,
    texture_smooth_flag: bool,
    texture_mipmap_flag: bool,
    texture_srgb_flag: bool,
    text_visible_flag: bool,
    cursor_visible_flag: bool,
    reload_required_flag: bool,
}

impl<T> View for Wiever<T> {
    type V = WieverState;

    closed spec fn view(&self) -> WieverState {
        WieverState {
            image_index: self.image_index,
            image_paths: self.image_path_vec@,
            bookmark_index: self.bookmark_index,
            bookmarks: self.bookmark_que@,
            history_index: self.history_index,
            history: self.history_que@,
            history_mode: self.history_mode_flag,
            texture_cache_key: self.texture_cache_key,
            texture_cache_bypass: self.texture_cache_bypass_flag,
            texture_smooth: self.texture_smooth_flag,
            texture_mipmap: self.texture_mipmap_flag,
            texture_srgb: self.texture_srgb_flag,
            text_visible: self.text_visible_flag,
            cursor_visible: self.cursor_visible_flag,
            reload_required: self.reload_required_flag,
        }
    }
}

impl<T> Wiever<T> {
    /// The texture cache.
    pub closed spec fn cache(&self) -> TextureCache<T> {
        self.texture_cache
    }

    /// The viewer is consistent.
    pub open spec fn wf(&self) -> bool {
        &&& state_wf(self@)
        &&& self.cache().wf()
    }

    /// A viewer of the images at `image_path_vec`, showing the one at
    /// `image_index`; a negative index counts from the end, and any index
    /// wraps around.
    pub fn new(image_index: isize, image_path_vec: Vec<String>) -> (r: Self)
        requires
            0 < image_path_vec.len() <= isize::MAX,
        ensures
            r.wf(),
            r@ == spec_initial_state(image_index as int, image_path_vec@),
            r.cache().entries() == Map::<usize, CachedTexture<T>>::empty(),
            r.cache().que() == Seq::<usize>::empty(),
    {
        let image_count = image_path_vec.len();
        let image_index = crate::index::wrap_index(image_index, image_count);
        Wiever {
            image_index,
            image_path_vec,
            bookmark_index: 0,
            bookmark_que: VecDeque::new(),
            history_index: 0,
            history_que: VecDeque::new(),
            history_mode_flag: false,
            texture_cache_key: 0,
            texture_cache: TextureCache::new(),
            texture_cache_bypass_flag: false,
            texture_smooth_flag: true,
            texture_mipmap_flag: false,
            texture_srgb_flag: false,
            text_visible_flag: false,
            cursor_visible_flag: false,
            reload_required_flag: false,
        }
    }

    /// Records the image shown in the history, unless the last move went
    /// through the history.
    fn record_history(&mut self)
        requires
            old(self).wf(),
        ensures
            final(self).wf(),
            final(self)@ == spec_record_history(old(self)@),
            final(self).cache() == old(self).cache(),
    {
        proof {
            lemma_record_history_wf(self@);
        }
        if !self.history_mode_flag {
            add_to_que(&mut self.history_que, self.image_index);
            self.history_index = 0;
        }
    }

    /// Shows the image that `index` designates, with `random` as the draw
    /// for `Index::Random`; the image left is recorded in the history unless
    /// the last move went through it.
    pub fn change_image_index_with(&mut self, index: Index, random: isize)
        requires
            old(self).wf(),
            target_fits(index, old(self)@.image_index as int),
        ensures
            final(self).wf(),
            final(self)@ == spec_change_image_index(old(self)@, index, random as int),
            final(self).cache() == old(self).cache(),
    {
        if self.image_path_vec.len() == 0 {
            return;
        }
        self.record_history();
        self.history_mode_flag = false;
        let image_count = self.image_path_vec.len();
        self.image_index = resolve_index(index, self.image_index, random, image_count);
        self.reload_required_flag = true;
    }

    /// Shows the image that `index` designates, drawing at random for
    /// `Index::Random`.
    pub fn change_image_index(&mut self, index: Index)
        requires
            old(self).wf(),
            target_fits(index, old(self)@.image_index as int),
        ensures
            final(self).wf(),
            final(self).cache() == old(self).cache(),
            !(index is Random) ==> final(self)@ == spec_change_image_index(old(self)@, index, 0),
            index is Random ==> exists|r: isize|
                final(self)@ == #[trigger] spec_change_image_index(old(self)@, index, r as int),
    {
        let random = match index {
            Index::Random => random_isize(),
            _ => 0,
        };
        self.change_image_index_with(index, random);
    }

    /// Shows the bookmarked image that `index` designates, with `random` as
    /// the draw for `Index::Random`; without bookmarks nothing changes.
    pub fn change_bookmark_index_with(&mut self, index: Index, random: isize)
        requires
            old(self).wf(),
            target_fits(index, old(self)@.bookmark_index as int),
        ensures
            final(self).wf(),
            final(self)@ == spec_change_bookmark_index(old(self)@, index, random as int),
            final(self).cache() == old(self).cache(),
    {
        if self.bookmark_que.len() == 0 {
            return;
        }
        self.record_history();
        self.history_mode_flag = false;
        let count = self.bookmark_que.len();
        proof {
            lemma_distinct_below_len(self.bookmark_que@, image_count(self@));
        }
        self.bookmark_index = resolve_index(index, self.bookmark_index, random, count);
        self.image_index = self.bookmark_que[self.bookmark_index];
        self.reload_required_flag = true;
    }

    /// Shows the bookmarked image that `index` designates, drawing at random
    /// for `Index::Random`; without bookmarks nothing changes.
    pub fn change_bookmark_index(&mut self, index: Index)
        requires
            old(self).wf(),
            target_fits(index, old(self)@.bookmark_index as int),
        ensures
            final(self).wf(),
            final(self).cache() == old(self).cache(),
            !(index is Random) ==> final(self)@ == spec_change_bookmark_index(old(self)@, index, 0),
            index is Random ==> exists|r: isize|
                final(self)@ == #[trigger] spec_change_bookmark_index(old(self)@, index, r as int),
    {
        let random = match index {
            Index::Random => random_isize(),
            _ => 0,
        };
        self.change_bookmark_index_with(index, random);
    }

    /// Shows the image of the history entry that `index` designates, with
    /// `random` as the draw for `Index::Random`; the image left is first
    /// recorded in the history unless the last move went through it. Without
    /// history nothing changes.
    pub fn change_history_index_with(&mut self, index: Index, random: isize)
        requires
            old(self).wf(),
            target_fits(index, spec_record_history(old(self)@).history_index as int),
        ensures
            final(self).wf(),
            final(self)@ == spec_change_history_index(old(self)@, index, random as int),
            final(self).cache() == old(self).cache(),
    {
        if self.history_que.len() == 0 {
            return;
        }
        self.record_history();
        self.history_mode_flag = true;
        let count = self.history_que.len();
        proof {
            lemma_distinct_below_len(self.history_que@, image_count(self@));
        }
        self.history_index = resolve_index(index, self.history_index, random, count);
        self.image_index = self.history_que[self.history_index];
        self.reload_required_flag = true;
    }

    /// Shows the image of the history entry that `index` designates, drawing
    /// at random for `Index::Random`; without history nothing changes.
    pub fn change_history_index(&mut self, index: Index)
        requires
            old(self).wf(),
            target_fits(index, spec_record_history(old(self)@).history_index as int),
        ensures
            final(self).wf(),
            final(self).cache() == old(self).cache(),
            !(index is Random) ==> final(self)@ == spec_change_history_index(old(self)@, index, 0),
            index is Random ==> exists|r: isize|
                final(self)@ == #[trigger] spec_change_history_index(old(self)@, index, r as int),
    {
        let random = match index {
            Index::Random => random_isize(),
            _ => 0,
        };
        self.change_history_index_with(index, random);
    }

    /// Bookmarks the image shown, as the most recent bookmark.
    pub fn add_bookmark(&mut self)
        requires
            old(self).wf(),
        ensures
            final(self).wf(),
            final(self)@ == spec_add_bookmark(old(self)@),
            final(self).cache() == old(self).cache(),
    {
        proof {
            lemma_with_front_no_duplicates(self.bookmark_que@, self.image_index);
        }
        add_to_que(&mut self.bookmark_que, self.image_index);
        self.bookmark_index = 0;
        proof {
            let b = self.bookmark_que@;
            let b0 = old(self).bookmark_que@;
            assert(b == spec_with_front(b0, self.image_index));
            assert forall|i: int| 0 <= i < b.len() implies #[trigger] b[i] < image_count(self@) by {
                assert(b.contains(b[i]));
                if b[i] != self.image_index {
                    assert(b0.contains(b[i]));
                    let j = choose|j: int| 0 <= j < b0.len() && b0[j] == b[i];
                }
            }
        }
    }

    /// Takes the image shown out of the bookmarks.
    pub fn remove_bookmark(&mut self)
        requires
            old(self).wf(),
        ensures
            final(self).wf(),
            final(self)@ == spec_remove_bookmark(old(self)@),
            final(self).cache() == old(self).cache(),
    {
        proof {
            lemma_without_no_duplicates(self.bookmark_que@, self.image_index);
        }
        remove_from_que(&mut self.bookmark_que, self.image_index);
        self.bookmark_index = 0;
        proof {
            let b = self.bookmark_que@;
            assert forall|i: int| 0 <= i < b.len() implies #[trigger] b[i] < image_count(self@) by {
                assert(b.contains(b[i]));
                lemma_without_contains(old(self).bookmark_que@, old(self).image_index, b[i]);
                let j = choose|j: int| 0 <= j < old(self).bookmark_que@.len() && old(self).bookmark_que@[j] == b[i];
            }
        }
    }

    /// Marks the viewer closed: the texture loop is to stop waiting for events.
    pub fn close(&mut self)
        requires
            old(self).wf(),
        ensures
            final(self).wf(),
            final(self)@ == (WieverState { reload_required: true, ..old(self)@ }),
            final(self).cache() == old(self).cache(),
    {
        self.reload_required_flag = true;
    }

    /// Takes the cached texture of the image shown out of the cache. It is
    /// handed back unless the cache is to be bypassed; then it is dropped.
    pub fn take_cached_texture(&mut self) -> (r: Option<T>)
        requires
            old(self).wf(),
        ensures
            final(self).wf(),
            final(self)@ == old(self)@,
            final(self).cache().entries() == old(self).cache().entries().remove(old(self)@.image_index),
            final(self).cache().que() == old(self).cache().que(),
            r == (if !old(self)@.texture_cache_bypass && old(self).cache().entries().contains_key(old(self)@.image_index) {
                Some(old(self).cache().entries()[old(self)@.image_index].texture)
            } else {
                None::<T>
            }),
    {
        let cached = self.texture_cache.take(self.image_index);
        if self.texture_cache_bypass_flag {
            None
        } else {
            match cached {
                Some(entry) => Some(entry.texture),
                None => None,
            }
        }
    }

    /// Records that the texture of the image shown was created: it is the
    /// one to cache next, the cache is no longer bypassed and no reload is due.
    pub fn finish_texture(&mut self)
        requires
            old(self).wf(),
        ensures
            final(self).wf(),
            final(self)@ == (WieverState {
                texture_cache_key: old(self)@.image_index,
                texture_cache_bypass: false,
                reload_required: false,
                ..old(self)@
            }),
            final(self).cache() == old(self).cache(),
    {
        self.texture_cache_key = self.image_index;
        self.texture_cache_bypass_flag = false;
        self.reload_required_flag = false;
    }

    /// Caches `texture`, of `width` by `height` pixels, as the texture of the
    /// image it was created for, unless the cache is bypassed; then it is
    /// dropped.
    pub fn cache_texture(&mut self, texture: T, width: u32, height: u32)
        requires
            old(self).wf(),
            !old(self)@.texture_cache_bypass ==> old(self).cache().spec_insert_fits(
                old(self)@.texture_cache_key,
                width,
                height,
            ),
        ensures
            final(self).wf(),
            final(self)@ == old(self)@,
            old(self)@.texture_cache_bypass ==> final(self).cache() == old(self).cache(),
            !old(self)@.texture_cache_bypass ==> old(self).cache().spec_insert(
                old(self)@.texture_cache_key,
                CachedTexture { texture, width, height },
                final(self).cache(),
            ),
    {
        if self.texture_cache_bypass_flag {
            return;
        }
        self.texture_cache.insert(self.texture_cache_key, texture, width, height);
    }

    /// Empties the texture cache.
    pub fn clear_texture_cache(&mut self)
        requires
            old(self).wf(),
        ensures
            final(self).wf(),
            final(self)@ == old(self)@,
            final(self).cache().entries() == Map::<usize, CachedTexture<T>>::empty(),
            final(self).cache().que() == Seq::<usize>::empty(),
    {
        self.texture_cache.clear();
    }

    /// Whether `cache_texture` can count the bytes of a texture of `width` by
    /// `height` pixels within `usize`: it always can while the cache is bypassed.
    pub fn can_cache_texture(&self, width: u32, height: u32) -> (r: bool)
        requires
            self.wf(),
        ensures
            r == (self@.texture_cache_bypass || self.cache().spec_insert_fits(self@.texture_cache_key, width, height)),
    {
        if self.texture_cache_bypass_flag {
            true
        } else {
            self.texture_cache.insert_fits(self.texture_cache_key, width, height)
        }
    }

    /// The bytes held by the texture cache.
    pub fn texture_cache_byte_size(&self) -> (r: usize)
        requires
            self.wf(),
        ensures
            r == self.cache().spec_byte_size(),
    {
        self.texture_cache.byte_size()
    }

    /// Asks for the texture of the image shown to be read anew, bypassing
    /// the cache, as after a change of its resampling.
    pub fn request_resample(&mut self)
        requires
            old(self).wf(),
        ensures
            final(self).wf(),
            final(self)@ == (WieverState { texture_cache_bypass: true, reload_required: true, ..old(self)@ }),
            final(self).cache() == old(self).cache(),
    {
        self.texture_cache_bypass_flag = true;
        self.reload_required_flag = true;
    }

    /// Switches texture smoothing, which takes a reload.
    pub fn toggle_texture_smooth(&mut self)
        requires
            old(self).wf(),
        ensures
            final(self).wf(),
            final(self)@ == (WieverState {
                texture_smooth: !old(self)@.texture_smooth,
                reload_required: true,
                ..old(self)@
            }),
            final(self).cache() == old(self).cache(),
    {
        self.texture_smooth_flag = !self.texture_smooth_flag;
        self.reload_required_flag = true;
    }

    /// Switches mipmapping, which takes a texture read anew.
    pub fn toggle_texture_mipmap(&mut self)
        requires
            old(self).wf(),
        ensures
            final(self).wf(),
            final(self)@ == (WieverState {
                texture_mipmap: !old(self)@.texture_mipmap,
                texture_cache_bypass: true,
                reload_required: true,
                ..old(self)@
            }),
            final(self).cache() == old(self).cache(),
    {
        self.texture_mipmap_flag = !self.texture_mipmap_flag;
        self.texture_cache_bypass_flag = true;
        self.reload_required_flag = true;
    }

    /// Switches sRGB textures, which takes a texture read anew.
    pub fn toggle_texture_srgb(&mut self)
        requires
            old(self).wf(),
        ensures
            final(self).wf(),
            final(self)@ == (WieverState {
                texture_srgb: !old(self)@.texture_srgb,
                texture_cache_bypass: true,
                reload_required: true,
                ..old(self)@
            }),
            final(self).cache() == old(self).cache(),
    {
        self.texture_srgb_flag = !self.texture_srgb_flag;
        self.texture_cache_bypass_flag = true;
        self.reload_required_flag = true;
    }

    /// Shows or hides the text overlay.
    pub fn toggle_text_visible(&mut self)
        requires
            old(self).wf(),
        ensures
            final(self).wf(),
            final(self)@ == (WieverState { text_visible: !old(self)@.text_visible, ..old(self)@ }),
            final(self).cache() == old(self).cache(),
    {
        self.text_visible_flag = !self.text_visible_flag;
    }

    /// Shows or hides the mouse cursor.
    pub fn toggle_cursor_visible(&mut self)
        requires
            old(self).wf(),
        ensures
            final(self).wf(),
            final(self)@ == (WieverState { cursor_visible: !old(self)@.cursor_visible, ..old(self)@ }),
            final(self).cache() == old(self).cache(),
    {
        self.cursor_visible_flag = !self.cursor_visible_flag;
    }

    /// The window title: the index of the image shown, the number of images
    /// and the path of the image shown.
    pub fn get_window_title(&self) -> (r: String)
        requires
            self.wf(),
        ensures
            r@ == spec_window_title(
                self@.image_index as nat,
                image_count(self@),
                self@.image_paths[self@.image_index as int]@,
            ),
    {
        let path = &self.image_path_vec[self.image_index];
        window_title(self.image_index, self.image_path_vec.len(), path.as_str())
    }

    /// The index of the image shown.
    pub fn image_index(&self) -> (r: usize)
        ensures
            r == self@.image_index,
    {
        self.image_index
    }

    /// The number of images.
    pub fn image_count(&self) -> (r: usize)
        ensures
            r == image_count(self@),
    {
        self.image_path_vec.len()
    }

    /// The path of the image shown.
    pub fn image_path(&self) -> (r: &String)
        requires
            self.wf(),
        ensures
            *r == self@.image_paths[self@.image_index as int],
    {
        &self.image_path_vec[self.image_index]
    }

    /// The position last moved to among the bookmarks.
    pub fn bookmark_index(&self) -> (r: usize)
        ensures
            r == self@.bookmark_index,
    {
        self.bookmark_index
    }

    /// The bookmarked image indices, most recent first.
    pub fn bookmark_que(&self) -> (r: &VecDeque<usize>)
        ensures
            r@ == self@.bookmarks,
    {
        &self.bookmark_que
    }

    /// The position last moved to in the history.
    pub fn history_index(&self) -> (r: usize)
        ensures
            r == self@.history_index,
    {
        self.history_index
    }

    /// The image indices left, most recent first.
    pub fn history_que(&self) -> (r: &VecDeque<usize>)
        ensures
            r@ == self@.history,
    {
        &self.history_que
    }

    /// The last move went through the history.
    pub fn history_mode_flag(&self) -> (r: bool)
        ensures
            r == self@.history_mode,
    {
        self.history_mode_flag
    }

    /// Textures are smoothed.
    pub fn texture_smooth_flag(&self) -> (r: bool)
        ensures
            r == self@.texture_smooth,
    {
        self.texture_smooth_flag
    }

    /// Textures are mipmapped.
    pub fn texture_mipmap_flag(&self) -> (r: bool)
        ensures
            r == self@.texture_mipmap,
    {
        self.texture_mipmap_flag
    }

    /// Textures are sRGB.
    pub fn texture_srgb_flag(&self) -> (r: bool)
        ensures
            r == self@.texture_srgb,
    {
        self.texture_srgb_flag
    }

    /// The text overlay is shown.
    pub fn text_visible_flag(&self) -> (r: bool)
        ensures
            r == self@.text_visible,
    {
        self.text_visible_flag
    }

    /// The mouse cursor is shown.
    pub fn cursor_visible_flag(&self) -> (r: bool)
        ensures
            r == self@.cursor_visible,
    {
        self.cursor_visible_flag
    }

    /// A texture is to be created before the next display.
    pub fn reload_required_flag(&self) -> (r: bool)
        ensures
            r == self@.reload_required,
    {
        self.reload_required_flag
    }
}

} // verus!
