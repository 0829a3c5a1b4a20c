use wiev::cache::texture_byte_size;
use wiev::{Index, TextureCache, Wiever, TEXTURE_CACHE_MAX_BYTE_SIZE};

fn paths(n: usize) -> Vec<String> {
    (0..n).map(|i| format!("img{}.png", i)).collect()
}

// 8192 x 8192 pixels at four bytes a pixel: a quarter of a GiB, half the bound
const HALF_SIDE: u32 = 8192;

#[test]
fn texture_byte_size_is_four_bytes_a_pixel() {
    assert_eq!(texture_byte_size(3, 5), 60);
    assert_eq!(texture_byte_size(0, 5), 0);
    assert_eq!(texture_byte_size(HALF_SIDE, HALF_SIDE) * 2, TEXTURE_CACHE_MAX_BYTE_SIZE);
}

#[test]
fn cache_hands_back_what_it_holds() {
    let mut c: TextureCache<&str> = TextureCache::new();
    assert_eq!(c.byte_size(), 0);
    c.insert(4, "four", 2, 3);
    c.insert(7, "seven", 1, 1);
    assert_eq!(c.byte_size(), 28);
    let t = c.take(4);
    assert!(matches!(t, Some(ref e) if e.texture == "four" && e.width == 2 && e.height == 3));
    assert_eq!(c.byte_size(), 4);
    assert!(c.take(4).is_none());
    assert!(c.take(9).is_none());
    c.clear();
    assert_eq!(c.byte_size(), 0);
    assert!(c.take(7).is_none());
}

#[test]
fn cache_drops_oldest_textures_past_its_bound() {
    let mut c: TextureCache<u32> = TextureCache::new();
    c.insert(1, 1, HALF_SIDE, HALF_SIDE);
    c.insert(2, 2, HALF_SIDE, HALF_SIDE);
    // exactly at the bound: both stay
    assert_eq!(c.byte_size(), TEXTURE_CACHE_MAX_BYTE_SIZE);
    c.insert(3, 3, HALF_SIDE, HALF_SIDE);
    assert_eq!(c.byte_size(), TEXTURE_CACHE_MAX_BYTE_SIZE);
    assert!(c.take(1).is_none());
    assert!(matches!(c.take(2), Some(e) if e.texture == 2));
    assert!(matches!(c.take(3), Some(e) if e.texture == 3));
}

#[test]
fn recaching_a_key_makes_it_the_newest() {
    let mut c: TextureCache<u32> = TextureCache::new();
    c.insert(1, 10, HALF_SIDE, HALF_SIDE);
    c.insert(2, 20, HALF_SIDE, HALF_SIDE);
    c.insert(1, 11, HALF_SIDE, HALF_SIDE);
    assert_eq!(c.byte_size(), TEXTURE_CACHE_MAX_BYTE_SIZE);
    c.insert(3, 30, HALF_SIDE, HALF_SIDE);
    assert!(c.take(2).is_none());
    assert!(matches!(c.take(1), Some(e) if e.texture == 11));
}

#[test]
fn texture_above_the_bound_is_not_kept() {
    let mut c: TextureCache<u32> = TextureCache::new();
    c.insert(1, 1, 4, 4);
    c.insert(2, 2, 2 * HALF_SIDE, 2 * HALF_SIDE);
    assert_eq!(c.byte_size(), 0);
    assert!(c.take(1).is_none());
    assert!(c.take(2).is_none());
}

#[test]
fn viewer_reuses_cached_texture_of_an_image() {
    let mut w: Wiever<String> = Wiever::new(0, paths(3));
    assert!(w.take_cached_texture().is_none());
    w.finish_texture();
    w.cache_texture("texture 0".to_string(), 10, 10);
    assert_eq!(w.texture_cache_byte_size(), 400);
    w.change_image_index(Index::Offset(1));
    assert!(w.take_cached_texture().is_none());
    w.finish_texture();
    w.cache_texture("texture 1".to_string(), 1, 2);
    assert_eq!(w.texture_cache_byte_size(), 408);
    w.change_image_index(Index::Offset(-1));
    assert_eq!(w.take_cached_texture(), Some("texture 0".to_string()));
    // the texture taken out is no longer counted
    assert_eq!(w.texture_cache_byte_size(), 8);
    w.finish_texture();
    assert!(!w.reload_required_flag());
    w.clear_texture_cache();
    assert_eq!(w.texture_cache_byte_size(), 0);
}

#[test]
fn resampling_bypasses_the_cache() {
    let mut w: Wiever<String> = Wiever::new(0, paths(2));
    w.finish_texture();
    w.cache_texture("old".to_string(), 1, 1);
    w.request_resample();
    assert!(w.reload_required_flag());
    // the cached texture is dropped, not handed back
    assert!(w.take_cached_texture().is_none());
    // and the texture made while bypassing is not cached
    w.cache_texture("new".to_string(), 1, 1);
    assert_eq!(w.texture_cache_byte_size(), 0);
    w.finish_texture();
    w.cache_texture("newer".to_string(), 1, 1);
    assert_eq!(w.take_cached_texture(), Some("newer".to_string()));
}

#[test]
fn mipmap_and_srgb_toggles_bypass_the_cache() {
    let mut w: Wiever<String> = Wiever::new(0, paths(2));
    w.finish_texture();
    w.cache_texture("plain".to_string(), 1, 1);
    w.toggle_texture_mipmap();
    assert!(w.take_cached_texture().is_none());
    w.finish_texture();
    w.cache_texture("mipmapped".to_string(), 1, 1);
    w.toggle_texture_srgb();
    assert!(w.take_cached_texture().is_none());
    w.finish_texture();
    w.cache_texture("srgb".to_string(), 1, 1);
    w.toggle_texture_smooth();
    assert_eq!(w.take_cached_texture(), Some("srgb".to_string()));
}

#[test]
fn byte_counts_within_usize_can_be_cached() {
    let mut w: Wiever<u32> = Wiever::new(0, paths(2));
    assert!(w.can_cache_texture(HALF_SIDE, HALF_SIDE));
    assert!(w.can_cache_texture(u32::MAX, u32::MAX) == (usize::MAX as u128 >= (u32::MAX as u128) * (u32::MAX as u128) * 4));
    w.request_resample();
    assert!(w.can_cache_texture(u32::MAX, u32::MAX));
    let c: TextureCache<u32> = TextureCache::new();
    assert!(c.insert_fits(0, 1, 1));
}
