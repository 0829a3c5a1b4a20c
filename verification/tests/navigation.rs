use std::collections::VecDeque;

use wiev::index::{resolve_index, wrap_index};
use wiev::que::{add_to_que, remove_from_que};
use wiev::title::{push_decimal, window_title};
use wiev::{Index, Wiever};

fn paths(n: usize) -> Vec<String> {
    (0..n).map(|i| format!("img{}.png", i)).collect()
}

fn que(values: &[usize]) -> VecDeque<usize> {
    values.iter().copied().collect()
}

fn as_vec(q: &VecDeque<usize>) -> Vec<usize> {
    q.iter().copied().collect()
}

#[test]
fn wrap_index_is_euclidean_remainder() {
    assert_eq!(wrap_index(0, 3), 0);
    assert_eq!(wrap_index(4, 3), 1);
    assert_eq!(wrap_index(-1, 3), 2);
    assert_eq!(wrap_index(-3, 3), 0);
    assert_eq!(wrap_index(-42, 3), 0);
    assert_eq!(wrap_index(-43, 5), 2);
    assert_eq!(wrap_index(isize::MIN, 7), isize::MIN.rem_euclid(7) as usize);
    assert_eq!(wrap_index(isize::MAX, 10), 7);
}

#[test]
fn resolve_index_by_position_offset_and_draw() {
    assert_eq!(resolve_index(Index::Position(-1), 1, 0, 4), 3);
    assert_eq!(resolve_index(Index::Offset(-2), 1, 0, 4), 3);
    assert_eq!(resolve_index(Index::Offset(10), 1, 0, 4), 3);
    assert_eq!(resolve_index(Index::Random, 1, -5, 4), 3);
    assert_eq!(resolve_index(Index::Random, 1, 9, 4), 1);
}

#[test]
fn start_index_counts_from_the_end_and_wraps() {
    let w: Wiever<u32> = Wiever::new(0, paths(3));
    assert_eq!(w.image_index(), 0);
    let w: Wiever<u32> = Wiever::new(-1, paths(3));
    assert_eq!(w.image_index(), 2);
    let w: Wiever<u32> = Wiever::new(-42, paths(3));
    assert_eq!(w.image_index(), 0);
    let w: Wiever<u32> = Wiever::new(7, paths(3));
    assert_eq!(w.image_index(), 1);
    assert_eq!(w.image_count(), 3);
    assert_eq!(w.image_path(), "img1.png");
    assert!(!w.reload_required_flag());
    assert!(w.texture_smooth_flag());
    assert!(!w.texture_mipmap_flag());
    assert!(!w.texture_srgb_flag());
    assert!(!w.text_visible_flag());
    assert!(!w.cursor_visible_flag());
}

#[test]
fn add_to_que_moves_value_to_front() {
    let mut q = que(&[3, 1, 2]);
    add_to_que(&mut q, 2);
    assert_eq!(as_vec(&q), vec![2, 3, 1]);
    add_to_que(&mut q, 5);
    assert_eq!(as_vec(&q), vec![5, 2, 3, 1]);
    add_to_que(&mut q, 5);
    assert_eq!(as_vec(&q), vec![5, 2, 3, 1]);
}

#[test]
fn remove_from_que_keeps_the_order_of_the_rest() {
    let mut q = que(&[3, 1, 2, 1]);
    remove_from_que(&mut q, 1);
    assert_eq!(as_vec(&q), vec![3, 2]);
    remove_from_que(&mut q, 9);
    assert_eq!(as_vec(&q), vec![3, 2]);
}

#[test]
fn image_offsets_wrap_and_record_history() {
    let mut w: Wiever<u32> = Wiever::new(0, paths(5));
    w.change_image_index(Index::Offset(-1));
    assert_eq!(w.image_index(), 4);
    assert!(w.reload_required_flag());
    assert_eq!(as_vec(w.history_que()), vec![0]);
    w.change_image_index(Index::Offset(12));
    assert_eq!(w.image_index(), 1);
    assert_eq!(as_vec(w.history_que()), vec![4, 0]);
    w.change_image_index(Index::Position(-1));
    assert_eq!(w.image_index(), 4);
    assert_eq!(as_vec(w.history_que()), vec![1, 4, 0]);
    assert_eq!(w.history_index(), 0);
}

#[test]
fn image_offset_round_trip() {
    let mut w: Wiever<u32> = Wiever::new(2, paths(7));
    w.change_image_index(Index::Offset(100));
    w.change_image_index(Index::Offset(-100));
    assert_eq!(w.image_index(), 2);
}

#[test]
fn random_image_stays_in_range() {
    let mut w: Wiever<u32> = Wiever::new(0, paths(3));
    for _ in 0..50 {
        w.change_image_index(Index::Random);
        assert!(w.image_index() < 3);
    }
    let mut w: Wiever<u32> = Wiever::new(0, paths(3));
    w.change_image_index_with(Index::Random, -7);
    assert_eq!(w.image_index(), 2);
}

#[test]
fn history_steps_back_and_forth() {
    let mut w: Wiever<u32> = Wiever::new(0, paths(10));
    w.change_image_index(Index::Position(3));
    w.change_image_index(Index::Position(7));
    assert_eq!(as_vec(w.history_que()), vec![3, 0]);
    // a step back records the image shown and goes to the one left
    w.change_history_index(Index::Offset(1));
    assert_eq!(as_vec(w.history_que()), vec![7, 3, 0]);
    assert_eq!(w.history_index(), 1);
    assert_eq!(w.image_index(), 3);
    // further steps move through the history without recording
    w.change_history_index(Index::Offset(1));
    assert_eq!(w.image_index(), 0);
    assert_eq!(as_vec(w.history_que()), vec![7, 3, 0]);
    w.change_history_index(Index::Offset(1));
    assert_eq!(w.history_index(), 0);
    assert_eq!(w.image_index(), 7);
    w.change_history_index(Index::Offset(-1));
    assert_eq!(w.image_index(), 0);
    // a move by image ends the history mode
    w.change_image_index(Index::Offset(1));
    assert_eq!(w.image_index(), 1);
    assert_eq!(as_vec(w.history_que()), vec![7, 3, 0]);
    w.change_image_index(Index::Offset(1));
    assert_eq!(as_vec(w.history_que()), vec![1, 7, 3, 0]);
}

#[test]
fn history_without_entries_changes_nothing() {
    let mut w: Wiever<u32> = Wiever::new(4, paths(6));
    w.change_history_index(Index::Offset(1));
    assert_eq!(w.image_index(), 4);
    assert!(!w.reload_required_flag());
    assert_eq!(w.history_que().len(), 0);
}

#[test]
fn bookmarks_are_added_visited_and_removed() {
    let mut w: Wiever<u32> = Wiever::new(0, paths(10));
    w.change_bookmark_index(Index::Offset(1));
    assert_eq!(w.image_index(), 0);
    assert!(!w.reload_required_flag());
    w.add_bookmark();
    w.change_image_index(Index::Position(5));
    w.add_bookmark();
    w.change_image_index(Index::Position(8));
    w.add_bookmark();
    assert_eq!(as_vec(w.bookmark_que()), vec![8, 5, 0]);
    assert_eq!(w.bookmark_index(), 0);
    w.change_bookmark_index(Index::Offset(1));
    assert_eq!(w.image_index(), 5);
    assert_eq!(w.bookmark_index(), 1);
    w.change_bookmark_index(Index::Position(-1));
    assert_eq!(w.image_index(), 0);
    w.add_bookmark();
    assert_eq!(as_vec(w.bookmark_que()), vec![0, 8, 5]);
    w.remove_bookmark();
    assert_eq!(as_vec(w.bookmark_que()), vec![8, 5]);
    assert_eq!(w.bookmark_index(), 0);
    w.remove_bookmark();
    assert_eq!(as_vec(w.bookmark_que()), vec![8, 5]);
}

#[test]
fn bookmark_then_first_bookmark_returns() {
    let mut w: Wiever<u32> = Wiever::new(6, paths(9));
    w.add_bookmark();
    w.change_image_index(Index::Offset(2));
    w.change_bookmark_index(Index::Position(0));
    assert_eq!(w.image_index(), 6);
}

#[test]
fn toggles_flip_their_flags() {
    let mut w: Wiever<u32> = Wiever::new(0, paths(2));
    w.toggle_text_visible();
    assert!(w.text_visible_flag());
    assert!(!w.reload_required_flag());
    w.toggle_text_visible();
    assert!(!w.text_visible_flag());
    w.toggle_cursor_visible();
    assert!(w.cursor_visible_flag());
    w.toggle_texture_smooth();
    assert!(!w.texture_smooth_flag());
    assert!(w.reload_required_flag());
    w.toggle_texture_mipmap();
    assert!(w.texture_mipmap_flag());
    w.toggle_texture_srgb();
    assert!(w.texture_srgb_flag());
}

#[test]
fn close_asks_for_reload() {
    let mut w: Wiever<u32> = Wiever::new(0, paths(2));
    w.close();
    assert!(w.reload_required_flag());
}

#[test]
fn decimal_numerals() {
    let mut s = String::from("n=");
    push_decimal(&mut s, 0);
    assert_eq!(s, "n=0");
    let mut s = String::new();
    push_decimal(&mut s, 1234567890);
    assert_eq!(s, "1234567890");
    let mut s = String::new();
    push_decimal(&mut s, usize::MAX);
    assert_eq!(s, usize::MAX.to_string());
}

#[test]
fn window_title_names_index_total_and_path() {
    assert_eq!(window_title(2, 3, "c.png"), "wiev  ::  2 / 3  ::  c.png");
    let w: Wiever<u32> = Wiever::new(-1, vec!["a.jpg".to_string(), "b.webp".to_string(), "c.png".to_string()]);
    assert_eq!(w.get_window_title(), "wiev  ::  2 / 3  ::  c.png");
}

#[test]
fn bookmarking_twice_is_bookmarking_once() {
    let mut w: Wiever<u32> = Wiever::new(0, paths(4));
    w.add_bookmark();
    w.change_image_index(Index::Position(2));
    w.add_bookmark();
    w.add_bookmark();
    assert_eq!(as_vec(w.bookmark_que()), vec![2, 0]);
}

#[test]
fn removing_right_after_bookmarking_is_removing() {
    let mut w: Wiever<u32> = Wiever::new(1, paths(4));
    w.add_bookmark();
    w.change_image_index(Index::Position(3));
    w.add_bookmark();
    w.remove_bookmark();
    assert_eq!(as_vec(w.bookmark_que()), vec![1]);
}

#[test]
fn history_mode_follows_the_last_move() {
    let mut w: Wiever<u32> = Wiever::new(0, paths(4));
    assert!(!w.history_mode_flag());
    w.change_image_index(Index::Offset(1));
    w.change_history_index(Index::Offset(1));
    assert!(w.history_mode_flag());
    assert_eq!(w.image_index(), 0);
    w.add_bookmark();
    w.change_bookmark_index(Index::Position(0));
    assert!(!w.history_mode_flag());
}

#[test]
fn history_round_trip_returns() {
    let mut w: Wiever<u32> = Wiever::new(0, paths(10));
    w.change_image_index(Index::Position(3));
    w.change_image_index(Index::Position(7));
    w.change_image_index(Index::Position(5));
    w.change_history_index(Index::Offset(2));
    assert_eq!(w.image_index(), 3);
    w.change_history_index(Index::Offset(5));
    w.change_history_index(Index::Offset(-5));
    assert_eq!(w.image_index(), 3);
    let mut w: Wiever<u32> = Wiever::new(4, paths(10));
    w.change_image_index(Index::Position(1));
    w.change_history_index(Index::Offset(3));
    w.change_history_index(Index::Offset(-3));
    assert_eq!(w.image_index(), 1);
}
