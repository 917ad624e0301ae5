use std::collections::VecDeque;
use rumu::command::{Event, Response};
use rumu::song::Song;
use rumu::songqueue::SongQueue;

fn song(title: &str) -> Song {
    Song {
        title: String::from(title),
        album: String::from("album"),
        artist: String::from("artist"),
        genre: String::from("genre"),
        year: 2000,
        track_num: 1,
        duration: 180,
        path: format!("/music/{}.ogg", title),
        lyrics: String::new(),
        hash: String::new(),
        size: 1,
    }
}

fn queue_of(titles: &[&str], selection: Option<u32>, playing: Option<u32>) -> SongQueue {
    let mut q: VecDeque<Song> = VecDeque::new();
    for t in titles {
        q.push_back(song(t));
    }
    SongQueue { queue: q, selection, currently_playing: playing }
}

fn titles(q: &SongQueue) -> Vec<String> {
    q.queue.iter().map(|s| s.title.clone()).collect()
}

#[test]
fn swap_with_next_moves_the_playing_pointer_with_its_song() {
    let mut q = queue_of(&["S1", "S2", "S3"], Some(1), Some(1));
    q.swap_down();
    assert_eq!(titles(&q), vec!["S1", "S3", "S2"]);
    assert_eq!(q.get_currently_playing(), Some(2));
    assert_eq!(q.get_selection(), Some(2));
}

#[test]
fn pop_front_drops_the_playing_pointer_with_its_song() {
    let mut q = queue_of(&["S1", "S2"], Some(1), Some(0));
    q.pop_front();
    assert_eq!(titles(&q), vec!["S2"]);
    assert_eq!(q.get_currently_playing(), None);
    assert_eq!(q.get_selection(), Some(0));
}

#[test]
fn pop_front_without_a_selection_leaves_it_absent() {
    let mut q = queue_of(&["S1", "S2"], None, Some(0));
    q.pop_front();
    assert_eq!(titles(&q), vec!["S2"]);
    assert_eq!(q.get_currently_playing(), None);
    assert_eq!(q.get_selection(), None);
}

#[test]
fn pop_front_slides_a_later_playing_pointer_down() {
    let mut q = queue_of(&["S1", "S2", "S3"], Some(2), Some(2));
    q.pop_front();
    assert_eq!(titles(&q), vec!["S2", "S3"]);
    assert_eq!(q.get_currently_playing(), Some(1));
    assert_eq!(q.get_selection(), Some(1));
}

#[test]
fn removing_from_an_empty_queue_changes_nothing() {
    let mut q = SongQueue::new();
    q.remove(0);
    q.pop_front();
    assert!(q.queue.is_empty());
    assert_eq!(q.get_selection(), None);
    assert_eq!(q.get_currently_playing(), None);
}

#[test]
fn remove_keeps_the_playing_pointer_on_the_same_song() {
    let mut q = queue_of(&["S1", "S2", "S3"], Some(0), Some(2));
    q.remove(0);
    assert_eq!(titles(&q), vec!["S2", "S3"]);
    assert_eq!(q.get_currently_playing(), Some(1));
    let playing = q.get_currently_playing_song().unwrap();
    assert_eq!(playing.title, "S3");
}

#[test]
fn removing_the_playing_row_clears_the_pointer() {
    let mut q = queue_of(&["S1", "S2", "S3"], Some(1), Some(1));
    q.remove(1);
    assert_eq!(titles(&q), vec!["S1", "S3"]);
    assert_eq!(q.get_currently_playing(), None);
    assert_eq!(q.get_selection(), Some(1));
}

#[test]
fn removing_the_last_row_clamps_the_selection() {
    let mut q = queue_of(&["S1", "S2"], Some(1), None);
    q.remove(1);
    assert_eq!(titles(&q), vec!["S1"]);
    assert_eq!(q.get_selection(), Some(0));
}

#[test]
fn removing_the_only_row_empties_both_indices() {
    let mut q = queue_of(&["S1"], Some(0), Some(0));
    q.remove(0);
    assert!(q.queue.is_empty());
    assert_eq!(q.get_selection(), None);
    assert_eq!(q.get_currently_playing(), None);
}

#[test]
fn selection_wraps_both_ways() {
    let mut q = queue_of(&["S1", "S2", "S3"], Some(2), None);
    q.select_down();
    assert_eq!(q.get_selection(), Some(0));
    q.select_up();
    assert_eq!(q.get_selection(), Some(2));
}

#[test]
fn selection_starts_at_the_top_of_a_non_empty_queue() {
    let mut q = queue_of(&["S1", "S2"], None, None);
    q.select_down();
    assert_eq!(q.get_selection(), Some(0));
    let mut q2 = queue_of(&["S1", "S2"], None, None);
    q2.select_up();
    assert_eq!(q2.get_selection(), Some(0));
    let mut empty = SongQueue::new();
    empty.select_down();
    assert_eq!(empty.get_selection(), None);
}

#[test]
fn swaps_clamp_at_the_boundaries() {
    let mut q = queue_of(&["S1", "S2"], Some(1), Some(0));
    q.swap_down();
    assert_eq!(titles(&q), vec!["S1", "S2"]);
    assert_eq!(q.get_selection(), Some(1));
    assert_eq!(q.get_currently_playing(), Some(0));
    let mut q2 = queue_of(&["S1", "S2"], Some(0), Some(1));
    q2.swap_up();
    assert_eq!(titles(&q2), vec!["S1", "S2"]);
    assert_eq!(q2.get_selection(), Some(0));
    assert_eq!(q2.get_currently_playing(), Some(1));
}

#[test]
fn swap_up_moves_the_playing_pointer_of_the_other_row() {
    let mut q = queue_of(&["S1", "S2", "S3"], Some(2), Some(1));
    q.swap_up();
    assert_eq!(titles(&q), vec!["S1", "S3", "S2"]);
    assert_eq!(q.get_selection(), Some(1));
    assert_eq!(q.get_currently_playing(), Some(2));
    let playing = q.get_currently_playing_song().unwrap();
    assert_eq!(playing.title, "S2");
}

#[test]
fn push_appends_and_moves_no_index() {
    let mut q = queue_of(&["S1"], Some(0), Some(0));
    q.push(song("S2"));
    assert_eq!(titles(&q), vec!["S1", "S2"]);
    assert_eq!(q.get_selection(), Some(0));
    assert_eq!(q.get_currently_playing(), Some(0));
}

#[test]
fn accept_commits_the_selection_to_playback() {
    let mut q = queue_of(&["S1", "S2"], Some(1), None);
    let r = q.command(&Event::Accept);
    match r {
        Some(Response::PlaySong(s)) => assert_eq!(s.title, "S2"),
        _ => panic!("accept on a selection must ask to play"),
    }
    assert_eq!(q.get_currently_playing(), Some(1));
}

#[test]
fn accept_without_a_selection_does_nothing() {
    let mut q = queue_of(&["S1"], None, None);
    let r = q.command(&Event::Accept);
    assert!(r.is_none());
    assert_eq!(q.get_currently_playing(), None);
}

#[test]
fn back_deletes_the_selected_row() {
    let mut q = queue_of(&["S1", "S2", "S3"], Some(1), Some(2));
    let r = q.command(&Event::Back);
    assert!(r.is_none());
    assert_eq!(titles(&q), vec!["S1", "S3"]);
    assert_eq!(q.get_currently_playing(), Some(1));
}

#[test]
fn set_currently_playing_ignores_out_of_range_rows() {
    let mut q = queue_of(&["S1"], None, None);
    q.set_currently_playing(5);
    assert_eq!(q.get_currently_playing(), None);
    q.set_currently_playing(0);
    assert_eq!(q.get_currently_playing(), Some(0));
}

#[test]
fn get_selected_song_follows_the_selection() {
    let q = queue_of(&["S1", "S2"], Some(1), None);
    assert_eq!(q.get_selected_song().unwrap().title, "S2");
    let empty = SongQueue::new();
    assert!(empty.get_selected_song().is_none());
}
