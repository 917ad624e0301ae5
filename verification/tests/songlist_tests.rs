use rumu::command::Event;
use rumu::song::Song;
use rumu::songlist::{SongList, SongOrder};

fn song(title: &str, album: &str, track: i64) -> Song {
    Song {
        title: String::from(title),
        album: String::from(album),
        artist: String::from("artist"),
        genre: String::from("genre"),
        year: 2000,
        track_num: track,
        duration: 180,
        path: format!("/music/{}.ogg", title),
        lyrics: String::new(),
        hash: String::new(),
        size: 1,
    }
}

fn list_of(n: usize) -> SongList {
    let songs: Vec<Song> = (0..n).map(|i| song(&format!("t{}", i), "a", i as i64)).collect();
    SongList::new(songs)
}

#[test]
fn up_wraps_to_the_last_row() {
    let mut l = list_of(5);
    assert_eq!(l.get_selection(), 0);
    l.command(&Event::Up);
    assert_eq!(l.get_selection(), 4);
    l.command(&Event::Down);
    assert_eq!(l.get_selection(), 0);
}

#[test]
fn down_wraps_to_the_first_row() {
    let mut l = list_of(3);
    l.command(&Event::Down);
    l.command(&Event::Down);
    assert_eq!(l.get_selection(), 2);
    l.command(&Event::Down);
    assert_eq!(l.get_selection(), 0);
}

#[test]
fn up_and_down_follow_the_modular_formula() {
    let mut l = list_of(7);
    for _ in 0..11 {
        l.command(&Event::Down);
    }
    assert_eq!(l.get_selection(), 11 % 7);
    let mut l = list_of(7);
    for _ in 0..11 {
        l.command(&Event::Up);
    }
    assert_eq!(l.get_selection(), ((0 - 11i64).rem_euclid(7)) as i32);
}

#[test]
fn right_jumps_ten_and_clamps() {
    let mut l = list_of(15);
    l.command(&Event::Right);
    assert_eq!(l.get_selection(), 10);
    l.command(&Event::Right);
    assert_eq!(l.get_selection(), 14);
    let mut s = list_of(5);
    s.command(&Event::Right);
    assert_eq!(s.get_selection(), 4);
}

#[test]
fn left_jumps_ten_and_clamps() {
    let mut l = list_of(15);
    l.command(&Event::Right);
    l.command(&Event::Right);
    l.command(&Event::Left);
    assert_eq!(l.get_selection(), 4);
    l.command(&Event::Left);
    assert_eq!(l.get_selection(), 0);
}

#[test]
fn events_on_an_empty_list_are_no_ops() {
    let mut l = list_of(0);
    l.command(&Event::Up);
    l.command(&Event::Down);
    l.command(&Event::Left);
    l.command(&Event::Right);
    assert_eq!(l.get_selection(), 0);
    assert!(l.get_items().is_empty());
}

#[test]
fn replace_items_resets_the_cursor() {
    let mut l = list_of(5);
    l.command(&Event::Down);
    assert_eq!(l.get_selection(), 1);
    l.replace_items(vec![song("x", "b", 1), song("y", "b", 2)]);
    assert_eq!(l.get_selection(), 0);
    assert_eq!(l.get_items().len(), 2);
}

#[test]
fn order_by_album_sorts_album_then_track() {
    let mut l = SongList::new(vec![
        song("late", "Beta", 1),
        song("second", "Alpha", 2),
        song("first", "Alpha", 1),
    ]);
    l.order_items(SongOrder::Album);
    let titles: Vec<String> = l.get_items().iter().map(|s| s.title.clone()).collect();
    assert_eq!(titles, vec!["first", "second", "late"]);
}

#[test]
fn order_by_album_is_stable_on_equal_keys() {
    let mut l = SongList::new(vec![
        song("one", "Same", 3),
        song("two", "Same", 3),
        song("three", "Same", 3),
    ]);
    l.order_items(SongOrder::Album);
    let titles: Vec<String> = l.get_items().iter().map(|s| s.title.clone()).collect();
    assert_eq!(titles, vec!["one", "two", "three"]);
}

#[test]
fn other_orders_leave_the_list_alone() {
    let mut l = SongList::new(vec![song("b", "B", 1), song("a", "A", 1)]);
    l.order_items(SongOrder::Title);
    let titles: Vec<String> = l.get_items().iter().map(|s| s.title.clone()).collect();
    assert_eq!(titles, vec!["b", "a"]);
}

#[test]
fn ordering_keeps_the_cursor_position() {
    let mut l = SongList::new(vec![song("b", "B", 1), song("a", "A", 1)]);
    l.command(&Event::Down);
    l.order_items(SongOrder::Album);
    assert_eq!(l.get_selection(), 1);
}
