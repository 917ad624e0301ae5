use rumu::command::{Event, Response};
use rumu::search::Search;

fn buffer(text: &str) -> Search {
    Search { query: String::from(text) }
}

#[test]
fn back_trims_one_character() {
    let mut s = buffer("abc");
    let r = s.command(&Event::Back);
    assert!(r.is_none());
    assert_eq!(s.query, "ab");
}

#[test]
fn back_on_empty_buffer_is_a_no_op() {
    let mut s = buffer("abc");
    s.command(&Event::Back);
    assert_eq!(s.query, "ab");
    s.command(&Event::Back);
    s.command(&Event::Back);
    s.command(&Event::Back);
    assert_eq!(s.query, "");
    s.command(&Event::Back);
    assert_eq!(s.query, "");
    s.command(&Event::Back);
    assert_eq!(s.query, "");
}

#[test]
fn characters_append_at_the_end() {
    let mut s = buffer("");
    s.command(&Event::Char('h'));
    s.command(&Event::Char('i'));
    assert_eq!(s.query, "hi");
}

#[test]
fn accept_reads_the_buffer_out() {
    let mut s = buffer("guilty");
    let r = s.command(&Event::Accept);
    match r {
        Some(Response::QueryAny(text)) => assert_eq!(text, "guilty"),
        _ => panic!("accept must produce a text query"),
    }
    assert_eq!(s.query, "guilty");
}

#[test]
fn other_events_leave_the_buffer_alone() {
    let mut s = buffer("abc");
    assert!(s.command(&Event::Up).is_none());
    assert!(s.command(&Event::Down).is_none());
    assert!(s.command(&Event::Left).is_none());
    assert!(s.command(&Event::Right).is_none());
    assert!(s.command(&Event::Nothing).is_none());
    assert_eq!(s.query, "abc");
}

#[test]
fn new_holds_the_placeholder_text() {
    let s = Search::new();
    assert_eq!(s.query, "test search query");
}

#[test]
fn back_handles_multibyte_characters() {
    let mut s = buffer("aé");
    s.command(&Event::Back);
    assert_eq!(s.query, "a");
}
