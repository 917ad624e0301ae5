use rumu::command::{Event, Response};
use rumu::router::{AppState, EffectRequest, SelectedPanel};
use rumu::song::Song;
use rumu::songlist::SongOrder;

fn song(title: &str, album: &str, track: i64) -> Song {
    Song {
        title: String::from(title),
        album: String::from(album),
        artist: String::from("artist"),
        genre: String::from("genre"),
        year: 2000,
        track_num: track,
        duration: 180,
        path: format!("/music/{}.ogg", title),
        lyrics: String::new(),
        hash: String::new(),
        size: 1,
    }
}

#[test]
fn a_fresh_session_focuses_the_song_list() {
    let s = AppState::new();
    assert_eq!(s.panel, SelectedPanel::SongList);
    assert!(s.songlist.items.is_empty());
    assert!(s.queue.queue.is_empty());
}

#[test]
fn dispatch_reaches_only_the_focused_panel() {
    let mut s = AppState::new();
    s.install_results(vec![song("a", "A", 1), song("b", "B", 2)]);
    s.set_focus(SelectedPanel::Search);
    let before_cursor = s.songlist.get_selection();
    s.dispatch(&Event::Char('x'));
    s.dispatch(&Event::Down);
    assert!(s.search.query.ends_with('x'));
    assert_eq!(s.songlist.get_selection(), before_cursor);
    assert_eq!(s.queue.get_selection(), None);
}

#[test]
fn accept_on_the_song_list_queues_the_selected_song() {
    let mut s = AppState::new();
    s.install_results(vec![song("a", "A", 1), song("b", "B", 2)]);
    s.dispatch(&Event::Down);
    let r = s.dispatch(&Event::Accept);
    let queued = match r {
        Some(Response::QueueSong(x)) => x,
        _ => panic!("accept on the song list must queue the song under the cursor"),
    };
    assert_eq!(queued.title, "b");
    let eff = s.apply_response(Response::QueueSong(queued));
    assert!(eff.is_none());
    assert_eq!(s.queue.queue.len(), 1);
    assert_eq!(s.queue.queue[0].title, "b");
}

#[test]
fn accept_on_an_empty_song_list_produces_nothing() {
    let mut s = AppState::new();
    let r = s.dispatch(&Event::Accept);
    assert!(r.is_none());
}

#[test]
fn navigator_accept_becomes_a_query_request() {
    let mut s = AppState::new();
    let mut albums = vec![String::from("Blue")];
    s.navigator.fill_category(0, &mut albums);
    s.set_focus(SelectedPanel::Nav);
    s.dispatch(&Event::Down);
    let r = s.dispatch(&Event::Accept).expect("a field query");
    let eff = s.apply_response(r).expect("an effect");
    match eff {
        EffectRequest::RunQuery(q) => assert_eq!(q.album.as_deref(), Some("Blue")),
        _ => panic!("a field query must become a query request"),
    }
}

#[test]
fn search_accept_becomes_a_text_query_request() {
    let mut s = AppState::new();
    s.set_focus(SelectedPanel::Search);
    s.dispatch(&Event::Back);
    let r = s.dispatch(&Event::Accept).expect("a text query");
    let eff = s.apply_response(r).expect("an effect");
    match eff {
        EffectRequest::RunTextQuery(t) => assert_eq!(t, "test search quer"),
        _ => panic!("a text query must become a text query request"),
    }
}

#[test]
fn queue_accept_becomes_a_play_request() {
    let mut s = AppState::new();
    s.apply_response(Response::QueueSong(song("a", "A", 1)));
    s.set_focus(SelectedPanel::Queue);
    s.dispatch(&Event::Down);
    let r = s.dispatch(&Event::Accept).expect("a play response");
    let eff = s.apply_response(r).expect("an effect");
    match eff {
        EffectRequest::PlayFile(path) => assert_eq!(path, "/music/a.ogg"),
        _ => panic!("playing a song must become a play request"),
    }
    assert_eq!(s.queue.get_currently_playing(), Some(0));
}

#[test]
fn stop_becomes_a_stop_request() {
    let mut s = AppState::new();
    let eff = s.apply_response(Response::StopSong).expect("an effect");
    assert!(matches!(eff, EffectRequest::StopPlayback));
}

#[test]
fn install_results_sorts_by_album_and_resets_the_cursor() {
    let mut s = AppState::new();
    s.dispatch(&Event::Down);
    s.install_results(vec![song("late", "B", 1), song("early", "A", 1)]);
    assert_eq!(s.songlist.get_selection(), 0);
    let titles: Vec<String> = s.songlist.get_items().iter().map(|x| x.title.clone()).collect();
    assert_eq!(titles, vec!["early", "late"]);
}

#[test]
fn song_finished_pops_the_front_and_names_the_next_song() {
    let mut s = AppState::new();
    s.apply_response(Response::QueueSong(song("a", "A", 1)));
    s.apply_response(Response::QueueSong(song("b", "B", 2)));
    s.queue.set_currently_playing(1);
    let next = s.song_finished().expect("the next song");
    assert_eq!(next.title, "b");
    assert_eq!(s.queue.queue.len(), 1);
    assert_eq!(s.queue.get_currently_playing(), Some(0));
    let none = s.song_finished();
    assert!(none.is_none());
    assert!(s.queue.queue.is_empty());
}

#[test]
fn play_front_starts_the_queue_from_row_zero() {
    let mut s = AppState::new();
    assert!(s.play_front().is_none());
    s.apply_response(Response::QueueSong(song("a", "A", 1)));
    s.apply_response(Response::QueueSong(song("b", "B", 2)));
    let first = s.play_front().expect("the front song");
    assert_eq!(first.title, "a");
    assert_eq!(s.queue.get_currently_playing(), Some(0));
}

#[test]
fn ordering_an_installed_list_again_is_idempotent() {
    let mut s = AppState::new();
    s.install_results(vec![song("c", "C", 1), song("a", "A", 1), song("b", "B", 1)]);
    let once: Vec<String> = s.songlist.get_items().iter().map(|x| x.title.clone()).collect();
    s.songlist.order_items(SongOrder::Album);
    let twice: Vec<String> = s.songlist.get_items().iter().map(|x| x.title.clone()).collect();
    assert_eq!(once, twice);
    assert_eq!(once, vec!["a", "b", "c"]);
}
