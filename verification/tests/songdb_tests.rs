use rumu::song::Song;
use rumu::songdb::{Query, Table};

#[test]
fn table_names_match_the_schema_columns() {
    assert_eq!(Table::Title.to_string(), "title");
    assert_eq!(Table::Album.to_string(), "album");
    assert_eq!(Table::TrackNum.to_string(), "tracknumber");
    assert_eq!(Table::Artist.to_string(), "artist");
    assert_eq!(Table::Genre.to_string(), "genre");
    assert_eq!(Table::Duration.to_string(), "duration");
    assert_eq!(Table::Year.to_string(), "year");
    assert_eq!(Table::Hash.to_string(), "hash");
    assert_eq!(Table::Path.to_string(), "path");
    assert_eq!(Table::Size.to_string(), "size");
}

#[test]
fn the_empty_query_constrains_nothing() {
    let q = Query::empty();
    assert!(q.title.is_none());
    assert!(q.album.is_none());
    assert!(q.artist.is_none());
    assert!(q.genre.is_none());
    assert!(q.year.is_none());
    assert!(q.track_num.is_none());
    assert!(q.duration.is_none());
    assert!(q.path.is_none());
    assert!(q.lyrics.is_none());
    assert!(q.hash.is_none());
}

#[test]
fn a_song_reports_its_path() {
    let s = Song {
        title: String::from("t"),
        album: String::from("a"),
        artist: String::from("ar"),
        genre: String::from("g"),
        year: 1999,
        track_num: 7,
        duration: 63,
        path: String::from("/music/t.ogg"),
        lyrics: String::new(),
        hash: String::new(),
        size: 10,
    };
    assert_eq!(s.path(), "/music/t.ogg");
    let copy = s.clone();
    assert_eq!(copy.title, s.title);
    assert_eq!(copy.path, s.path);
    assert_eq!(copy.year, s.year);
}
