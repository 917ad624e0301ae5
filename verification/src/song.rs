//! The value type that every panel traffics in: one song's metadata.
//!
//! Panels hold their own copies of `Song`; the core never mutates a song in
//! place, so a panel's copy stays what it was when it was handed over.

use vstd::prelude::*;

verus! {

/// Metadata of one song, as the storage collaborator hands it out.
///
/// `duration` is in whole seconds; `size` is the file size in bytes.
pub struct Song {
    pub title: String,
    pub album: String,
    pub artist: String,
    pub genre: String,
    pub year: i64,
    pub track_num: i64,
    pub duration: i64,
    pub path: String,
    pub lyrics: String,
    pub hash: String,
    pub size: i64,
}

impl Clone for Song {
    /// A clone is the same song, field for field.
    fn clone(&self) -> (r: Song)
        ensures
            r == *self,
    {
        Song {
            title: self.title.clone(),
            album: self.album.clone(),
            artist: self.artist.clone(),
            genre: self.genre.clone(),
            year: self.year,
            track_num: self.track_num,
            duration: self.duration,
            path: self.path.clone(),
            lyrics: self.lyrics.clone(),
            hash: self.hash.clone(),
            size: self.size,
        }
    }
}

impl Song {
    /// The location of the song's file, for the player collaborator.
    pub fn path(&self) -> (r: String)
        ensures
            r == self.path,
    {
        self.path.clone()
    }
}

} // verus!
