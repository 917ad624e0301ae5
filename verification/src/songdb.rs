//! Vocabulary of the storage collaborator: the shape of a field query and the
//! names of the queryable columns.
//!
//! The store itself (a relational database) is an external collaborator; this
//! module only defines the values the core hands to it.

use vstd::prelude::*;

verus! {

/// A field-predicate set: each `Some` field constrains the matching column.
/// A query with every field `None` is unconstrained.
pub struct Query {
    pub title: Option<String>,
    pub album: Option<String>,
    pub artist: Option<String>,
    pub genre: Option<String>,
    pub year: Option<i64>,
    pub track_num: Option<i64>,
    pub duration: Option<i64>,
    pub path: Option<String>,
    pub lyrics: Option<String>,
    pub hash: Option<String>,
}

impl Query {
    /// The unconstrained query: every field is `None`.
    pub fn empty() -> (q: Query)
        ensures
            q == Query::spec_empty(),
    {
        Query {
            title: None,
            album: None,
            artist: None,
            genre: None,
            year: None,
            track_num: None,
            duration: None,
            path: None,
            lyrics: None,
            hash: None,
        }
    }

    /// What `Query::empty` returns.
    pub open spec fn spec_empty() -> Query {
        Query {
            title: None,
            album: None,
            artist: None,
            genre: None,
            year: None,
            track_num: None,
            duration: None,
            path: None,
            lyrics: None,
            hash: None,
        }
    }
}

/// The queryable columns of the song relation.
pub enum Table {
    Title,
    Album,
    TrackNum,
    Artist,
    Genre,
    Duration,
    Year,
    Hash,
    Path,
    Size,
}

impl Table {
    /// The column's name as the database schema spells it.
    pub fn to_string(&self) -> (r: String)
        ensures
            r@ == self.spec_name(),
    {
        match self {
            Table::Title => String::from_str("title"),
            Table::Album => String::from_str("album"),
            Table::TrackNum => String::from_str("tracknumber"),
            Table::Artist => String::from_str("artist"),
            Table::Genre => String::from_str("genre"),
            Table::Duration => String::from_str("duration"),
            Table::Year => String::from_str("year"),
            Table::Hash => String::from_str("hash"),
            Table::Path => String::from_str("path"),
            Table::Size => String::from_str("size"),
        }
    }

    /// The column name, at the specification level.
    pub open spec fn spec_name(&self) -> Seq<char> {
        match self {
            Table::Title => "title"@,
            Table::Album => "album"@,
            Table::TrackNum => "tracknumber"@,
            Table::Artist => "artist"@,
            Table::Genre => "genre"@,
            Table::Duration => "duration"@,
            Table::Year => "year"@,
            Table::Hash => "hash"@,
            Table::Path => "path"@,
            Table::Size => "size"@,
        }
    }
}

} // verus!
