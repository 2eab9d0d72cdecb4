//! The song record and the optional search filter, with their
//! mathematical views and the matching predicate that the search
//! endpoint applies.

use vstd::prelude::*;
use crate::text::{contains_ci, contains_ci_str};

verus! {

/// One stored song: a client supplies title, artist and genre; the
/// store assigns the id and starts the play count at zero.
pub struct Song {
    pub id: i64,
    pub title: String,
    pub artist: String,
    pub genre: String,
    pub play_count: i64,
}

/// The mathematical value of a song.
pub struct SongView {
    pub id: int,
    pub title: Seq<char>,
    pub artist: Seq<char>,
    pub genre: Seq<char>,
    pub play_count: int,
}

impl View for Song {
    type V = SongView;

    open spec fn view(&self) -> SongView {
        SongView {
            id: self.id as int,
            title: self.title@,
            artist: self.artist@,
            genre: self.genre@,
            play_count: self.play_count as int,
        }
    }
}

impl Song {
    /// A field-for-field copy of the song.
    pub fn duplicate(&self) -> (r: Song)
        ensures
            r@ == self@,
    {
        Song {
            id: self.id,
            title: self.title.clone(),
            artist: self.artist.clone(),
            genre: self.genre.clone(),
            play_count: self.play_count,
        }
    }
}

/// The view of each song in a sequence, in order.
pub open spec fn views_of(songs: Seq<Song>) -> Seq<SongView> {
    songs.map_values(|s: Song| s@)
}

/// The three optional search fields.  An absent field filters nothing;
/// a present field keeps only songs whose column contains it as a
/// case-insensitive substring.  A present empty string therefore keeps
/// every song, as the service always behaved.
pub struct SearchFilter {
    pub title: Option<String>,
    pub artist: Option<String>,
    pub genre: Option<String>,
}

/// The mathematical value of a search filter.
pub struct FilterView {
    pub title: Option<Seq<char>>,
    pub artist: Option<Seq<char>>,
    pub genre: Option<Seq<char>>,
}

impl View for SearchFilter {
    type V = FilterView;

    open spec fn view(&self) -> FilterView {
        FilterView {
            title: match self.title {
                Some(t) => Some(t@),
                None => None,
            },
            artist: match self.artist {
                Some(a) => Some(a@),
                None => None,
            },
            genre: match self.genre {
                Some(g) => Some(g@),
                None => None,
            },
        }
    }
}

/// The filter with no field present, which keeps every song.
pub open spec fn empty_filter() -> FilterView {
    FilterView { title: None, artist: None, genre: None }
}

/// The filter whose fields are exactly the song's own, as the
/// round-trip from an inserted song back to a search supplies them.
pub open spec fn exact_filter(s: SongView) -> FilterView {
    FilterView { title: Some(s.title), artist: Some(s.artist), genre: Some(s.genre) }
}

/// A song passes the filter when every present field occurs in the
/// matching column as a case-insensitive substring; the conditions are
/// conjoined, as the SQL predicates are joined with AND.
pub open spec fn matches_filter(s: SongView, f: FilterView) -> bool {
    &&& (f.title matches Some(t) ==> contains_ci(s.title, t))
    &&& (f.artist matches Some(a) ==> contains_ci(s.artist, a))
    &&& (f.genre matches Some(g) ==> contains_ci(s.genre, g))
}

/// Executable filter test: the decision the search applies to each
/// stored song.
pub fn song_matches(s: &Song, f: &SearchFilter) -> (r: bool)
    ensures
        r == matches_filter(s@, f@),
{
    let title_ok = match &f.title {
        Some(t) => contains_ci_str(s.title.as_str(), t.as_str()),
        None => true,
    };
    let artist_ok = match &f.artist {
        Some(a) => contains_ci_str(s.artist.as_str(), a.as_str()),
        None => true,
    };
    let genre_ok = match &f.genre {
        Some(g) => contains_ci_str(s.genre.as_str(), g.as_str()),
        None => true,
    };
    title_ok && artist_ok && genre_ok
}

} // verus!
