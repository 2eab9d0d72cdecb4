//! The in-memory model of the song table: insert with a freshly
//! assigned id, filtered search, and the play-count increment.  The
//! laws at the bottom state what the search returns in terms of the
//! matching predicate alone.

use vstd::prelude::*;
use crate::song::{
    Song, SongView, SearchFilter, FilterView, matches_filter, views_of, song_matches,
    empty_filter, exact_filter,
};
use crate::text::lemma_contains_ci_self;

verus! {

/// What a search returns: the songs that pass the filter, in store order.
pub open spec fn spec_search(songs: Seq<SongView>, f: FilterView) -> Seq<SongView> {
    songs.filter(|s: SongView| matches_filter(s, f))
}

/// A song after one play: the play count one higher, all else unchanged.
pub open spec fn spec_played(s: SongView) -> SongView {
    SongView { play_count: s.play_count + 1, ..s }
}

/// The song table.  Ids are assigned from `next_id`, which rises by one
/// at each insert, so every stored id is unique, positive and below it.
pub struct SongStore {
    pub songs: Vec<Song>,
    pub next_id: i64,
}

impl SongStore {
    /// The store's invariant: positive unique ids below `next_id`, and
    /// non-negative play counts.
    pub open spec fn wf(self) -> bool {
        &&& 1 <= self.next_id
        &&& forall|i: int|
            0 <= i < self.songs@.len() ==> {
                &&& 1 <= (#[trigger] self.songs@[i])@.id
                &&& self.songs@[i]@.id < self.next_id
                &&& 0 <= self.songs@[i]@.play_count
            }
        &&& forall|i: int, j: int|
            #![trigger self.songs@[i], self.songs@[j]]
            0 <= i < j < self.songs@.len() ==> self.songs@[i]@.id != self.songs@[j]@.id
    }

    /// An empty store; the first song will receive id 1.
    pub fn new() -> (s: SongStore)
        ensures
            s.wf(),
            s.songs@.len() == 0,
            s.next_id == 1,
    {
        SongStore { songs: Vec::new(), next_id: 1 }
    }

    /// Inserts a song and returns the stored row: the fresh id, the
    /// given fields, and a play count of zero.
    pub fn add_song(&mut self, title: String, artist: String, genre: String) -> (s: Song)
        requires
            old(self).wf(),
            old(self).next_id < i64::MAX,
        ensures
            final(self).wf(),
            s@ == (SongView {
                id: old(self).next_id as int,
                title: title@,
                artist: artist@,
                genre: genre@,
                play_count: 0,
            }),
            views_of(final(self).songs@) == views_of(old(self).songs@).push(s@),
            final(self).next_id == old(self).next_id + 1,
    {
        let id = self.next_id;
        self.next_id = id + 1;
        let song = Song { id, title, artist, genre, play_count: 0 };
        let result = song.duplicate();
        self.songs.push(song);
        proof {
            assert(views_of(self.songs@) =~= views_of(old(self).songs@).push(result@));
            assert forall|i: int, j: int|
                #![trigger self.songs@[i], self.songs@[j]]
                0 <= i < j < self.songs@.len() implies self.songs@[i]@.id != self.songs@[j]@.id by {
                if j < old(self).songs@.len() {
                    assert(self.songs@[i] == old(self).songs@[i]);
                    assert(self.songs@[j] == old(self).songs@[j]);
                } else {
                    assert(self.songs@[i] == old(self).songs@[i]);
                    assert(self.songs@[j]@.id == id as int);
                }
            }
        }
        result
    }

    /// Returns a copy of every stored song that passes the filter, in
    /// store order.
    pub fn search_song(&self, f: &SearchFilter) -> (r: Vec<Song>)
        ensures
            views_of(r@) == spec_search(views_of(self.songs@), f@),
    {
        let mut out: Vec<Song> = Vec::new();
        let n = self.songs.len();
        let mut i: usize = 0;
        while i < n
            invariant
                n == self.songs@.len(),
                i <= n,
                views_of(out@) == spec_search(views_of(self.songs@).take(i as int), f@),
            decreases n - i,
        {
            let ghost pre = views_of(out@);
            let ghost vs = views_of(self.songs@);
            let song = &self.songs[i];
            let m = song_matches(song, f);
            if m {
                out.push(song.duplicate());
            }
            proof {
                lemma_spec_search_push(vs.take(i as int), vs[i as int], f@);
                assert(vs.take(i as int + 1) =~= vs.take(i as int).push(vs[i as int]));
                assert(song@ == vs[i as int]);
                if m {
                    assert(views_of(out@) =~= pre.push(song@));
                }
            }
            i += 1;
        }
        proof {
            assert(views_of(self.songs@).take(n as int) =~= views_of(self.songs@));
        }
        out
    }

    /// Plays the song with the given id: its play count rises by exactly
    /// one and the updated row comes back; an absent id changes nothing
    /// and yields `None`.
    pub fn play_song(&mut self, id: i64) -> (r: Option<Song>)
        requires
            old(self).wf(),
            forall|j: int|
                0 <= j < old(self).songs@.len() && (#[trigger] old(self).songs@[j])@.id == id as int
                    ==> old(self).songs@[j]@.play_count < i64::MAX,
        ensures
            final(self).wf(),
            final(self).next_id == old(self).next_id,
            (r is Some) <==> (exists|j: int|
                0 <= j < old(self).songs@.len() && (#[trigger] old(self).songs@[j])@.id
                    == id as int),
            r matches Some(s) ==> (exists|j: int|
                {
                    &&& 0 <= j < old(self).songs@.len()
                    &&& (#[trigger] old(self).songs@[j])@.id == id as int
                    &&& s@ == spec_played(old(self).songs@[j]@)
                    &&& views_of(final(self).songs@) == views_of(old(self).songs@).update(j, s@)
                }),
            r is None ==> final(self).songs@ == old(self).songs@,
    {
        let n = self.songs.len();
        let mut i: usize = 0;
        while i < n
            invariant
                *self == *old(self),
                old(self).wf(),
                forall|j: int|
                    0 <= j < old(self).songs@.len() && (#[trigger] old(self).songs@[j])@.id
                        == id as int ==> old(self).songs@[j]@.play_count < i64::MAX,
                n == self.songs@.len(),
                i <= n,
                forall|k: int| 0 <= k < i ==> (#[trigger] self.songs@[k])@.id != id as int,
            decreases n - i,
        {
            if self.songs[i].id == id {
                let c = self.songs[i].play_count;
                assert(c < i64::MAX) by {
                    assert((old(self).songs@[i as int])@.id == id as int);
                }
                self.songs[i].play_count = c + 1;
                let updated = self.songs[i].duplicate();
                proof {
                    assert(updated@ == spec_played(old(self).songs@[i as int]@));
                    assert(views_of(self.songs@) =~= views_of(old(self).songs@).update(
                        i as int,
                        updated@,
                    ));
                    assert forall|a: int, b: int|
                        #![trigger self.songs@[a], self.songs@[b]]
                        0 <= a < b < self.songs@.len() implies self.songs@[a]@.id
                        != self.songs@[b]@.id by {
                        assert(self.songs@[a]@.id == old(self).songs@[a]@.id);
                        assert(self.songs@[b]@.id == old(self).songs@[b]@.id);
                    }
                }
                return Some(updated);
            }
            i += 1;
        }
        None
    }
}

/// Filtering one more song keeps the earlier result and appends the new
/// song exactly when it matches.
pub proof fn lemma_spec_search_push(songs: Seq<SongView>, s: SongView, f: FilterView)
    ensures
        spec_search(songs.push(s), f) == if matches_filter(s, f) {
            spec_search(songs, f).push(s)
        } else {
            spec_search(songs, f)
        },
{
    assert(songs.push(s).drop_last() =~= songs);
    assert(songs.push(s).last() == s);
    reveal(Seq::filter);
}

/// A search with no field present returns every stored song, in order.
pub proof fn lemma_search_unfiltered(songs: Seq<SongView>)
    ensures
        spec_search(songs, empty_filter()) == songs,
    decreases songs.len(),
{
    reveal(Seq::filter);
    if songs.len() != 0 {
        lemma_search_unfiltered(songs.drop_last());
        lemma_spec_search_push(songs.drop_last(), songs.last(), empty_filter());
        assert(songs.drop_last().push(songs.last()) =~= songs);
    }
}

/// Every song a search returns passes the filter, and it comes from the
/// store: the search filters out exactly the songs that do not match.
pub proof fn lemma_search_sound(songs: Seq<SongView>, f: FilterView)
    ensures
        forall|i: int|
            0 <= i < spec_search(songs, f).len() ==> matches_filter(
                #[trigger] spec_search(songs, f)[i],
                f,
            ),
        forall|i: int|
            0 <= i < spec_search(songs, f).len() ==> songs.contains(
                #[trigger] spec_search(songs, f)[i],
            ),
    decreases songs.len(),
{
    broadcast use vstd::seq_lib::group_filter_ensures;

    if songs.len() != 0 {
        let prefix = songs.drop_last();
        lemma_search_sound(prefix, f);
        lemma_spec_search_push(prefix, songs.last(), f);
        assert(prefix.push(songs.last()) =~= songs);
        assert forall|i: int| 0 <= i < spec_search(songs, f).len() implies songs.contains(
            #[trigger] spec_search(songs, f)[i],
        ) by {
            let res = spec_search(songs, f);
            let sub = spec_search(prefix, f);
            if i < sub.len() {
                assert(sub.contains(sub[i]));
                let k = choose|k: int| 0 <= k < prefix.len() && prefix[k] == sub[i];
                assert(songs[k] == prefix[k]);
            } else {
                assert(res[i] == songs.last());
                assert(songs[songs.len() - 1] == songs.last());
            }
        }
    }
}

/// Every stored song that passes the filter is among the search results.
pub proof fn lemma_search_complete(songs: Seq<SongView>, f: FilterView, i: int)
    requires
        0 <= i < songs.len(),
        matches_filter(songs[i], f),
    ensures
        spec_search(songs, f).contains(songs[i]),
    decreases songs.len(),
{
    let prefix = songs.drop_last();
    lemma_spec_search_push(prefix, songs.last(), f);
    assert(prefix.push(songs.last()) =~= songs);
    if i == songs.len() - 1 {
        let res = spec_search(songs, f);
        assert(res == spec_search(prefix, f).push(songs.last()));
        assert(res[res.len() - 1] == songs[i]);
        assert(res.contains(songs[i]));
    } else {
        lemma_search_complete(prefix, f, i);
        let sub = spec_search(prefix, f);
        let k = choose|k: int| 0 <= k < sub.len() && sub[k] == songs[i];
        assert(spec_search(songs, f)[k] == songs[i]);
        assert(spec_search(songs, f).contains(songs[i]));
    }
}

/// A song just inserted is returned by any subsequent search whose
/// filter it passes — in particular by any case-insensitive substring
/// of its title, artist or genre — and it comes back last.
pub proof fn lemma_insert_then_search(songs: Seq<SongView>, s: SongView, f: FilterView)
    requires
        matches_filter(s, f),
    ensures
        spec_search(songs.push(s), f).contains(s),
        spec_search(songs.push(s), f).last() == s,
{
    lemma_spec_search_push(songs, s, f);
    let res = spec_search(songs.push(s), f);
    assert(res[res.len() - 1] == s);
    assert(res.contains(s));
}

/// Round trip: feeding every field of a stored song back as a search
/// filter, exactly as returned, retrieves that song.
pub proof fn lemma_round_trip(songs: Seq<SongView>, i: int)
    requires
        0 <= i < songs.len(),
    ensures
        spec_search(songs, exact_filter(songs[i])).contains(songs[i]),
{
    let s = songs[i];
    lemma_contains_ci_self(s.title);
    lemma_contains_ci_self(s.artist);
    lemma_contains_ci_self(s.genre);
    lemma_search_complete(songs, exact_filter(s), i);
}

} // verus!
