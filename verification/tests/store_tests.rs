use song_server::store::SongStore;
use song_server::song::{SearchFilter, Song};

fn add(store: &mut SongStore, title: &str, artist: &str, genre: &str) -> Song {
    store.add_song(String::from(title), String::from(artist), String::from(genre))
}

fn filter(title: Option<&str>, artist: Option<&str>, genre: Option<&str>) -> SearchFilter {
    SearchFilter {
        title: title.map(String::from),
        artist: artist.map(String::from),
        genre: genre.map(String::from),
    }
}

#[test]
fn insert_assigns_fresh_id_and_zero_count() {
    let mut store = SongStore::new();
    let first = add(&mut store, "Imagine", "John Lennon", "Rock");
    assert_eq!(first.id, 1);
    assert_eq!(first.play_count, 0);
    assert_eq!(first.title, "Imagine");
    assert_eq!(first.artist, "John Lennon");
    assert_eq!(first.genre, "Rock");
    let second = add(&mut store, "Cars", "Gary Numan", "Synth");
    assert_eq!(second.id, 2);
    assert_eq!(second.play_count, 0);
}

#[test]
fn insert_then_search_title_substring_any_case() {
    let mut store = SongStore::new();
    let song = add(&mut store, "Imagine", "John Lennon", "Rock");
    let found = store.search_song(&filter(Some("iMAgi"), None, None));
    assert_eq!(found.len(), 1);
    assert_eq!(found[0].id, song.id);
    assert_eq!(found[0].title, "Imagine");
}

#[test]
fn search_no_params_returns_all() {
    let mut store = SongStore::new();
    add(&mut store, "One", "A", "Rock");
    add(&mut store, "Two", "B", "Jazz");
    add(&mut store, "Three", "C", "Pop");
    let found = store.search_song(&filter(None, None, None));
    assert_eq!(found.len(), 3);
    assert_eq!(found[0].title, "One");
    assert_eq!(found[1].title, "Two");
    assert_eq!(found[2].title, "Three");
}

#[test]
fn search_artist_substring_filters_case_insensitively() {
    let mut store = SongStore::new();
    add(&mut store, "Around the World", "Daft Punk", "Electronic");
    add(&mut store, "Tribute Medley", "Daftpunk Tribute", "Electronic");
    add(&mut store, "Bohemian Rhapsody", "Queen", "Rock");
    let daft = store.search_song(&filter(None, Some("daft"), None));
    assert_eq!(daft.len(), 2);
    let daft_p = store.search_song(&filter(None, Some("daft p"), None));
    assert_eq!(daft_p.len(), 1);
    assert_eq!(daft_p[0].artist, "Daft Punk");
    let queen = store.search_song(&filter(None, Some("QUEEN"), None));
    assert_eq!(queen.len(), 1);
    assert_eq!(queen[0].artist, "Queen");
}

#[test]
fn search_conjoins_present_fields() {
    let mut store = SongStore::new();
    add(&mut store, "Alpha", "Ann", "Rock");
    add(&mut store, "Alpha", "Bob", "Rock");
    let both = store.search_song(&filter(Some("alpha"), Some("ann"), None));
    assert_eq!(both.len(), 1);
    assert_eq!(both[0].artist, "Ann");
}

#[test]
fn search_present_empty_string_matches_every_row() {
    let mut store = SongStore::new();
    add(&mut store, "One", "A", "Rock");
    add(&mut store, "Two", "B", "Jazz");
    let found = store.search_song(&filter(None, Some(""), None));
    assert_eq!(found.len(), 2);
}

#[test]
fn play_increments_by_exactly_one() {
    let mut store = SongStore::new();
    let song = add(&mut store, "Imagine", "John Lennon", "Rock");
    let played = store.play_song(song.id).expect("the id exists");
    assert_eq!(played.id, song.id);
    assert_eq!(played.play_count, 1);
    assert_eq!(played.title, "Imagine");
    let replayed = store.play_song(song.id).expect("the id exists");
    assert_eq!(replayed.play_count, 2);
}

#[test]
fn play_unknown_id_returns_none_and_changes_nothing() {
    let mut store = SongStore::new();
    add(&mut store, "Imagine", "John Lennon", "Rock");
    assert!(store.play_song(99).is_none());
    let all = store.search_song(&filter(None, None, None));
    assert_eq!(all.len(), 1);
    assert_eq!(all[0].play_count, 0);
}

#[test]
fn round_trip_exact_fields_retrieve_the_row() {
    let mut store = SongStore::new();
    add(&mut store, "Imagine", "John Lennon", "Rock");
    let inserted = add(&mut store, "Karma Police", "Radiohead", "Alternative");
    let found = store.search_song(&filter(
        Some(inserted.title.as_str()),
        Some(inserted.artist.as_str()),
        Some(inserted.genre.as_str()),
    ));
    assert_eq!(found.len(), 1);
    assert_eq!(found[0].id, inserted.id);
    assert_eq!(found[0].title, "Karma Police");
    assert_eq!(found[0].artist, "Radiohead");
    assert_eq!(found[0].genre, "Alternative");
}

#[test]
fn scenario_insert_play_then_search_by_genre() {
    let mut store = SongStore::new();
    let inserted = add(&mut store, "Imagine", "John Lennon", "Rock");
    assert_eq!(inserted.id, 1);
    assert_eq!(inserted.play_count, 0);
    let played = store.play_song(1).expect("id 1 was just inserted");
    assert_eq!(played.play_count, 1);
    let found = store.search_song(&filter(None, None, Some("rock")));
    assert_eq!(found.len(), 1);
    assert_eq!(found[0].id, 1);
    assert_eq!(found[0].title, "Imagine");
    assert_eq!(found[0].play_count, 1);
}
