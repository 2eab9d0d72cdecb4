use song_server::query::build_search_query;
use song_server::song::SearchFilter;

fn filter(title: Option<&str>, artist: Option<&str>, genre: Option<&str>) -> SearchFilter {
    SearchFilter {
        title: title.map(String::from),
        artist: artist.map(String::from),
        genre: genre.map(String::from),
    }
}

#[test]
fn no_fields_selects_everything_unbound() {
    let (sql, binds) = build_search_query(&filter(None, None, None));
    assert_eq!(sql, "SELECT * FROM songs");
    assert!(binds.is_empty());
}

#[test]
fn title_only_emits_one_predicate_and_one_wildcarded_bind() {
    let (sql, binds) = build_search_query(&filter(Some("Imagine"), None, None));
    assert_eq!(sql, "SELECT * FROM songs WHERE LOWER(title) LIKE LOWER(?)");
    assert_eq!(binds, vec!["%Imagine%".to_string()]);
}

#[test]
fn artist_only_emits_the_artist_predicate() {
    let (sql, binds) = build_search_query(&filter(None, Some("Daft"), None));
    assert_eq!(sql, "SELECT * FROM songs WHERE LOWER(artist) LIKE LOWER(?)");
    assert_eq!(binds, vec!["%Daft%".to_string()]);
}

#[test]
fn genre_only_emits_the_genre_predicate() {
    let (sql, binds) = build_search_query(&filter(None, None, Some("Rock")));
    assert_eq!(sql, "SELECT * FROM songs WHERE LOWER(genre) LIKE LOWER(?)");
    assert_eq!(binds, vec!["%Rock%".to_string()]);
}

#[test]
fn artist_and_genre_join_with_and_in_order() {
    let (sql, binds) = build_search_query(&filter(None, Some("Daft"), Some("Electronic")));
    assert_eq!(
        sql,
        "SELECT * FROM songs WHERE LOWER(artist) LIKE LOWER(?) AND LOWER(genre) LIKE LOWER(?)"
    );
    assert_eq!(binds, vec!["%Daft%".to_string(), "%Electronic%".to_string()]);
}

#[test]
fn all_three_fields_bind_in_predicate_order() {
    let (sql, binds) = build_search_query(&filter(Some("One"), Some("Ann"), Some("Rock")));
    assert_eq!(
        sql,
        "SELECT * FROM songs WHERE LOWER(title) LIKE LOWER(?) AND LOWER(artist) LIKE LOWER(?) AND LOWER(genre) LIKE LOWER(?)"
    );
    assert_eq!(
        binds,
        vec!["%One%".to_string(), "%Ann%".to_string(), "%Rock%".to_string()]
    );
}

#[test]
fn empty_string_field_is_still_present_and_bound() {
    let (sql, binds) = build_search_query(&filter(Some(""), None, None));
    assert_eq!(sql, "SELECT * FROM songs WHERE LOWER(title) LIKE LOWER(?)");
    assert_eq!(binds, vec!["%%".to_string()]);
}
