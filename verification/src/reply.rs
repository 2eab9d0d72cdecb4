//! Shaping of the handler replies.  The store's outcome — a row, no
//! row, or an error message — becomes one of two reply forms.  Every
//! failure carries a message meant to be serialized as a JSON object
//! with an `error` key: the one normalized failure shape of the
//! service.

use vstd::prelude::*;
use vstd::string::StringExecFns;
use crate::song::Song;

verus! {

/// The reply of an endpoint that returns a single song.
pub enum SongReply {
    Found(Song),
    Failed(String),
}

/// The reply of the search endpoint.
pub enum SearchReply {
    Found(Vec<Song>),
    Failed(String),
}

/// The add endpoint's reply: the inserted row when one came back, a
/// fixed message when none did, and the store's error appended to that
/// message when the statement failed.
pub fn add_song_reply(outcome: Result<Option<Song>, String>) -> (r: SongReply)
    ensures
        outcome matches Ok(Some(s)) ==> r matches SongReply::Found(rs) && rs@ == s@,
        outcome matches Ok(None) ==> r matches SongReply::Failed(m) && m@ == "Failed to add song"@,
        outcome matches Err(e) ==> r matches SongReply::Failed(m) && m@ == "Failed to add song: "@
            + e@,
{
    match outcome {
        Ok(Some(s)) => SongReply::Found(s),
        Ok(None) => SongReply::Failed(String::from_str("Failed to add song")),
        Err(e) => {
            let mut m = String::from_str("Failed to add song: ");
            m.append(e.as_str());
            SongReply::Failed(m)
        },
    }
}

/// The play endpoint's reply: the updated row, or the not-found
/// message, which also covers a failing statement.
pub fn play_song_reply(outcome: Result<Option<Song>, String>) -> (r: SongReply)
    ensures
        outcome matches Ok(Some(s)) ==> r matches SongReply::Found(rs) && rs@ == s@,
        outcome matches Ok(None) ==> r matches SongReply::Failed(m) && m@ == "Song not found"@,
        outcome matches Err(e) ==> r matches SongReply::Failed(m) && m@ == "Song not found"@,
{
    match outcome {
        Ok(Some(s)) => SongReply::Found(s),
        Ok(None) => SongReply::Failed(String::from_str("Song not found")),
        Err(_) => SongReply::Failed(String::from_str("Song not found")),
    }
}

/// The search endpoint's reply: the matching rows, possibly none, or
/// the store's error appended to a fixed message.
pub fn search_song_reply(outcome: Result<Vec<Song>, String>) -> (r: SearchReply)
    ensures
        outcome matches Ok(v) ==> r matches SearchReply::Found(rv) && rv == v,
        outcome matches Err(e) ==> r matches SearchReply::Failed(m) && m@
            == "Failed to search songs: "@ + e@,
{
    match outcome {
        Ok(v) => SearchReply::Found(v),
        Err(e) => {
            let mut m = String::from_str("Failed to search songs: ");
            m.append(e.as_str());
            SearchReply::Failed(m)
        },
    }
}

} // verus!
