use vstd::prelude::*;

verus! {

/// The playlist that holds the liked tracks.
pub const LIKED_PLAYLIST_ID: i64 = 1;

/// What the library is asked to do when the like button of a track row is pressed.
#[derive(Clone, Copy, Debug, PartialEq, Eq, Structural)]
pub enum LikeRequest {
    /// Remove this entry from the liked playlist.
    Unlike { item_id: i64 },
    /// Add the track to this playlist.
    Like { playlist_id: i64, track_id: i64 },
}

/// How a request to the library ended.
#[derive(Clone, Copy, Debug, PartialEq, Eq, Structural)]
pub enum LibraryReply {
    /// The entry was removed.
    Removed,
    /// The track was added as the entry with this id.
    Added(i64),
    /// The library refused the change.
    Failed,
    /// The task that made the change did not finish.
    Aborted,
}

/// The row's state right after the button is pressed, and the request to send: a liked track
/// shows as not liked at once and its entry is removed; any other is added to the liked
/// playlist.
pub open spec fn press_like_spec(liked: Option<i64>, track_id: i64) -> (Option<i64>, LikeRequest) {
    match liked {
        Some(item_id) => (None, LikeRequest::Unlike { item_id }),
        None => (None, LikeRequest::Like { playlist_id: LIKED_PLAYLIST_ID, track_id }),
    }
}

/// Presses the like button of a row whose liked state is `liked` (the id of its entry in the
/// liked playlist).
pub fn press_like(liked: Option<i64>, track_id: i64) -> (r: (Option<i64>, LikeRequest))
    ensures
        r == press_like_spec(liked, track_id),
{
    match liked {
        Some(item_id) => (None, LikeRequest::Unlike { item_id }),
        None => (None, LikeRequest::Like { playlist_id: LIKED_PLAYLIST_ID, track_id }),
    }
}

/// The row's state once the library has answered, and the playlist whose views are told it
/// changed: a removal that the library refused shows the track as liked again, an addition
/// shows it liked with its new entry, and either change that went through updates the liked
/// playlist. Other answers change nothing.
pub open spec fn like_finished_spec(state: Option<i64>, request: LikeRequest, reply: LibraryReply) -> (
    Option<i64>,
    Option<i64>,
) {
    match request {
        LikeRequest::Unlike { item_id } => match reply {
            LibraryReply::Removed => (state, Some(LIKED_PLAYLIST_ID)),
            LibraryReply::Failed => (Some(item_id), None),
            _ => (state, None),
        },
        LikeRequest::Like { .. } => match reply {
            LibraryReply::Added(id) => (Some(id), Some(LIKED_PLAYLIST_ID)),
            _ => (state, None),
        },
    }
}

/// Takes the library's answer to a like request into the row's state.
pub fn like_finished(state: Option<i64>, request: LikeRequest, reply: LibraryReply) -> (r: (
    Option<i64>,
    Option<i64>,
))
    ensures
        r == like_finished_spec(state, request, reply),
{
    match request {
        LikeRequest::Unlike { item_id } => match reply {
            LibraryReply::Removed => (state, Some(LIKED_PLAYLIST_ID)),
            LibraryReply::Failed => (Some(item_id), None),
            _ => (state, None),
        },
        LikeRequest::Like { .. } => match reply {
            LibraryReply::Added(id) => (Some(id), Some(LIKED_PLAYLIST_ID)),
            _ => (state, None),
        },
    }
}

/// The playlist whose views are told it changed once an entry's removal from it has ended:
/// the playlist itself when the entry was removed, none otherwise.
pub fn removal_finished(playlist_id: i64, reply: LibraryReply) -> (r: Option<i64>)
    ensures
        r == (if reply is Removed {
            Some(playlist_id)
        } else {
            None
        }),
{
    match reply {
        LibraryReply::Removed => Some(playlist_id),
        _ => None,
    }
}

/// Unliking that the library refuses leaves the track liked as it was, with the same entry.
pub proof fn refused_unlike_keeps_the_like(item_id: i64, track_id: i64)
    ensures
        ({
            let (shown, request) = press_like_spec(Some(item_id), track_id);
            like_finished_spec(shown, request, LibraryReply::Failed).0 == Some(item_id)
        }),
{
}

/// Liking a track that goes through, then unliking it, leaves it not liked; each step
/// updates the liked playlist.
pub proof fn like_then_unlike_leaves_it_unliked(track_id: i64, new_id: i64)
    ensures
        ({
            let (s1, r1) = press_like_spec(None, track_id);
            let (s2, n1) = like_finished_spec(s1, r1, LibraryReply::Added(new_id));
            let (s3, r2) = press_like_spec(s2, track_id);
            let (s4, n2) = like_finished_spec(s3, r2, LibraryReply::Removed);
            &&& s2 == Some(new_id)
            &&& r2 == (LikeRequest::Unlike { item_id: new_id })
            &&& s4 is None
            &&& n1 == Some(LIKED_PLAYLIST_ID)
            &&& n2 == Some(LIKED_PLAYLIST_ID)
        }),
{
}

} // verus!
