use hummingbird::likes::{
    like_finished, press_like, removal_finished, LibraryReply, LikeRequest, LIKED_PLAYLIST_ID,
};

#[test]
fn pressing_like_on_a_liked_track_unlikes_it_at_once() {
    assert_eq!(press_like(Some(7), 3), (None, LikeRequest::Unlike { item_id: 7 }));
    assert_eq!(press_like(None, 3), (None, LikeRequest::Like { playlist_id: 1, track_id: 3 }));
}

#[test]
fn a_refused_unlike_shows_the_like_again() {
    let (shown, request) = press_like(Some(7), 3);
    assert_eq!(like_finished(shown, request, LibraryReply::Failed), (Some(7), None));
    assert_eq!(like_finished(shown, request, LibraryReply::Aborted), (None, None));
    assert_eq!(like_finished(shown, request, LibraryReply::Removed), (None, Some(LIKED_PLAYLIST_ID)));
}

#[test]
fn a_like_that_goes_through_remembers_its_entry() {
    let (shown, request) = press_like(None, 3);
    assert_eq!(like_finished(shown, request, LibraryReply::Added(42)), (Some(42), Some(1)));
    assert_eq!(like_finished(shown, request, LibraryReply::Failed), (None, None));
    let (s, r) = press_like(Some(42), 3);
    assert_eq!(like_finished(s, r, LibraryReply::Removed), (None, Some(1)));
}

#[test]
fn removing_from_a_playlist_updates_that_playlist() {
    assert_eq!(removal_finished(5, LibraryReply::Removed), Some(5));
    assert_eq!(removal_finished(5, LibraryReply::Failed), None);
    assert_eq!(removal_finished(5, LibraryReply::Aborted), None);
}
