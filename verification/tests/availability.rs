use hummingbird::availability::{
    album_has_available_tracks, artist_has_available_tracks,
    has_available_tracks, is_track_available, is_track_path_available, Track,
};

pub fn track(id: i64, location: &str) -> Track {
    Track {
        id,
        title: format!("Track {id}"),
        location: location.to_string(),
        album_id: Some(1),
        track_number: Some(id),
        disc_number: Some(1),
        duration: 180,
        artist_names: None,
    }
}

fn existing_file() -> String {
    "/".to_string()
}

#[test]
fn paths_that_exist_are_available() {
    assert!(is_track_path_available(&existing_file()));
    assert!(!is_track_path_available("/no/such/dir/track.flac"));
    assert!(is_track_available(&track(1, &existing_file())));
    assert!(!is_track_available(&track(1, "/no/such/dir/track.flac")));
}

#[test]
fn any_track_available() {
    let missing = track(1, "/no/such/dir/a.flac");
    let present = track(2, &existing_file());
    let found = |tracks: &[Track]| -> Vec<bool> {
        tracks.iter().map(|t| is_track_path_available(&t.location)).collect()
    };
    assert!(!has_available_tracks(&[]));
    assert!(!has_available_tracks(&found(&[missing.clone()])));
    assert!(has_available_tracks(&found(&[missing.clone(), present.clone()])));
    assert!(album_has_available_tracks(Some(&found(&[present.clone()]))));
    assert!(!album_has_available_tracks(None));
    assert!(!artist_has_available_tracks(Some(&found(&[missing]))));
    assert!(artist_has_available_tracks(Some(&found(&[present]))));
}

#[test]
fn any_answer_yes() {
    assert!(!has_available_tracks(&[]));
    assert!(!has_available_tracks(&[false, false]));
    assert!(has_available_tracks(&[false, true]));
    assert!(!album_has_available_tracks(Some(&vec![])));
}
