use hummingbird::collection::{playlist_command, playlist_entries_queue};
use hummingbird::availability::Track;
use hummingbird::collection::{
    all_queue_items, collection_command, play_button_shows_pause, tracks_contain_current,
    CollectionButton, CollectionCommand,
};
use hummingbird::playback::PlaybackState;

fn track(id: i64) -> Track {
    Track {
        id,
        title: format!("T{id}"),
        location: format!("/m/{id}.flac"),
        album_id: Some(id * 10),
        track_number: None,
        disc_number: None,
        duration: 1,
        artist_names: None,
    }
}

#[test]
fn the_playing_track_is_found_by_file() {
    let tracks = vec![track(1), track(2)];
    assert!(tracks_contain_current(&Some("/m/2.flac".to_string()), &tracks));
    assert!(!tracks_contain_current(&Some("/m/3.flac".to_string()), &tracks));
    assert!(!tracks_contain_current(&None, &tracks));
    assert!(!tracks_contain_current(&Some("/m/1.flac".to_string()), &vec![]));
}

#[test]
fn every_track_becomes_an_entry() {
    let items = all_queue_items(&vec![track(1), track(2)]);
    assert_eq!(items.len(), 2);
    assert_eq!(items[1].path, "/m/2.flac");
    assert_eq!(items[1].track_id, Some(2));
    assert_eq!(items[1].album_id, Some(20));
}

#[test]
fn play_pauses_when_one_of_the_tracks_plays() {
    let tracks = vec![track(1), track(2)];
    let playing = Some("/m/1.flac".to_string());
    assert!(matches!(
        collection_command(CollectionButton::Play, &tracks, &playing, false),
        CollectionCommand::PlayPause
    ));
    match collection_command(CollectionButton::Play, &tracks, &None, false) {
        CollectionCommand::ReplaceQueue { items, turn_on_shuffle } => {
            assert_eq!(items.len(), 2);
            assert!(!turn_on_shuffle);
        }
        other => panic!("unexpected {other:?}"),
    }
    assert!(play_button_shows_pause(&tracks, &playing, PlaybackState::Playing));
    assert!(!play_button_shows_pause(&tracks, &playing, PlaybackState::Paused));
    assert!(!play_button_shows_pause(&tracks, &None, PlaybackState::Playing));
}

#[test]
fn shuffle_turns_shuffling_on_only_when_off() {
    let tracks = vec![track(1)];
    match collection_command(CollectionButton::Shuffle, &tracks, &None, false) {
        CollectionCommand::ReplaceQueue { turn_on_shuffle, .. } => assert!(turn_on_shuffle),
        other => panic!("unexpected {other:?}"),
    }
    match collection_command(CollectionButton::Shuffle, &tracks, &None, true) {
        CollectionCommand::ReplaceQueue { turn_on_shuffle, .. } => assert!(!turn_on_shuffle),
        other => panic!("unexpected {other:?}"),
    }
    match collection_command(CollectionButton::AddToQueue, &tracks, &Some("/m/1.flac".to_string()), false) {
        CollectionCommand::AppendToQueue(items) => assert_eq!(items[0].path, "/m/1.flac"),
        other => panic!("unexpected {other:?}"),
    }
}

#[test]
fn playlist_play_always_replaces_the_queue() {
    let entries = vec![(1, 11, 21), (2, 12, 22)];
    let paths = vec!["/a".to_string(), "/b".to_string(), "/c".to_string()];
    let items = playlist_entries_queue(&entries, &paths);
    assert_eq!(items.len(), 2);
    assert_eq!(items[1].path, "/b");
    assert_eq!(items[1].track_id, Some(12));
    assert_eq!(items[1].album_id, Some(22));
    match playlist_command(CollectionButton::Play, &entries, &paths, true) {
        CollectionCommand::ReplaceQueue { items, turn_on_shuffle } => {
            assert_eq!(items.len(), 2);
            assert!(!turn_on_shuffle);
        }
        other => panic!("unexpected {other:?}"),
    }
    match playlist_command(CollectionButton::Shuffle, &entries, &paths, false) {
        CollectionCommand::ReplaceQueue { turn_on_shuffle, .. } => assert!(turn_on_shuffle),
        other => panic!("unexpected {other:?}"),
    }
    assert!(matches!(
        playlist_command(CollectionButton::AddToQueue, &entries, &paths, false),
        CollectionCommand::AppendToQueue(v) if v.len() == 2
    ));
}

#[test]
fn buttons_show_only_above_tracks() {
    assert!(!hummingbird::collection::shows_collection_buttons(&vec![]));
    assert!(hummingbird::collection::shows_collection_buttons(&vec![track(1)]));
}
