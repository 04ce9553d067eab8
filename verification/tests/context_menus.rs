use hummingbird::availability::Track;
use hummingbird::context_menus::{
    album_insert_positions, available_queue_items, jump_index, navigate_to_artist,
    navigate_to_track_album, play_album_now, play_from_track, play_next_position,
    playlist_queue_items, queue_items_for_tracks, shuffle_album, single_track_queue,
    AlbumContextMenuContext, QueueItemData, reveal_command, reveal_track_in_file_manager,
    reveal_path_command, reveal_path_in_file_manager,
    track_show_in_file_manager_label, TargetOs, queue_source, QueueSource, play_from_available_track,
};
use hummingbird::navigation::ViewSwitchMessage;

fn track(id: i64, location: &str) -> Track {
    Track {
        id,
        title: format!("Track {id}"),
        location: location.to_string(),
        album_id: Some(10),
        track_number: Some(id),
        disc_number: Some(1),
        duration: 200,
        artist_names: None,
    }
}

fn here() -> String {
    "/".to_string()
}

fn paths(items: &[QueueItemData]) -> Vec<String> {
    items.iter().map(|i| i.path.clone()).collect()
}

#[test]
fn available_items_keep_order() {
    let tracks = vec![track(1, "a"), track(2, "b"), track(3, "c")];
    let items = available_queue_items(&tracks, &vec![true, false, true]);
    assert_eq!(paths(&items), vec!["a".to_string(), "c".to_string()]);
    assert_eq!(items[1].track_id, Some(3));
    assert_eq!(items[1].album_id, Some(10));
}

#[test]
fn items_for_tracks_skip_missing_files() {
    let tracks = vec![track(1, "/no/such/file.flac"), track(2, &here())];
    let items = queue_items_for_tracks(&tracks);
    assert_eq!(paths(&items), vec![here()]);
}

#[test]
fn playlist_items_zip_and_skip_missing() {
    let entries = vec![(100, 1, 10), (101, 2, 11), (102, 3, 12)];
    let files = vec!["/no/such/file.flac".to_string(), here()];
    let items = playlist_queue_items(&entries, &files);
    assert_eq!(items.len(), 1);
    assert_eq!(items[0].path, here());
    assert_eq!(items[0].track_id, Some(2));
    assert_eq!(items[0].album_id, Some(11));
}

#[test]
fn jump_goes_to_chosen_track_or_start() {
    let items = vec![
        QueueItemData::new("a".to_string(), None, None),
        QueueItemData::new("b".to_string(), None, None),
        QueueItemData::new("b".to_string(), None, None),
    ];
    assert_eq!(jump_index(&items, &"b".to_string()), 1);
    assert_eq!(jump_index(&items, &"z".to_string()), 0);
}

#[test]
fn play_from_track_needs_a_playable_track_and_a_queue() {
    let t = track(1, &here());
    let items = single_track_queue(&t);
    assert_eq!(play_from_track(&t, &items), Some(0));
    assert_eq!(play_from_track(&t, &vec![]), None);
    let missing = track(2, "/no/such/file.flac");
    assert_eq!(play_from_track(&missing, &single_track_queue(&missing)), None);
}

#[test]
fn insert_positions() {
    assert_eq!(play_next_position(4), 5);
    assert_eq!(album_insert_positions(4, 3), vec![5, 6, 7]);
    assert!(album_insert_positions(0, 0).is_empty());
}

#[test]
fn shuffling_keeps_entries() {
    let items: Vec<QueueItemData> = (0..20)
        .map(|i| QueueItemData::new(format!("t{i}"), Some(i), None))
        .collect();
    let shuffled = shuffle_album(items.clone()).unwrap();
    let mut a = paths(&items);
    let mut b = paths(&shuffled);
    a.sort();
    b.sort();
    assert_eq!(a, b);
    assert!(shuffle_album(vec![]).is_none());
}

#[test]
fn play_album_now_needs_entries() {
    assert!(play_album_now(vec![]).is_none());
    let items = vec![QueueItemData::new("x".to_string(), None, None)];
    assert_eq!(paths(&play_album_now(items).unwrap()), vec!["x".to_string()]);
}

#[test]
fn navigation_targets() {
    let mut t = track(1, "a");
    assert_eq!(navigate_to_track_album(&t), Some(ViewSwitchMessage::Release(10)));
    t.album_id = None;
    assert_eq!(navigate_to_track_album(&t), None);
    assert_eq!(navigate_to_artist(3), ViewSwitchMessage::Artist(3));
    assert!(AlbumContextMenuContext::default().show_go_to_artist);
}

#[test]
fn file_manager_labels_follow_the_platform() {
    assert_eq!(track_show_in_file_manager_label(TargetOs::MacOs), "Show in Finder");
    assert_eq!(track_show_in_file_manager_label(TargetOs::Windows), "Show in File Explorer");
    assert_eq!(track_show_in_file_manager_label(TargetOs::Other), "Show in File Manager");
}

#[test]
fn finder_and_explorer_select_the_file() {
    let mac = reveal_command("/music/a.flac", TargetOs::MacOs).unwrap();
    assert_eq!(mac.program, "open");
    assert_eq!(mac.args, vec!["-R".to_string(), "/music/a.flac".to_string()]);
    let win = reveal_command("/music/a.flac", TargetOs::Windows).unwrap();
    assert_eq!(win.program, "explorer");
    assert_eq!(win.args, vec!["/select,".to_string(), "/music/a.flac".to_string()]);
}

#[test]
fn other_file_managers_open_the_folder() {
    let other = reveal_command("/music/a.flac", TargetOs::Other).unwrap();
    assert_eq!(other.program, "xdg-open");
    assert_eq!(other.args, vec!["/music".to_string()]);
    assert!(reveal_command("/", TargetOs::Other).is_none());
}

#[test]
fn missing_files_are_not_revealed() {
    assert!(reveal_track_in_file_manager(&track(1, "/no/such/file.flac"), TargetOs::MacOs).is_none());
    let shown = reveal_track_in_file_manager(&track(2, &here()), TargetOs::MacOs).unwrap();
    assert_eq!(shown.args, vec!["-R".to_string(), "/".to_string()]);
}

#[test]
fn played_rows_take_their_queue_from_the_listing_first() {
    let t = track(1, "/x.flac");
    assert_eq!(queue_source(true, Some(4), &t), QueueSource::ListingTracks);
    assert_eq!(queue_source(false, Some(4), &t), QueueSource::Playlist(4));
    assert_eq!(queue_source(false, None, &t), QueueSource::Album(10));
    let mut lone = t.clone();
    lone.album_id = None;
    assert_eq!(queue_source(false, None, &lone), QueueSource::SingleTrack);
}

#[test]
fn playing_from_a_track_jumps_to_it_only_when_it_can_play() {
    let items = vec![
        QueueItemData::new("/a".to_string(), Some(1), None),
        QueueItemData::new("/b".to_string(), Some(2), None),
    ];
    assert_eq!(play_from_available_track(true, &track(2, "/b"), &items), Some(1));
    assert_eq!(play_from_available_track(true, &track(3, "/c"), &items), Some(0));
    assert_eq!(play_from_available_track(false, &track(2, "/b"), &items), None);
    assert_eq!(play_from_available_track(true, &track(2, "/b"), &vec![]), None);
}

#[test]
fn revealing_a_path_needs_the_file() {
    assert!(reveal_path_command(false, "/music/a.flac", TargetOs::MacOs).is_none());
    let shown = reveal_path_command(true, "/music/a.flac", TargetOs::Windows).unwrap();
    assert_eq!(shown.program, "explorer");
    assert!(reveal_path_command(true, "/", TargetOs::Other).is_none());
    assert!(reveal_path_in_file_manager("/no/such/file.flac", TargetOs::MacOs).is_none());
    let here = reveal_path_in_file_manager("/", TargetOs::MacOs).unwrap();
    assert_eq!(here.args, vec!["-R".to_string(), "/".to_string()]);
}
