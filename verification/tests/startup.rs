use hummingbird::context_menus::QueueItemData;
use hummingbird::startup::{initial_queue_position, queue_start_position, startup_playback, StartupPlayback};
use hummingbird::models::{LastFMState, Session};
use hummingbird::startup::{
    argument_queue_items, is_font_asset, project_dirs_id, stored_lastfm_state, CURRENT_PROJECT,
    LEGACY_PROJECT,
};

#[test]
fn files_on_the_command_line_are_queued_in_order() {
    assert!(argument_queue_items(None).is_none());
    let items = argument_queue_items(Some(vec!["/a.flac".to_string(), "/b.mp3".to_string()])).unwrap();
    assert_eq!(items.len(), 2);
    assert_eq!(items[0].path, "/a.flac");
    assert_eq!(items[1].path, "/b.mp3");
    assert!(items.iter().all(|i| i.track_id.is_none() && i.album_id.is_none()));
    assert!(argument_queue_items(Some(Vec::new())).unwrap().is_empty());
}

#[test]
fn the_legacy_directories_win_while_they_exist() {
    assert_eq!(project_dirs_id(true), ("me", "william341", "muzak"));
    assert_eq!(project_dirs_id(false), ("org", "mailliw", "hummingbird"));
    assert_eq!(project_dirs_id(true), LEGACY_PROJECT);
    assert_eq!(project_dirs_id(false), CURRENT_PROJECT);
}

#[test]
fn only_truetype_and_opentype_fonts_load() {
    assert!(is_font_asset("!bundled:fonts/Inter.ttf"));
    assert!(is_font_asset("x.otf"));
    assert!(!is_font_asset("a.woff2"));
    assert!(!is_font_asset("ttf"));
    assert!(!is_font_asset(""));
    assert!(is_font_asset(".ttf"));
}

#[test]
fn a_stored_session_signs_in() {
    let session = Session { name: "alice".to_string(), key: "k".to_string() };
    assert!(matches!(stored_lastfm_state(Some(session)), LastFMState::Connected(s) if s.name == "alice"));
    assert!(matches!(stored_lastfm_state(None), LastFMState::Disconnected));
}

#[test]
fn the_restored_queue_starts_at_the_saved_track() {
    let queue = vec![
        QueueItemData::new("/a".to_string(), None, None),
        QueueItemData::new("/b".to_string(), None, None),
        QueueItemData::new("/b".to_string(), None, None),
    ];
    let saved = Some("/b".to_string());
    assert_eq!(initial_queue_position(&queue, &saved), Some(1));
    assert_eq!(initial_queue_position(&queue, &Some("/z".to_string())), None);
    assert_eq!(initial_queue_position(&queue, &None), None);
    assert_eq!(queue_start_position(Some(1)), 1);
    assert_eq!(queue_start_position(None), 0);
    assert!(matches!(startup_playback(false, Some(1), &saved, 3), StartupPlayback::Jump(1)));
    assert!(matches!(startup_playback(true, Some(1), &saved, 3), StartupPlayback::Nothing));
    assert!(matches!(startup_playback(false, None, &Some("/z".to_string()), 3), StartupPlayback::Open(p) if p == "/z"));
    assert!(matches!(startup_playback(false, None, &None, 3), StartupPlayback::Jump(0)));
    assert!(matches!(startup_playback(false, None, &None, 0), StartupPlayback::Nothing));
}
