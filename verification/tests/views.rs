use hummingbird::playback::repeat_menu_options;
use hummingbird::availability::Track;
use hummingbird::grid::{grid_row_count, visible_items, visible_row_range};
use hummingbird::lastfm::{
    auth_url, button_label, click_action, connected_name, next_lastfm_state, LastFMClick, LastFMReply,
};
use hummingbird::menu_bar::{
    title_bar_press_moves, uses_close_colors, window_button_command, MenuBar, WindowButton,
    WindowCommand,
};
use hummingbird::missing_folder::{display_path, MissingFolderAction, MissingFolderDialog, MissingFolderPolicy};
use hummingbird::models::{LastFMState, Session};
use hummingbird::playback::{
    next_repeat_state, play_pause, repeat_is_toggled, repeat_shows_once_icon, scrubber_can_seek,
    PlaybackAction, PlaybackState, RepeatState,
};
use hummingbird::scan::{
    missing_folder_paths, scan_is_complete, scan_status_text, should_refresh_rows,
    should_reload_search, ScanEvent, ScanStatusText, UNKNOWN_TOTAL,
};
use hummingbird::search::{
    accept_search_item, finder_select_next, finder_select_previous, match_limit,
    search_match_text, AlbumPaletteItem, FinderItemLeft, SearchPaletteItem,
};
use hummingbird::sidebar::sidebar_separator;
use hummingbird::track_listing::{
    is_current_track, listing_section_starts, release_disc_starts, show_artist_name,
    track_album_art, ArtistNameVisibility,
};
use hummingbird::navigation::ViewSwitchMessage;

fn track(id: i64, number: Option<i64>, disc: Option<i64>) -> Track {
    Track {
        id,
        title: format!("T{id}"),
        location: format!("/m/{id}.flac"),
        album_id: Some(5),
        track_number: number,
        disc_number: disc,
        duration: 60,
        artist_names: None,
    }
}

#[test]
fn grid_rows_round_up() {
    assert_eq!(grid_row_count(0, 4), 0);
    assert_eq!(grid_row_count(8, 4), 2);
    assert_eq!(grid_row_count(9, 4), 3);
    assert_eq!(grid_row_count(5, 0), 5);
}

#[test]
fn visible_rows_add_overscan_within_the_grid() {
    assert_eq!(visible_row_range(3, 6, 1, 10), (2, 7));
    assert_eq!(visible_row_range(0, 10, 1, 10), (0, 10));
    assert_eq!(visible_items(1, 3, 4, 10), vec![4, 5, 6, 7, 8, 9]);
    assert!(visible_items(2, 2, 4, 10).is_empty());
    assert!(visible_items(0, 3, 0, 10).is_empty());
}

#[test]
fn play_pause_toggles() {
    assert_eq!(play_pause(PlaybackState::Playing), PlaybackAction::Pause);
    assert_eq!(play_pause(PlaybackState::Paused), PlaybackAction::Play);
    assert_eq!(play_pause(PlaybackState::Stopped), PlaybackAction::Play);
}

#[test]
fn repeat_cycles_through_three_states() {
    let a = RepeatState::NotRepeating;
    let b = next_repeat_state(a);
    let c = next_repeat_state(b);
    assert_eq!(b, RepeatState::Repeating);
    assert_eq!(c, RepeatState::RepeatingOne);
    assert_eq!(next_repeat_state(c), a);
    assert!(repeat_shows_once_icon(c) && !repeat_shows_once_icon(b));
    assert!(repeat_is_toggled(b) && !repeat_is_toggled(a));
    assert!(scrubber_can_seek(10, PlaybackState::Paused));
    assert!(!scrubber_can_seek(0, PlaybackState::Playing));
    assert!(!scrubber_can_seek(10, PlaybackState::Stopped));
}

#[test]
fn scan_reports() {
    assert!(should_reload_search(&ScanEvent::ScanCompleteWatching));
    assert!(!should_reload_search(&ScanEvent::Cleaning));
    assert!(scan_is_complete(&ScanEvent::ScanCompleteIdle));
    assert!(should_refresh_rows(&ScanEvent::ScanCompleteIdle));
    assert!(matches!(
        scan_status_text(&ScanEvent::ScanProgress { current: 3, total: UNKNOWN_TOTAL }),
        ScanStatusText::Discovering { current: 3 }
    ));
    assert!(matches!(
        scan_status_text(&ScanEvent::ScanProgress { current: 3, total: 4 }),
        ScanStatusText::Scanning { current: 3, total: 4 }
    ));
    assert!(matches!(scan_status_text(&ScanEvent::ScanCompleteWatching), ScanStatusText::Watching));
    assert!(matches!(scan_status_text(&ScanEvent::Cleaning), ScanStatusText::Empty));
    let paths = vec!["/a".to_string(), "/b".to_string()];
    assert_eq!(
        missing_folder_paths(&ScanEvent::WaitingForMissingFolderDecision { paths: paths.clone() }),
        paths
    );
    assert!(missing_folder_paths(&ScanEvent::Cleaning).is_empty());
}

#[test]
fn the_menu_bar_opens_and_follows_the_pointer() {
    let mut bar = MenuBar::new();
    bar.hover(1);
    assert_eq!(bar.open_menu(), None);
    bar.click(0);
    assert_eq!(bar.open_menu(), Some(0));
    bar.hover(2);
    assert_eq!(bar.open_menu(), Some(2));
    bar.click(2);
    assert_eq!(bar.open_menu(), None);
    bar.click(1);
    bar.close();
    assert_eq!(bar.open_menu(), None);
}

#[test]
fn window_buttons() {
    assert!(matches!(window_button_command(WindowButton::Maximize), WindowCommand::Zoom));
    assert!(matches!(window_button_command(WindowButton::Close), WindowCommand::Close));
    assert!(uses_close_colors(WindowButton::Close));
    assert!(!uses_close_colors(WindowButton::Minimize));
    assert!(title_bar_press_moves(1));
    assert!(!title_bar_press_moves(2));
}

#[test]
fn remembered_choices_become_policies() {
    let mut dialog = MissingFolderDialog::new();
    assert!(!dialog.remember_choice());
    let (policy, action) = dialog.resolve_action(MissingFolderAction::KeepInLibrary);
    assert!(policy.is_none());
    assert!(matches!(action, MissingFolderAction::KeepInLibrary));
    dialog.toggle_remember_choice();
    assert!(dialog.remember_choice());
    let (policy, _) = dialog.resolve_action(MissingFolderAction::DeleteFromLibrary);
    assert!(matches!(policy, Some(MissingFolderPolicy::DeleteFromLibrary)));
    assert!(!dialog.remember_choice());
}

#[test]
fn verbatim_prefixes_are_hidden() {
    assert_eq!(display_path(r"\\?\C:\Music"), r"C:\Music");
    assert_eq!(display_path(r"\\?\\\?\D:\x"), r"D:\x");
    assert_eq!(display_path("/home/m"), "/home/m");
    assert_eq!(display_path(""), "");
}

#[test]
fn lastfm_button() {
    let connected = LastFMState::Connected(Session { name: "bob".to_string(), key: "k".to_string() });
    assert!(matches!(click_action(&LastFMState::Disconnected), LastFMClick::RequestToken));
    assert!(matches!(
        click_action(&LastFMState::AwaitingFinalization("t".to_string())),
        LastFMClick::Confirm(t) if t == "t"
    ));
    assert!(matches!(click_action(&connected), LastFMClick::Nothing));
    assert_eq!(connected_name(&connected), Some("bob".to_string()));
    assert_eq!(connected_name(&LastFMState::Disconnected), None);
    assert_eq!(button_label(&LastFMState::Disconnected, &None), "Sign in");
    assert_eq!(
        button_label(&LastFMState::AwaitingFinalization("t".to_string()), &None),
        "Click to confirm sign in"
    );
    assert_eq!(button_label(&connected, &Some("bob".to_string())), "bob");
    assert_eq!(button_label(&connected, &None), "Connected");
}

#[test]
fn the_authorisation_page_carries_key_and_token() {
    let url = auth_url("KEY", "a b");
    assert_eq!(url, "http://last.fm/api/auth?api_key=KEY&token=a+b");
    assert_eq!(
        auth_url("k-1_.*", "\u{e9}/~\u{1F600}"),
        "http://last.fm/api/auth?api_key=k-1_.*&token=%C3%A9%2F%7E%F0%9F%98%80"
    );
    assert_eq!(auth_url("", ""), "http://last.fm/api/auth?api_key=&token=");
}

#[test]
fn search_entries() {
    let album = SearchPaletteItem::Album { id: 4, title: "Mezzanine".to_string(), artist: "Massive Attack".to_string(), available: false };
    assert_eq!(search_match_text(&album), "Mezzanine Massive Attack");
    assert_eq!(accept_search_item(&album), Some(ViewSwitchMessage::Release(4)));
    let track = SearchPaletteItem::Track { id: 1, title: "Teardrop".to_string(), album_id: Some(4) };
    assert_eq!(search_match_text(&track), "Teardrop");
    assert_eq!(accept_search_item(&track), Some(ViewSwitchMessage::Release(4)));
    assert_eq!(match_limit(5), 5);
    assert_eq!(match_limit(500), 100);
    assert_eq!(finder_select_previous(0), 0);
    assert_eq!(finder_select_previous(3), 2);
    assert_eq!(finder_select_next(0, 0), 0);
    assert_eq!(finder_select_next(0, 2), 1);
    assert_eq!(finder_select_next(1, 2), 1);
}

#[test]
fn album_palette_items() {
    let items = AlbumPaletteItem::from_search_results(vec![
        (1, "A".to_string(), "X".to_string(), true),
        (2, "B".to_string(), "Y".to_string(), false),
    ]);
    assert_eq!(items.len(), 2);
    assert_eq!(items[0].id, 1);
    assert_eq!(items[1].title, "B");
    assert!(!items[1].is_enabled());
    assert_eq!(items[0].thumbnail_path(), "!db://album/1/thumb");
    assert!(matches!(items[0].left_content(), FinderItemLeft::Image(p) if p == "!db://album/1/thumb"));
    assert_eq!(items[0].middle_content(), "A");
    assert_eq!(items[0].right_content(), Some("X".to_string()));
    let _ = sidebar_separator();
}

#[test]
fn track_rows() {
    let tracks = vec![track(1, Some(1), Some(1)), track(2, Some(2), Some(1)), track(3, Some(1), Some(2))];
    assert_eq!(listing_section_starts(&tracks), vec![true, false, true]);
    assert_eq!(release_disc_starts(&tracks), vec![true, false, true]);
    assert_eq!(track_album_art(&tracks[0]), Some("!db://album/5/thumb".to_string()));
    let mut lone = track(4, None, None);
    lone.album_id = None;
    assert_eq!(track_album_art(&lone), None);
    assert!(is_current_track(&Some("/m/2.flac".to_string()), &tracks[1]));
    assert!(!is_current_track(&None, &tracks[1]));
    let names = Some("Björk".to_string());
    assert!(show_artist_name(&ArtistNameVisibility::Always, &names));
    assert!(!show_artist_name(&ArtistNameVisibility::Never, &names));
    assert!(!show_artist_name(&ArtistNameVisibility::OnlyIfDifferent(names.clone()), &names));
    assert!(show_artist_name(&ArtistNameVisibility::OnlyIfDifferent(None), &names));
}

#[test]
fn signing_in_goes_through_a_token_to_a_session() {
    let s1 = next_lastfm_state(LastFMState::Disconnected, LastFMReply::Token("t".to_string()));
    assert!(matches!(&s1, LastFMState::AwaitingFinalization(t) if t == "t"));
    let s2 = next_lastfm_state(s1.clone(), LastFMReply::Failed);
    assert!(matches!(&s2, LastFMState::AwaitingFinalization(t) if t == "t"));
    let s3 = next_lastfm_state(s2, LastFMReply::Session(Session { name: "n".to_string(), key: "k".to_string() }));
    assert!(matches!(s3, LastFMState::Connected(s) if s.key == "k"));
}

#[test]
fn the_repeat_menu_hides_off_when_always_repeating() {
    assert_eq!(
        repeat_menu_options(false),
        vec![("Off", RepeatState::NotRepeating), ("Repeat", RepeatState::Repeating), ("Repeat One", RepeatState::RepeatingOne)]
    );
    assert_eq!(
        repeat_menu_options(true),
        vec![("Repeat", RepeatState::Repeating), ("Repeat One", RepeatState::RepeatingOne)]
    );
}
