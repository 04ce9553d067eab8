use hummingbird::navigation::{LeftPane, LibraryViewKind, NavigationHistory, ViewSwitchMessage};

#[test]
fn new_history_shows_albums() {
    let h = NavigationHistory::new();
    assert_eq!(h.current(), ViewSwitchMessage::Albums);
    assert!(!h.can_go_back());
    assert!(!h.can_go_forward());
}

#[test]
fn navigate_then_back_and_forward() {
    let mut h = NavigationHistory::new();
    h.navigate(ViewSwitchMessage::Tracks);
    h.navigate(ViewSwitchMessage::Release(7));
    assert_eq!(h.current(), ViewSwitchMessage::Release(7));
    assert!(!h.can_go_forward());
    assert_eq!(h.go_back(), Some(ViewSwitchMessage::Tracks));
    assert_eq!(h.go_back(), Some(ViewSwitchMessage::Albums));
    assert_eq!(h.go_back(), None);
    assert_eq!(h.current(), ViewSwitchMessage::Albums);
    assert_eq!(h.go_forward(), Some(ViewSwitchMessage::Tracks));
    assert_eq!(h.go_forward(), Some(ViewSwitchMessage::Release(7)));
    assert_eq!(h.go_forward(), None);
}

#[test]
fn navigate_drops_forward_history() {
    let mut h = NavigationHistory::new();
    h.navigate(ViewSwitchMessage::Tracks);
    h.navigate(ViewSwitchMessage::Artists);
    h.go_back();
    h.navigate(ViewSwitchMessage::Playlist(3));
    assert_eq!(h.current(), ViewSwitchMessage::Playlist(3));
    assert!(!h.can_go_forward());
    assert_eq!(h.go_back(), Some(ViewSwitchMessage::Tracks));
    assert_eq!(h.go_back(), Some(ViewSwitchMessage::Albums));
}

#[test]
fn history_is_capped_at_one_hundred_entries() {
    let mut h = NavigationHistory::new();
    for i in 0..150 {
        h.navigate(ViewSwitchMessage::Release(i));
    }
    let mut steps = 0;
    while h.go_back().is_some() {
        steps += 1;
    }
    assert_eq!(steps, 99);
    assert_eq!(h.current(), ViewSwitchMessage::Release(50));
}

#[test]
fn back_then_forward_returns_to_same_view() {
    let mut h = NavigationHistory::new();
    h.navigate(ViewSwitchMessage::Artist(2));
    h.navigate(ViewSwitchMessage::Release(5));
    h.go_back();
    assert_eq!(h.go_forward(), Some(ViewSwitchMessage::Release(5)));
    assert_eq!(h.current(), ViewSwitchMessage::Release(5));
}

#[test]
fn retain_keeps_surviving_current_entry() {
    let mut h = NavigationHistory::new();
    h.navigate(ViewSwitchMessage::Playlist(1));
    h.navigate(ViewSwitchMessage::Release(4));
    h.navigate(ViewSwitchMessage::Playlist(2));
    h.go_back();
    h.retain(|m| !matches!(m, ViewSwitchMessage::Playlist(1)));
    assert_eq!(h.current(), ViewSwitchMessage::Release(4));
    assert_eq!(h.go_back(), Some(ViewSwitchMessage::Albums));
    assert_eq!(h.go_forward(), Some(ViewSwitchMessage::Release(4)));
    assert_eq!(h.go_forward(), Some(ViewSwitchMessage::Playlist(2)));
}

#[test]
fn retain_backs_up_to_previous_survivor() {
    let mut h = NavigationHistory::new();
    h.navigate(ViewSwitchMessage::Tracks);
    h.navigate(ViewSwitchMessage::Playlist(9));
    h.navigate(ViewSwitchMessage::Playlist(9));
    h.navigate(ViewSwitchMessage::Artists);
    h.go_back();
    h.retain(|m| !matches!(m, ViewSwitchMessage::Playlist(9)));
    assert_eq!(h.current(), ViewSwitchMessage::Tracks);
    assert!(h.can_go_forward());
    assert_eq!(h.go_forward(), Some(ViewSwitchMessage::Artists));
}

#[test]
fn retain_never_empties_history() {
    let mut h = NavigationHistory::new();
    h.navigate(ViewSwitchMessage::Tracks);
    h.retain(|_| false);
    assert_eq!(h.current(), ViewSwitchMessage::Albums);
    assert!(!h.can_go_back());
    assert!(!h.can_go_forward());
}

#[test]
fn last_matching_finds_most_recent_before_cursor() {
    let mut h = NavigationHistory::new();
    h.navigate(ViewSwitchMessage::Artists);
    h.navigate(ViewSwitchMessage::Artist(3));
    h.navigate(ViewSwitchMessage::Release(8));
    assert_eq!(h.last_matching(|m| m.is_key_page()), Some(ViewSwitchMessage::Artists));
    assert_eq!(
        h.last_matching(|m| matches!(m, ViewSwitchMessage::Artist(_))),
        Some(ViewSwitchMessage::Artist(3))
    );
    assert_eq!(h.last_matching(|m| matches!(m, ViewSwitchMessage::Release(_))), None);
}

#[test]
fn page_kinds() {
    assert!(ViewSwitchMessage::Release(1).is_detail_page());
    assert!(ViewSwitchMessage::Artist(1).is_detail_page());
    assert!(!ViewSwitchMessage::Playlist(1).is_detail_page());
    assert!(ViewSwitchMessage::Playlist(1).is_key_page());
    assert!(ViewSwitchMessage::Albums.is_key_page());
    assert!(!ViewSwitchMessage::Back.is_key_page());
    assert!(!ViewSwitchMessage::Refresh.is_key_page());
    assert!(!ViewSwitchMessage::Artist(1).is_key_page());
}

#[test]
fn view_matching_and_kinds() {
    assert!(ViewSwitchMessage::Albums.library_view_matches(LibraryViewKind::Album));
    assert!(ViewSwitchMessage::Tracks.library_view_matches(LibraryViewKind::Tracks));
    assert!(ViewSwitchMessage::Artists.library_view_matches(LibraryViewKind::Artists));
    assert!(!ViewSwitchMessage::Artist(2).library_view_matches(LibraryViewKind::ArtistDetail));
    assert!(!ViewSwitchMessage::Albums.library_view_matches(LibraryViewKind::Tracks));
    assert_eq!(ViewSwitchMessage::Release(1).view_kind(), LibraryViewKind::Release);
    assert_eq!(ViewSwitchMessage::Artist(1).view_kind(), LibraryViewKind::ArtistDetail);
    assert_eq!(ViewSwitchMessage::Playlist(1).view_kind(), LibraryViewKind::Playlist);
}

#[test]
fn switch_destination_handles_each_message() {
    let mut h = NavigationHistory::new();
    assert_eq!(h.switch_destination(ViewSwitchMessage::Back), None);
    assert_eq!(h.switch_destination(ViewSwitchMessage::Forward), None);
    assert_eq!(
        h.switch_destination(ViewSwitchMessage::Refresh),
        Some(ViewSwitchMessage::Albums)
    );
    assert_eq!(
        h.switch_destination(ViewSwitchMessage::Tracks),
        Some(ViewSwitchMessage::Tracks)
    );
    assert_eq!(
        h.switch_destination(ViewSwitchMessage::Back),
        Some(ViewSwitchMessage::Albums)
    );
    assert_eq!(
        h.switch_destination(ViewSwitchMessage::Forward),
        Some(ViewSwitchMessage::Tracks)
    );
    assert_eq!(h.current(), ViewSwitchMessage::Tracks);
}

#[test]
fn two_column_panes() {
    let mut h = NavigationHistory::new();
    let plan = h.plan_panes(false, None);
    assert_eq!(plan.left, LeftPane::Clear);
    assert!(!plan.right_shows_current);

    let plan = h.plan_panes(true, None);
    assert_eq!(plan.left, LeftPane::ShowCurrent);
    assert!(!plan.right_shows_current);

    h.navigate(ViewSwitchMessage::Release(4));
    let plan = h.plan_panes(true, Some(LibraryViewKind::Album));
    assert_eq!(plan.left, LeftPane::Keep);
    assert!(plan.right_shows_current);

    let plan = h.plan_panes(true, Some(LibraryViewKind::Tracks));
    assert_eq!(plan.left, LeftPane::Build(ViewSwitchMessage::Albums));

    let plan = h.plan_panes(true, None);
    assert_eq!(plan.left, LeftPane::Build(ViewSwitchMessage::Albums));
}

#[test]
fn two_column_without_key_page_clears_left() {
    let mut h = NavigationHistory::new();
    for _ in 0..99 {
        h.navigate(ViewSwitchMessage::Artist(1));
    }
    h.navigate(ViewSwitchMessage::Release(2));
    let plan = h.plan_panes(true, Some(LibraryViewKind::Album));
    assert_eq!(plan.left, LeftPane::Clear);
    assert!(plan.right_shows_current);
    let plan = h.plan_panes(true, None);
    assert_eq!(plan.left, LeftPane::Keep);
}

#[test]
fn sidebar_follows_left_pane() {
    let mut h = NavigationHistory::new();
    h.navigate(ViewSwitchMessage::Artists);
    h.navigate(ViewSwitchMessage::Artist(6));
    h.navigate(ViewSwitchMessage::Release(9));
    assert_eq!(h.sidebar_view(false), ViewSwitchMessage::Release(9));
    assert_eq!(h.sidebar_view(true), ViewSwitchMessage::Artist(6));
    h.go_back();
    assert_eq!(h.sidebar_view(true), ViewSwitchMessage::Artists);
}
