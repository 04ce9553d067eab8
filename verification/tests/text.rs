use hummingbird::text::{
    format_album_thumbnail_path, format_release_info, format_remaining, format_timestamp,
    format_track_duration, format_track_hover_group, vinyl_side,
};

#[test]
fn timestamps_are_padded() {
    assert_eq!(format_timestamp(0), "00:00");
    assert_eq!(format_timestamp(187), "03:07");
    assert_eq!(format_timestamp(600), "10:00");
    assert_eq!(format_timestamp(6005), "100:05");
}

#[test]
fn remaining_time_has_a_minus_sign() {
    assert_eq!(format_remaining(60, 247), "-03:07");
    assert_eq!(format_remaining(10, 10), "-00:00");
}

#[test]
fn track_durations_pad_only_seconds() {
    assert_eq!(format_track_duration(187), "3:07");
    assert_eq!(format_track_duration(59), "0:59");
    assert_eq!(format_track_duration(3600), "60:00");
}

#[test]
fn thumbnail_paths() {
    assert_eq!(format_album_thumbnail_path(42), "!db://album/42/thumb");
    assert_eq!(format_album_thumbnail_path(0), "!db://album/0/thumb");
    assert_eq!(format_album_thumbnail_path(-3), "!db://album/-3/thumb");
    assert_eq!(
        format_album_thumbnail_path(i64::MIN),
        format!("!db://album/{}/thumb", i64::MIN)
    );
}

#[test]
fn hover_groups() {
    assert_eq!(format_track_hover_group(12), "track-12");
    assert_eq!(format_track_hover_group(-1), "track--1");
}

#[test]
fn release_info_joins_label_and_catalog_number() {
    let label = Some("Warp".to_string());
    let cat = Some("WARP123".to_string());
    assert_eq!(format_release_info(&label, &cat), "Warp \u{2022} WARP123");
    assert_eq!(format_release_info(&label, &None), "Warp");
    assert_eq!(format_release_info(&None, &cat), "WARP123");
    assert_eq!(format_release_info(&None, &None), "");
}

#[test]
fn vinyl_sides() {
    assert_eq!(vinyl_side(1), 'A');
    assert_eq!(vinyl_side(2), 'B');
    assert_eq!(vinyl_side(26), 'Z');
    assert_eq!(vinyl_side(258), 'B');
}
