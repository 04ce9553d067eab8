use vstd::prelude::*;
use crate::availability::Track;
use crate::text::album_thumbnail_path;

verus! {

/// When a track row shows the track's artists.
#[derive(Clone, Debug)]
pub enum ArtistNameVisibility {
    Always,
    Never,
    /// Only when they differ from these (the album's artists).
    OnlyIfDifferent(Option<String>),
}

/// What the left column of a track row shows.
#[derive(Clone, Copy, Debug, PartialEq, Eq, Structural)]
pub enum TrackItemLeftField {
    TrackNum,
    Art,
}

pub open spec fn opt_view(s: Option<String>) -> Option<Seq<char>> {
    match s {
        Some(x) => Some(x@),
        None => None,
    }
}

pub open spec fn show_artist_spec(visibility: ArtistNameVisibility, artists: Option<String>) -> bool {
    match visibility {
        ArtistNameVisibility::Always => true,
        ArtistNameVisibility::Never => false,
        ArtistNameVisibility::OnlyIfDifferent(album) => opt_view(album) != opt_view(artists),
    }
}

fn opt_string_eq(a: &Option<String>, b: &Option<String>) -> (r: bool)
    ensures
        r == (opt_view(*a) == opt_view(*b)),
{
    match (a, b) {
        (Some(x), Some(y)) => *x == *y,
        (None, None) => true,
        _ => false,
    }
}

/// Whether a track row shows the track's artists.
pub fn show_artist_name(visibility: &ArtistNameVisibility, artist_names: &Option<String>) -> (r: bool)
    ensures
        r == show_artist_spec(*visibility, *artist_names),
{
    match visibility {
        ArtistNameVisibility::Always => true,
        ArtistNameVisibility::Never => false,
        ArtistNameVisibility::OnlyIfDifferent(album) => !opt_string_eq(album, artist_names),
    }
}

/// Which rows of a track listing start a disc section: the first row, and every track
/// numbered one.
pub fn listing_section_starts(tracks: &Vec<Track>) -> (r: Vec<bool>)
    ensures
        r@.len() == tracks@.len(),
        forall|i: int|
            0 <= i < r@.len() ==> #[trigger] r@[i] == (i == 0 || tracks@[i].track_number == Some(
                1i64,
            )),
{
    let mut r: Vec<bool> = Vec::new();
    let mut i: usize = 0;
    while i < tracks.len()
        invariant
            0 <= i <= tracks@.len(),
            r@.len() == i,
            forall|j: int|
                0 <= j < i ==> #[trigger] r@[j] == (j == 0 || tracks@[j].track_number == Some(
                    1i64,
                )),
        decreases tracks@.len() - i,
    {
        let start = i == 0 || match tracks[i].track_number {
            Some(n) => n == 1,
            None => false,
        };
        r.push(start);
        i = i + 1;
    }
    r
}

/// Which rows of a release's track list start a disc section: the first row, and every track
/// whose disc differs from the one before.
pub fn release_disc_starts(tracks: &Vec<Track>) -> (r: Vec<bool>)
    ensures
        r@.len() == tracks@.len(),
        forall|i: int|
            0 <= i < r@.len() ==> #[trigger] r@[i] == (i == 0 || tracks@[i - 1].disc_number
                != tracks@[i].disc_number),
{
    let mut r: Vec<bool> = Vec::new();
    let mut i: usize = 0;
    while i < tracks.len()
        invariant
            0 <= i <= tracks@.len(),
            r@.len() == i,
            forall|j: int|
                0 <= j < i ==> #[trigger] r@[j] == (j == 0 || tracks@[j - 1].disc_number
                    != tracks@[j].disc_number),
        decreases tracks@.len() - i,
    {
        let start = if i == 0 {
            true
        } else {
            tracks[i - 1].disc_number != tracks[i].disc_number
        };
        r.push(start);
        i = i + 1;
    }
    r
}

/// The thumbnail a track row shows: its album's, when it has one.
pub fn track_album_art(track: &Track) -> (r: Option<String>)
    ensures
        match track.album_id {
            Some(id) => r matches Some(p) && p@ == album_thumbnail_path(id as int),
            None => r is None,
        },
{
    match track.album_id {
        Some(id) => Some(crate::text::format_album_thumbnail_path(id)),
        None => None,
    }
}

/// Whether a track row is highlighted as the one playing.
pub fn is_current_track(current_track: &Option<String>, track: &Track) -> (r: bool)
    ensures
        r == (opt_view(*current_track) == Some(track.location@)),
{
    match current_track {
        Some(path) => *path == track.location,
        None => false,
    }
}

} // verus!
