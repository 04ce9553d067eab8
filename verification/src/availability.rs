use vstd::prelude::*;

verus! {

/// A library track, with what the views read of it.
#[derive(Clone, Debug)]
pub struct Track {
    pub id: i64,
    pub title: String,
    /// The path of the track's file.
    pub location: String,
    pub album_id: Option<i64>,
    pub track_number: Option<i64>,
    pub disc_number: Option<i64>,
    /// The length in seconds.
    pub duration: u64,
    pub artist_names: Option<String>,
}

/// Whether a track's file exists, that is, whether it can be played (`Path::exists`). The
/// answer depends on the file system at the time of the call, so nothing is stated of it.
#[verifier::external_body]
pub fn is_track_path_available(path: &str) -> bool {
    std::path::Path::new(path).exists()
}

/// Whether a track can be played: whether its file exists.
pub fn is_track_available(track: &Track) -> bool {
    is_track_path_available(track.location.as_str())
}

/// Whether any of the tracks can be played, given for each track whether its file was found
/// (`is_track_path_available` on its location, asked where the files are looked at). An empty
/// list has none.
pub fn has_available_tracks(available: &[bool]) -> (r: bool)
    ensures
        r == exists|i: int| 0 <= i < available@.len() && available@[i],
{
    let mut i: usize = 0;
    while i < available.len()
        invariant
            0 <= i <= available@.len(),
            forall|j: int| 0 <= j < i ==> !available@[j],
        decreases available@.len() - i,
    {
        if available[i] {
            return true;
        }
        i = i + 1;
    }
    false
}

/// Whether an album has a track that can be played, given for each track the library lists for
/// it whether its file was found (`None` when the listing failed, which counts as no).
pub fn album_has_available_tracks(listed: Option<&Vec<bool>>) -> (r: bool)
    ensures
        match listed {
            Some(available) => r == exists|i: int| 0 <= i < available@.len() && available@[i],
            None => !r,
        },
{
    match listed {
        Some(available) => has_available_tracks(available.as_slice()),
        None => false,
    }
}

/// Whether an artist has a track that can be played, given for each track the library lists
/// for them whether its file was found (`None` when the listing failed, which counts as no).
pub fn artist_has_available_tracks(listed: Option<&Vec<bool>>) -> (r: bool)
    ensures
        match listed {
            Some(available) => r == exists|i: int| 0 <= i < available@.len() && available@[i],
            None => !r,
        },
{
    match listed {
        Some(available) => has_available_tracks(available.as_slice()),
        None => false,
    }
}

} // verus!
