use vstd::prelude::*;
use crate::availability::{is_track_available, is_track_path_available, Track};
use crate::navigation::ViewSwitchMessage;
use rand::seq::SliceRandom;
use std::path::Path;

verus! {

/// A queue entry: the file to play and the library ids it came from.
#[derive(Clone, Debug)]
pub struct QueueItemData {
    pub path: String,
    pub track_id: Option<i64>,
    pub album_id: Option<i64>,
}

impl QueueItemData {
    pub fn new(path: String, track_id: Option<i64>, album_id: Option<i64>) -> (r: Self)
        ensures
            r.path == path,
            r.track_id == track_id,
            r.album_id == album_id,
    {
        Self { path, track_id, album_id }
    }
}

/// The queue entry that plays a library track.
pub open spec fn item_of(track: Track) -> QueueItemData {
    QueueItemData { path: track.location, track_id: Some(track.id), album_id: track.album_id }
}

pub fn queue_item_for(track: &Track) -> (r: QueueItemData)
    ensures
        r == item_of(*track),
{
    QueueItemData::new(track.location.clone(), Some(track.id), track.album_id)
}

/// The queue entries of the tracks whose answer in `available` is yes, in order.
pub open spec fn available_items(tracks: Seq<Track>, available: Seq<bool>) -> Seq<QueueItemData>
    decreases tracks.len(),
{
    if tracks.len() == 0 || available.len() == 0 {
        Seq::empty()
    } else {
        let rest = available_items(tracks.drop_last(), available.drop_last());
        if available.last() {
            rest.push(item_of(tracks.last()))
        } else {
            rest
        }
    }
}

/// The queue entries of the tracks that can be played, given which can (`available[i]` for
/// `tracks[i]`).
pub fn available_queue_items(tracks: &Vec<Track>, available: &Vec<bool>) -> (r: Vec<QueueItemData>)
    requires
        available@.len() == tracks@.len(),
    ensures
        r@ == available_items(tracks@, available@),
{
    let mut r: Vec<QueueItemData> = Vec::new();
    let mut i: usize = 0;
    while i < tracks.len()
        invariant
            available@.len() == tracks@.len(),
            0 <= i <= tracks@.len(),
            r@ == available_items(tracks@.take(i as int), available@.take(i as int)),
        decreases tracks@.len() - i,
    {
        let ghost prev = r@;
        if available[i] {
            let item = queue_item_for(&tracks[i]);
            r.push(item);
        }
        proof {
            assert(tracks@.take(i + 1).drop_last() == tracks@.take(i as int));
            assert(available@.take(i + 1).drop_last() == available@.take(i as int));
            assert(tracks@.take(i + 1).last() == tracks@[i as int]);
            assert(available@.take(i + 1).last() == available@[i as int]);
        }
        i = i + 1;
    }
    assert(tracks@.take(tracks@.len() as int) == tracks@);
    assert(available@.take(available@.len() as int) == available@);
    r
}

/// The queue entries of the tracks that can be played now. Which can is read from the file
/// system; the entries are those of the tracks found playable, in order.
pub fn queue_items_for_tracks(tracks: &Vec<Track>) -> (r: Vec<QueueItemData>)
    ensures
        exists|available: Seq<bool>|
            available.len() == tracks@.len() && r@ == available_items(tracks@, available),
{
    let mut available: Vec<bool> = Vec::new();
    let mut i: usize = 0;
    while i < tracks.len()
        invariant
            0 <= i <= tracks@.len(),
            available@.len() == i,
        decreases tracks@.len() - i,
    {
        available.push(is_track_available(&tracks[i]));
        i = i + 1;
    }
    available_queue_items(tracks, &available)
}

/// The queue entries of a playlist's tracks whose files exist, given the playlist entries
/// (entry id, track id, album id) and, in the same order, the tracks' paths. Entries beyond the
/// shorter of the two lists are ignored.
pub open spec fn playlist_items(
    entries: Seq<(i64, i64, i64)>,
    paths: Seq<String>,
    exists_: Seq<bool>,
) -> Seq<QueueItemData>
    decreases entries.len(),
{
    let n = if entries.len() < paths.len() {
        entries.len()
    } else {
        paths.len()
    };
    if n == 0 || exists_.len() < n {
        Seq::empty()
    } else {
        let rest = playlist_items(entries.take(n - 1), paths.take(n - 1), exists_.take(n - 1));
        if exists_[n - 1] {
            rest.push(
                QueueItemData {
                    path: paths[n - 1],
                    track_id: Some(entries[n - 1].1),
                    album_id: Some(entries[n - 1].2),
                },
            )
        } else {
            rest
        }
    }
}

pub fn playlist_queue_items(entries: &Vec<(i64, i64, i64)>, paths: &Vec<String>) -> (r: Vec<
    QueueItemData,
>)
    ensures
        exists|exists_: Seq<bool>|
            r@ == playlist_items(entries@, paths@, exists_),
{
    let n: usize = if entries.len() < paths.len() {
        entries.len()
    } else {
        paths.len()
    };
    let mut r: Vec<QueueItemData> = Vec::new();
    let ghost mut exists_: Seq<bool> = Seq::empty();
    let mut i: usize = 0;
    while i < n
        invariant
            n <= entries@.len(),
            n <= paths@.len(),
            n == entries@.len() || n == paths@.len(),
            0 <= i <= n,
            exists_.len() == i,
            r@ == playlist_items(entries@.take(i as int), paths@.take(i as int), exists_),
        decreases n - i,
    {
        let found = is_track_path_available(paths[i].as_str());
        let ghost prev_exists = exists_;
        proof {
            exists_ = exists_.push(found);
        }
        if found {
            let (_, track_id, album_id) = entries[i];
            r.push(QueueItemData::new(paths[i].clone(), Some(track_id), Some(album_id)));
        }
        proof {
            let e = entries@.take(i + 1);
            let p = paths@.take(i + 1);
            assert(e.take(i as int) == entries@.take(i as int));
            assert(p.take(i as int) == paths@.take(i as int));
            assert(exists_.take(i as int) == prev_exists);
            assert(e[i as int] == entries@[i as int]);
            assert(p[i as int] == paths@[i as int]);
        }
        i = i + 1;
    }
    proof {
        if n == entries@.len() {
            assert(entries@.take(n as int) == entries@);
            assert(playlist_items(entries@, paths@.take(n as int), exists_) == playlist_items(
                entries@,
                paths@,
                exists_,
            )) by {
                lemma_playlist_items_extra_paths(entries@, paths@, exists_);
            }
        } else {
            assert(paths@.take(n as int) == paths@);
            lemma_playlist_items_extra_entries(entries@, paths@, exists_);
        }
    }
    r
}

proof fn lemma_playlist_items_extra_paths(
    entries: Seq<(i64, i64, i64)>,
    paths: Seq<String>,
    exists_: Seq<bool>,
)
    requires
        entries.len() <= paths.len(),
    ensures
        playlist_items(entries, paths.take(entries.len() as int), exists_) == playlist_items(
            entries,
            paths,
            exists_,
        ),
{
    let n = entries.len() as int;
    if n > 0 && exists_.len() >= n {
        assert(paths.take(n).take(n - 1) == paths.take(n - 1));
    }
}

proof fn lemma_playlist_items_extra_entries(
    entries: Seq<(i64, i64, i64)>,
    paths: Seq<String>,
    exists_: Seq<bool>,
)
    requires
        paths.len() <= entries.len(),
    ensures
        playlist_items(entries.take(paths.len() as int), paths, exists_) == playlist_items(
            entries,
            paths,
            exists_,
        ),
{
    let n = paths.len() as int;
    if n > 0 && exists_.len() >= n {
        assert(entries.take(n).take(n - 1) == entries.take(n - 1));
    }
}

/// The first entry of `items` that plays `path`.
pub open spec fn first_with_path(items: Seq<QueueItemData>, path: Seq<char>, from: int) -> Option<
    int,
>
    decreases items.len() - from,
{
    if from < 0 || from >= items.len() {
        None
    } else if items[from].path@ == path {
        Some(from)
    } else {
        first_with_path(items, path, from + 1)
    }
}

/// Where playback starts in a new queue: at the first entry that plays the chosen track, or at
/// the start when none does.
pub open spec fn jump_spec(items: Seq<QueueItemData>, path: Seq<char>) -> int {
    match first_with_path(items, path, 0) {
        Some(i) => i,
        None => 0,
    }
}

pub fn jump_index(items: &Vec<QueueItemData>, path: &String) -> (r: usize)
    ensures
        r == jump_spec(items@, path@),
{
    let mut i: usize = 0;
    while i < items.len()
        invariant
            0 <= i <= items@.len(),
            first_with_path(items@, path@, 0) == first_with_path(items@, path@, i as int),
        decreases items@.len() - i,
    {
        if items[i].path == *path {
            return i;
        }
        i = i + 1;
    }
    0
}

/// Where to jump when playing from a track, given whether the track can be played: nowhere
/// when it cannot or the new queue would be empty, else at the track.
pub open spec fn play_from_spec(available: bool, items: Seq<QueueItemData>, path: Seq<char>) -> Option<
    int,
> {
    if available && items.len() > 0 {
        Some(jump_spec(items, path))
    } else {
        None
    }
}

/// Where to jump when playing from `track`, given whether its file was found.
pub fn play_from_available_track(available: bool, track: &Track, queue_items: &Vec<QueueItemData>) -> (r:
    Option<usize>)
    ensures
        match play_from_spec(available, queue_items@, track.location@) {
            Some(i) => r matches Some(j) && j == i,
            None => r is None,
        },
{
    if !available || queue_items.len() == 0 {
        return None;
    }
    Some(jump_index(queue_items, &track.location))
}

/// Playing from a track replaces the queue with `queue_items` and jumps to the track. Returns
/// where to jump, or nothing when there is nothing to do: when the track cannot be played
/// (its file is looked for on disk) or the new queue would be empty.
pub fn play_from_track(track: &Track, queue_items: &Vec<QueueItemData>) -> (r: Option<usize>)
    ensures
        queue_items@.len() == 0 ==> r is None,
        r is Some ==> r->0 == jump_spec(queue_items@, track.location@),
{
    let available = is_track_available(track);
    play_from_available_track(available, track, queue_items)
}

/// The queue for a track played on its own.
pub fn single_track_queue(track: &Track) -> (r: Vec<QueueItemData>)
    ensures
        r@ == seq![item_of(*track)],
{
    let mut r: Vec<QueueItemData> = Vec::new();
    r.push(queue_item_for(track));
    r
}

/// Where a track played next is inserted: just after the current entry.
pub fn play_next_position(position: usize) -> (r: usize)
    requires
        position < usize::MAX,
    ensures
        r == position + 1,
{
    position + 1
}

/// Where an album's tracks are inserted to play next: one after another, starting just after
/// the current entry.
pub fn album_insert_positions(position: usize, count: usize) -> (r: Vec<usize>)
    requires
        position + count < usize::MAX,
    ensures
        r@.len() == count,
        forall|k: int| 0 <= k < count ==> #[trigger] r@[k] == position + 1 + k,
{
    let mut r: Vec<usize> = Vec::new();
    let mut k: usize = 0;
    while k < count
        invariant
            position + count < usize::MAX,
            0 <= k <= count,
            r@.len() == k,
            forall|j: int| 0 <= j < k ==> #[trigger] r@[j] == position + 1 + j,
        decreases count - k,
    {
        r.push(position + 1 + k);
        k = k + 1;
    }
    r
}

/// Shuffles queue entries in place (`rand::seq::SliceRandom::shuffle` with `rand::rng()`). The
/// order depends on chance; the entries are the same, each as often as before.
#[verifier::external_body]
fn shuffle_items(items: &mut Vec<QueueItemData>)
    ensures
        final(items)@.to_multiset() == old(items)@.to_multiset(),
{
    items.shuffle(&mut rand::rng());
}

/// The queue for playing an album shuffled: nothing when none of its tracks can be played,
/// else its playable entries in a random order.
pub fn shuffle_album(items: Vec<QueueItemData>) -> (r: Option<Vec<QueueItemData>>)
    ensures
        items@.len() == 0 ==> r is None,
        items@.len() > 0 ==> r is Some && r->0@.to_multiset() == items@.to_multiset(),
{
    if items.len() == 0 {
        return None;
    }
    let mut items = items;
    shuffle_items(&mut items);
    Some(items)
}

/// The queue for playing an album now: nothing when none of its tracks can be played.
pub fn play_album_now(items: Vec<QueueItemData>) -> (r: Option<Vec<QueueItemData>>)
    ensures
        items@.len() == 0 ==> r is None,
        items@.len() > 0 ==> r == Some(items),
{
    if items.len() == 0 {
        None
    } else {
        Some(items)
    }
}

/// The view that shows a track's album, when it has one.
pub fn navigate_to_track_album(track: &Track) -> (r: Option<ViewSwitchMessage>)
    ensures
        r == match track.album_id {
            Some(id) => Some(ViewSwitchMessage::Release(id)),
            None => None,
        },
{
    match track.album_id {
        Some(id) => Some(ViewSwitchMessage::Release(id)),
        None => None,
    }
}

/// The view that shows an artist.
pub fn navigate_to_artist(artist_id: i64) -> (r: ViewSwitchMessage)
    ensures
        r == ViewSwitchMessage::Artist(artist_id),
{
    ViewSwitchMessage::Artist(artist_id)
}

/// A playlist entry a menu acts on.
#[derive(Clone, Copy, Debug, PartialEq, Eq, Structural)]
pub struct PlaylistMenuInfo {
    pub id: i64,
    pub item_id: i64,
}

/// What an album's context menu offers.
#[derive(Clone, Copy, Debug, PartialEq, Eq, Structural)]
pub struct AlbumContextMenuContext {
    pub show_go_to_artist: bool,
}

impl AlbumContextMenuContext {
    /// By default the menu offers to go to the artist.
    pub fn default() -> (r: Self)
        ensures
            r.show_go_to_artist,
    {
        Self { show_go_to_artist: true }
    }
}

/// Where the queue comes from when a row of a track listing is played.
#[derive(Clone, Copy, Debug, PartialEq, Eq, Structural)]
pub enum QueueSource {
    /// The tracks the listing was given to play from.
    ListingTracks,
    /// The playlist the listing shows.
    Playlist(i64),
    /// The album the track is on.
    Album(i64),
    /// The track alone.
    SingleTrack,
}

/// Where the queue comes from for a played row: the listing's own tracks when it has them,
/// else the playlist it shows, else the track's album, else the track alone.
pub fn queue_source(has_listing_tracks: bool, playlist_id: Option<i64>, track: &Track) -> (r:
    QueueSource)
    ensures
        r == if has_listing_tracks {
            QueueSource::ListingTracks
        } else {
            match playlist_id {
                Some(p) => QueueSource::Playlist(p),
                None => match track.album_id {
                    Some(a) => QueueSource::Album(a),
                    None => QueueSource::SingleTrack,
                },
            }
        },
{
    if has_listing_tracks {
        QueueSource::ListingTracks
    } else {
        match playlist_id {
            Some(p) => QueueSource::Playlist(p),
            None => match track.album_id {
                Some(a) => QueueSource::Album(a),
                None => QueueSource::SingleTrack,
            },
        }
    }
}

/// The platform the application was built for, where what it shows or runs differs.
#[derive(Clone, Copy, Debug, PartialEq, Eq, Structural)]
pub enum TargetOs {
    MacOs,
    Windows,
    Other,
}

/// The label of the context-menu entry that shows a track's file in the platform's file
/// manager.
pub fn track_show_in_file_manager_label(os: TargetOs) -> (r: &'static str)
    ensures
        r == match os {
            TargetOs::MacOs => "Show in Finder",
            TargetOs::Windows => "Show in File Explorer",
            TargetOs::Other => "Show in File Manager",
        },
{
    match os {
        TargetOs::MacOs => "Show in Finder",
        TargetOs::Windows => "Show in File Explorer",
        TargetOs::Other => "Show in File Manager",
    }
}

/// The parent directory of a path, as `std::path::Path::parent` gives it for the target's path
/// syntax.
pub uninterp spec fn path_parent_spec(path: Seq<char>) -> Option<Seq<char>>;

/// `Path::parent` of `path`, written out as a string; `None` for a path that ends in a root or
/// prefix, or is empty.
#[verifier::external_body]
fn path_parent(path: &str) -> (r: Option<String>)
    ensures
        r is None <==> path_parent_spec(path@) is None,
        r matches Some(p) ==> path_parent_spec(path@) == Some(p@),
{
    Path::new(path).parent().map(|p| p.to_string_lossy().into_owned())
}

/// A program to start, with its arguments.
#[derive(Clone, Debug)]
pub struct SpawnCommand {
    pub program: &'static str,
    pub args: Vec<String>,
}

/// The command that shows `path` in the file manager: Finder selects it, File Explorer
/// selects it, elsewhere the folder that holds it is opened (nothing where it has none).
pub open spec fn reveal_command_spec(path: Seq<char>, os: TargetOs) -> Option<
    (&'static str, Seq<Seq<char>>),
> {
    match os {
        TargetOs::MacOs => Some(("open", seq!["-R"@, path])),
        TargetOs::Windows => Some(("explorer", seq!["/select,"@, path])),
        TargetOs::Other => match path_parent_spec(path) {
            Some(parent) => Some(("xdg-open", seq![parent])),
            None => None,
        },
    }
}

/// The command's program and the text of each argument.
pub open spec fn command_view(c: SpawnCommand) -> (&'static str, Seq<Seq<char>>) {
    (c.program, c.args@.map_values(|a: String| a@))
}

/// The command that shows `path` in the file manager of the platform.
pub fn reveal_command(path: &str, os: TargetOs) -> (r: Option<SpawnCommand>)
    ensures
        match reveal_command_spec(path@, os) {
            Some(c) => r matches Some(cmd) && command_view(cmd) == c,
            None => r is None,
        },
{
    let mut p = String::new();
    crate::text::push_str(&mut p, path);
    match os {
        TargetOs::MacOs => {
            let mut flag = String::new();
            crate::text::push_str(&mut flag, "-R");
            let args = vec![flag, p];
            let r = SpawnCommand { program: "open", args };
            assert(command_view(r).1 =~= seq!["-R"@, path@]);
            Some(r)
        },
        TargetOs::Windows => {
            let mut flag = String::new();
            crate::text::push_str(&mut flag, "/select,");
            let args = vec![flag, p];
            let r = SpawnCommand { program: "explorer", args };
            assert(command_view(r).1 =~= seq!["/select,"@, path@]);
            Some(r)
        },
        TargetOs::Other => match path_parent(path) {
            Some(parent) => {
                let args = vec![parent];
                let r = SpawnCommand { program: "xdg-open", args };
                assert(command_view(r).1 =~= seq![path_parent_spec(path@)->0]);
                Some(r)
            },
            None => None,
        },
    }
}

/// What showing `path` in the file manager runs, given whether the file is there: nothing
/// where it is not, else the platform's command for it.
pub open spec fn reveal_path_spec(exists: bool, path: Seq<char>, os: TargetOs) -> Option<
    (&'static str, Seq<Seq<char>>),
> {
    if exists {
        reveal_command_spec(path, os)
    } else {
        None
    }
}

/// Whether `r` is the command `c` describes (none for none).
pub open spec fn runs(r: Option<SpawnCommand>, c: Option<(&'static str, Seq<Seq<char>>)>) -> bool {
    match c {
        Some(v) => r matches Some(cmd) && command_view(cmd) == v,
        None => r is None,
    }
}

/// The command that shows `path` in the file manager, given whether the file is there.
pub fn reveal_path_command(exists: bool, path: &str, os: TargetOs) -> (r: Option<SpawnCommand>)
    ensures
        runs(r, reveal_path_spec(exists, path@, os)),
{
    if !exists {
        return None;
    }
    reveal_command(path, os)
}

/// The command that shows `path` in the file manager; none where the file is not there.
/// Whether it is there is asked of the file system at the time of the call, so the contract
/// says what is returned for either answer.
pub fn reveal_path_in_file_manager(path: &str, os: TargetOs) -> (r: Option<SpawnCommand>)
    ensures
        runs(r, reveal_path_spec(true, path@, os)) || runs(r, reveal_path_spec(false, path@, os)),
{
    let exists = is_track_path_available(path);
    reveal_path_command(exists, path, os)
}

/// The command that shows a track's file in the file manager: exactly what showing the track's
/// location does.
pub fn reveal_track_in_file_manager(track: &Track, os: TargetOs) -> (r: Option<SpawnCommand>)
    ensures
        runs(r, reveal_path_spec(true, track.location@, os)) || runs(
            r,
            reveal_path_spec(false, track.location@, os),
        ),
{
    reveal_path_in_file_manager(track.location.as_str(), os)
}

} // verus!
