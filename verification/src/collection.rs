use vstd::prelude::*;
use crate::availability::Track;
use crate::context_menus::{item_of, queue_item_for, QueueItemData};
use crate::playback::PlaybackState;
use crate::track_listing::{is_current_track, opt_view};

verus! {

/// Whether the playing track is one of `tracks`, going by the file.
pub open spec fn contains_current(current: Option<String>, tracks: Seq<Track>) -> bool {
    exists|i: int| 0 <= i < tracks.len() && opt_view(current) == Some(#[trigger] tracks[i].location@)
}

/// Whether the playing track is one of `tracks`.
pub fn tracks_contain_current(current: &Option<String>, tracks: &Vec<Track>) -> (r: bool)
    ensures
        r == contains_current(*current, tracks@),
{
    let mut i: usize = 0;
    while i < tracks.len()
        invariant
            i <= tracks@.len(),
            forall|j: int| 0 <= j < i ==> opt_view(*current) != Some(#[trigger] tracks@[j].location@),
        decreases tracks.len() - i,
    {
        if is_current_track(current, &tracks[i]) {
            return true;
        }
        i = i + 1;
    }
    false
}

/// The queue entries of all of `tracks`, in order.
pub fn all_queue_items(tracks: &Vec<Track>) -> (r: Vec<QueueItemData>)
    ensures
        r@ == tracks@.map_values(|t: Track| item_of(t)),
{
    let mut r: Vec<QueueItemData> = Vec::new();
    let mut i: usize = 0;
    while i < tracks.len()
        invariant
            i <= tracks@.len(),
            r@ == tracks@.take(i as int).map_values(|t: Track| item_of(t)),
        decreases tracks.len() - i,
    {
        r.push(queue_item_for(&tracks[i]));
        proof {
            assert(tracks@.take(i + 1).map_values(|t: Track| item_of(t)) =~= tracks@.take(
                i as int,
            ).map_values(|t: Track| item_of(t)).push(item_of(tracks@[i as int])));
        }
        i = i + 1;
    }
    proof {
        assert(tracks@.take(i as int) =~= tracks@);
    }
    r
}

/// Whether the Play, add and Shuffle buttons are shown above a list of tracks: only when it has
/// tracks.
pub fn shows_collection_buttons(tracks: &Vec<Track>) -> (r: bool)
    ensures
        r == (tracks@.len() > 0),
{
    tracks.len() > 0
}

/// The buttons above a list of tracks (an artist's, their liked tracks, a playlist).
#[derive(Clone, Copy, Debug, PartialEq, Eq, Structural)]
pub enum CollectionButton {
    Play,
    AddToQueue,
    Shuffle,
}

/// What pressing one of them does.
#[derive(Debug)]
pub enum CollectionCommand {
    /// Pause or resume, as the play/pause key does.
    PlayPause,
    /// Replace the queue with these entries and play them, turning shuffling on first where
    /// `turn_on_shuffle` is set.
    ReplaceQueue { items: Vec<QueueItemData>, turn_on_shuffle: bool },
    /// Append these entries to the queue.
    AppendToQueue(Vec<QueueItemData>),
}

/// What pressing `button` above an artist's tracks, or their liked tracks, does: Play pauses or
/// resumes when the playing track is one of them and plays them all otherwise; the add button
/// queues them all; Shuffle plays them all with shuffling on.
pub fn collection_command(
    button: CollectionButton,
    tracks: &Vec<Track>,
    current: &Option<String>,
    shuffling: bool,
) -> (r: CollectionCommand)
    ensures
        match button {
            CollectionButton::Play => if contains_current(*current, tracks@) {
                r is PlayPause
            } else {
                r matches CollectionCommand::ReplaceQueue { items, turn_on_shuffle } && items@
                    == tracks@.map_values(|t: Track| item_of(t)) && !turn_on_shuffle
            },
            CollectionButton::AddToQueue => r matches CollectionCommand::AppendToQueue(items)
                && items@ == tracks@.map_values(|t: Track| item_of(t)),
            CollectionButton::Shuffle => r matches CollectionCommand::ReplaceQueue {
                items,
                turn_on_shuffle,
            } && items@ == tracks@.map_values(|t: Track| item_of(t)) && turn_on_shuffle
                == !shuffling,
        },
{
    match button {
        CollectionButton::Play => {
            if tracks_contain_current(current, tracks) {
                CollectionCommand::PlayPause
            } else {
                CollectionCommand::ReplaceQueue {
                    items: all_queue_items(tracks),
                    turn_on_shuffle: false,
                }
            }
        },
        CollectionButton::AddToQueue => CollectionCommand::AppendToQueue(all_queue_items(tracks)),
        CollectionButton::Shuffle => CollectionCommand::ReplaceQueue {
            items: all_queue_items(tracks),
            turn_on_shuffle: !shuffling,
        },
    }
}

/// Whether the Play button shows Pause: while one of the tracks is playing.
pub fn play_button_shows_pause(
    tracks: &Vec<Track>,
    current: &Option<String>,
    state: PlaybackState,
) -> (r: bool)
    ensures
        r == (contains_current(*current, tracks@) && state is Playing),
{
    tracks_contain_current(current, tracks) && match state {
        PlaybackState::Playing => true,
        _ => false,
    }
}

/// The queue entries of a playlist: its entries (entry id, track id, album id) paired in order
/// with the tracks' files, as far as both lists go.
pub open spec fn playlist_entries_spec(entries: Seq<(i64, i64, i64)>, paths: Seq<String>) -> Seq<
    QueueItemData,
> {
    let n = if entries.len() < paths.len() {
        entries.len()
    } else {
        paths.len()
    };
    Seq::new(
        n,
        |k: int|
            QueueItemData {
                path: paths[k],
                track_id: Some(entries[k].1),
                album_id: Some(entries[k].2),
            },
    )
}

/// The queue entries of a playlist, every one of them.
pub fn playlist_entries_queue(entries: &Vec<(i64, i64, i64)>, paths: &Vec<String>) -> (r: Vec<
    QueueItemData,
>)
    ensures
        r@ == playlist_entries_spec(entries@, paths@),
{
    let n: usize = if entries.len() < paths.len() {
        entries.len()
    } else {
        paths.len()
    };
    let mut r: Vec<QueueItemData> = Vec::new();
    let mut i: usize = 0;
    while i < n
        invariant
            n <= entries@.len(),
            n <= paths@.len(),
            n == playlist_entries_spec(entries@, paths@).len(),
            i <= n,
            r@ == playlist_entries_spec(entries@, paths@).take(i as int),
        decreases n - i,
    {
        let (_, track_id, album_id) = entries[i];
        r.push(QueueItemData::new(paths[i].clone(), Some(track_id), Some(album_id)));
        proof {
            assert(r@ =~= playlist_entries_spec(entries@, paths@).take(i + 1));
        }
        i = i + 1;
    }
    proof {
        assert(r@ =~= playlist_entries_spec(entries@, paths@));
    }
    r
}

/// What pressing `button` above a playlist does: Play always plays the whole playlist from the
/// start, the add button queues it, Shuffle plays it with shuffling on.
pub fn playlist_command(
    button: CollectionButton,
    entries: &Vec<(i64, i64, i64)>,
    paths: &Vec<String>,
    shuffling: bool,
) -> (r: CollectionCommand)
    ensures
        match button {
            CollectionButton::Play => r matches CollectionCommand::ReplaceQueue {
                items,
                turn_on_shuffle,
            } && items@ == playlist_entries_spec(entries@, paths@) && !turn_on_shuffle,
            CollectionButton::AddToQueue => r matches CollectionCommand::AppendToQueue(items)
                && items@ == playlist_entries_spec(entries@, paths@),
            CollectionButton::Shuffle => r matches CollectionCommand::ReplaceQueue {
                items,
                turn_on_shuffle,
            } && items@ == playlist_entries_spec(entries@, paths@) && turn_on_shuffle
                == !shuffling,
        },
{
    let items = playlist_entries_queue(entries, paths);
    match button {
        CollectionButton::Play => CollectionCommand::ReplaceQueue { items, turn_on_shuffle: false },
        CollectionButton::AddToQueue => CollectionCommand::AppendToQueue(items),
        CollectionButton::Shuffle => CollectionCommand::ReplaceQueue {
            items,
            turn_on_shuffle: !shuffling,
        },
    }
}

} // verus!
