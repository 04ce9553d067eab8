use vstd::prelude::*;
use crate::context_menus::{first_with_path, QueueItemData};
use crate::models::{LastFMState, Session};

verus! {

/// The queue entries for the files named on the command line, in order; `None` where none was
/// named.
pub fn argument_queue_items(files: Option<Vec<String>>) -> (r: Option<Vec<QueueItemData>>)
    ensures
        match files {
            None => r is None,
            Some(f) => r matches Some(items) && items@.len() == f@.len() && forall|i: int|
                0 <= i < f@.len() ==> #[trigger] items@[i] == (QueueItemData {
                    path: f@[i],
                    track_id: None,
                    album_id: None,
                }),
        },
{
    match files {
        None => None,
        Some(files) => {
            let mut items: Vec<QueueItemData> = Vec::new();
            let mut i: usize = 0;
            while i < files.len()
                invariant
                    i <= files@.len(),
                    items@.len() == i,
                    forall|k: int|
                        0 <= k < i ==> #[trigger] items@[k] == (QueueItemData {
                            path: files@[k],
                            track_id: None,
                            album_id: None,
                        }),
                decreases files.len() - i,
            {
                items.push(QueueItemData::new(files[i].clone(), None, None));
                i = i + 1;
            }
            Some(items)
        },
    }
}

/// The qualifier, organisation and application name that the data directories were first kept
/// under.
pub const LEGACY_PROJECT: (&'static str, &'static str, &'static str) = (
    "me",
    "william341",
    "muzak",
);

/// The qualifier, organisation and application name that the data directories are kept under.
pub const CURRENT_PROJECT: (&'static str, &'static str, &'static str) = (
    "org",
    "mailliw",
    "hummingbird",
);

/// Which project's directories to use: the earlier ones while their data directory is still
/// there, else the current ones.
pub fn project_dirs_id(legacy_data_dir_exists: bool) -> (r: (
    &'static str,
    &'static str,
    &'static str,
))
    ensures
        r == (if legacy_data_dir_exists {
            LEGACY_PROJECT
        } else {
            CURRENT_PROJECT
        }),
{
    if legacy_data_dir_exists {
        LEGACY_PROJECT
    } else {
        CURRENT_PROJECT
    }
}

/// Whether `s` ends with `suffix`.
pub open spec fn ends_with(s: Seq<char>, suffix: Seq<char>) -> bool {
    suffix.len() <= s.len() && s.subrange(s.len() - suffix.len(), s.len() as int) == suffix
}

fn str_ends_with(s: &str, suffix: &str) -> (r: bool)
    ensures
        r == ends_with(s@, suffix@),
{
    let n = vstd::string::StrSliceExecFns::unicode_len(s);
    let m = vstd::string::StrSliceExecFns::unicode_len(suffix);
    if m > n {
        return false;
    }
    let mut i: usize = 0;
    while i < m
        invariant
            n == s@.len(),
            m == suffix@.len(),
            m <= n,
            i <= m,
            forall|j: int| 0 <= j < i ==> s@[n - m + j] == suffix@[j],
        decreases m - i,
    {
        let a = vstd::string::StrSliceExecFns::get_char(s, n - m + i);
        let b = vstd::string::StrSliceExecFns::get_char(suffix, i);
        if a != b {
            assert(s@.subrange(n - m, n as int)[i as int] != suffix@[i as int]);
            return false;
        }
        i = i + 1;
    }
    assert(s@.subrange(n - m, n as int) =~= suffix@);
    true
}

/// Whether a bundled asset is a font to load: a TrueType or OpenType file.
pub fn is_font_asset(path: &str) -> (r: bool)
    ensures
        r == (ends_with(path@, ".ttf"@) || ends_with(path@, ".otf"@)),
{
    str_ends_with(path, ".ttf") || str_ends_with(path, ".otf")
}

/// The Last.fm state at start-up: signed in with the stored session where one could be read,
/// signed out otherwise.
pub fn stored_lastfm_state(stored: Option<Session>) -> (r: LastFMState)
    ensures
        match stored {
            Some(s) => r == LastFMState::Connected(s),
            None => r is Disconnected,
        },
{
    match stored {
        Some(session) => LastFMState::Connected(session),
        None => LastFMState::Disconnected,
    }
}

/// Where the restored queue starts: at the first entry that plays the track that was playing
/// when the application last quit, if there is one.
pub fn initial_queue_position(queue: &Vec<QueueItemData>, saved_track: &Option<String>) -> (r:
    Option<usize>)
    ensures
        match *saved_track {
            Some(p) => match first_with_path(queue@, p@, 0) {
                Some(i) => r matches Some(j) && j == i,
                None => r is None,
            },
            None => r is None,
        },
{
    match saved_track {
        None => None,
        Some(path) => {
            let mut i: usize = 0;
            while i < queue.len()
                invariant
                    0 <= i <= queue@.len(),
                    *saved_track == Some(*path),
                    first_with_path(queue@, path@, 0) == first_with_path(queue@, path@, i as int),
                decreases queue@.len() - i,
            {
                if queue[i].path == *path {
                    return Some(i);
                }
                i = i + 1;
            }
            None
        },
    }
}

/// The queue position the models start with: the restored one, else the first entry.
pub fn queue_start_position(initial: Option<usize>) -> (r: usize)
    ensures
        r == match initial {
            Some(p) => p,
            None => 0,
        },
{
    match initial {
        Some(p) => p,
        None => 0,
    }
}

/// What playback does at start-up, paused either way.
#[derive(Clone, Debug)]
pub enum StartupPlayback {
    /// Go to this entry of the queue.
    Jump(usize),
    /// Open this file, which is not in the queue.
    Open(String),
    /// Nothing to restore.
    Nothing,
}

/// What playback does at start-up when no files were named on the command line: go back to
/// the track that was playing in the restored queue, else open that track, else go to the
/// queue's first entry; when files were named, nothing.
pub fn startup_playback(
    files_named: bool,
    initial: Option<usize>,
    saved_track: &Option<String>,
    queue_len: usize,
) -> (r: StartupPlayback)
    ensures
        files_named ==> r is Nothing,
        !files_named ==> match initial {
            Some(p) => r matches StartupPlayback::Jump(q) && q == p,
            None => match *saved_track {
                Some(t) => r matches StartupPlayback::Open(o) && o@ == t@,
                None => if queue_len > 0 {
                    r matches StartupPlayback::Jump(q) && q == 0
                } else {
                    r is Nothing
                },
            },
        },
{
    if files_named {
        return StartupPlayback::Nothing;
    }
    match initial {
        Some(p) => StartupPlayback::Jump(p),
        None => match saved_track {
            Some(t) => StartupPlayback::Open(t.clone()),
            None => if queue_len > 0 {
                StartupPlayback::Jump(0)
            } else {
                StartupPlayback::Nothing
            },
        },
    }
}

} // verus!
