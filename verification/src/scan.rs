use vstd::prelude::*;

verus! {

/// What the library scanner reports.
#[derive(Clone, Debug, PartialEq, Eq)]
pub enum ScanEvent {
    ScanCompleteIdle,
    ScanProgress { current: u64, total: u64 },
    Cleaning,
    ScanCompleteWatching,
    WaitingForMissingFolderDecision { paths: Vec<String> },
}

/// Whether a table re-reads its rows on a scan report: when a scan completes, and every
/// hundredth file of a scan in progress.
pub fn should_refresh_rows(event: &ScanEvent) -> (r: bool)
    ensures
        r == match *event {
            ScanEvent::ScanCompleteIdle => true,
            ScanEvent::ScanProgress { current, .. } => current % 100 == 0,
            _ => false,
        },
{
    match event {
        ScanEvent::ScanCompleteIdle => true,
        ScanEvent::ScanProgress { current, .. } => *current % 100 == 0,
        _ => false,
    }
}

/// Whether the search entries are reloaded on a scan report: when a scan completes.
pub fn should_reload_search(event: &ScanEvent) -> (r: bool)
    ensures
        r == (*event is ScanCompleteIdle || *event is ScanCompleteWatching),
{
    match event {
        ScanEvent::ScanCompleteIdle | ScanEvent::ScanCompleteWatching => true,
        _ => false,
    }
}

/// What the scan status in the header says.
#[derive(Clone, Copy, Debug, PartialEq, Eq, Structural)]
pub enum ScanStatusText {
    /// Nothing.
    Empty,
    /// The number of files found so far, while the total is still unknown.
    Discovering { current: u64 },
    /// Progress through a known number of files.
    Scanning { current: u64, total: u64 },
    /// Watching the library for changes.
    Watching,
}

/// The total a scan reports while it does not yet know how many files there are.
pub const UNKNOWN_TOTAL: u64 = 0xffff_ffff_ffff_ffffu64;

pub open spec fn status_text_spec(event: ScanEvent) -> ScanStatusText {
    match event {
        ScanEvent::ScanProgress { current, total } => if total == UNKNOWN_TOTAL {
            ScanStatusText::Discovering { current }
        } else {
            ScanStatusText::Scanning { current, total }
        },
        ScanEvent::ScanCompleteWatching => ScanStatusText::Watching,
        _ => ScanStatusText::Empty,
    }
}

pub fn scan_status_text(event: &ScanEvent) -> (r: ScanStatusText)
    ensures
        r == status_text_spec(*event),
{
    match event {
        ScanEvent::ScanProgress { current, total } => if *total == UNKNOWN_TOTAL {
            ScanStatusText::Discovering { current: *current }
        } else {
            ScanStatusText::Scanning { current: *current, total: *total }
        },
        ScanEvent::ScanCompleteWatching => ScanStatusText::Watching,
        _ => ScanStatusText::Empty,
    }
}

/// Whether the scan status shows the finished icon (else the searching one).
pub fn scan_is_complete(event: &ScanEvent) -> (r: bool)
    ensures
        r == (*event is ScanCompleteIdle || *event is ScanCompleteWatching),
{
    match event {
        ScanEvent::ScanCompleteIdle | ScanEvent::ScanCompleteWatching => true,
        _ => false,
    }
}

/// The folders the missing-folder dialog lists: those of a scan waiting for a decision.
pub fn missing_folder_paths(event: &ScanEvent) -> (r: Vec<String>)
    ensures
        match *event {
            ScanEvent::WaitingForMissingFolderDecision { paths } => r@ == paths@,
            _ => r@.len() == 0,
        },
{
    match event {
        ScanEvent::WaitingForMissingFolderDecision { paths } => {
            let mut r: Vec<String> = Vec::new();
            let mut i: usize = 0;
            while i < paths.len()
                invariant
                    0 <= i <= paths@.len(),
                    r@ == paths@.take(i as int),
                decreases paths@.len() - i,
            {
                r.push(paths[i].clone());
                assert(paths@.take(i + 1) == paths@.take(i as int).push(paths@[i as int]));
                i = i + 1;
            }
            assert(paths@.take(paths@.len() as int) == paths@);
            r
        },
        _ => Vec::new(),
    }
}

} // verus!
