use vstd::prelude::*;

verus! {

/// A request to switch what the library pane shows.
#[derive(Clone, Copy, Debug, PartialEq, Eq, Structural)]
pub enum ViewSwitchMessage {
    Albums,
    Tracks,
    Artists,
    Release(i64),
    Artist(i64),
    Playlist(i64),
    Back,
    Forward,
    Refresh,
}

/// The cursor after moving back: one entry earlier, unless it is at the first entry.
pub open spec fn back_step(pos: int) -> int {
    if pos > 0 {
        pos - 1
    } else {
        pos
    }
}

/// The cursor after moving forward through a history of `len` entries.
pub open spec fn forward_step(len: int, pos: int) -> int {
    if pos < len - 1 {
        pos + 1
    } else {
        pos
    }
}

/// The kind of view that the library pane can hold.
#[derive(Clone, Copy, Debug, PartialEq, Eq, Structural)]
pub enum LibraryViewKind {
    Album,
    Tracks,
    Release,
    Playlist,
    Artists,
    ArtistDetail,
}

impl ViewSwitchMessage {
    pub open spec fn detail_page(self) -> bool {
        self is Release || self is Artist
    }

    pub open spec fn key_page(self) -> bool {
        !self.detail_page() && !(self is Back || self is Forward || self is Refresh)
    }

    /// Messages that name a view (as opposed to a movement through history).
    pub open spec fn names_view(self) -> bool {
        !(self is Back || self is Forward || self is Refresh)
    }

    pub fn is_detail_page(&self) -> (r: bool)
        ensures
            r == self.detail_page(),
    {
        match self {
            ViewSwitchMessage::Release(_) | ViewSwitchMessage::Artist(_) => true,
            _ => false,
        }
    }

    pub fn is_key_page(&self) -> (r: bool)
        ensures
            r == self.key_page(),
    {
        !self.is_detail_page() && match self {
            ViewSwitchMessage::Back | ViewSwitchMessage::Forward | ViewSwitchMessage::Refresh => {
                false
            },
            _ => true,
        }
    }

    pub open spec fn matches_view_spec(self, lv: LibraryViewKind) -> bool {
        ||| (lv is Album && self is Albums)
        ||| (lv is Tracks && self is Tracks)
        ||| (lv is Artists && self is Artists)
    }

    /// Whether a view of kind `lv` that is already built can be reused for this message.
    /// Detail views are never reused, since their id is not kept with the kind.
    pub fn library_view_matches(&self, lv: LibraryViewKind) -> (r: bool)
        ensures
            r == self.matches_view_spec(lv),
    {
        match (lv, self) {
            (LibraryViewKind::Album, ViewSwitchMessage::Albums) => true,
            (LibraryViewKind::Tracks, ViewSwitchMessage::Tracks) => true,
            (LibraryViewKind::Artists, ViewSwitchMessage::Artists) => true,
            _ => false,
        }
    }

    pub open spec fn view_kind_spec(self) -> LibraryViewKind {
        match self {
            ViewSwitchMessage::Albums => LibraryViewKind::Album,
            ViewSwitchMessage::Tracks => LibraryViewKind::Tracks,
            ViewSwitchMessage::Artists => LibraryViewKind::Artists,
            ViewSwitchMessage::Release(_) => LibraryViewKind::Release,
            ViewSwitchMessage::Artist(_) => LibraryViewKind::ArtistDetail,
            _ => LibraryViewKind::Playlist,
        }
    }

    /// The kind of view that is built for a message naming a view.
    pub fn view_kind(&self) -> (r: LibraryViewKind)
        requires
            self.names_view(),
        ensures
            r == self.view_kind_spec(),
    {
        match self {
            ViewSwitchMessage::Albums => LibraryViewKind::Album,
            ViewSwitchMessage::Tracks => LibraryViewKind::Tracks,
            ViewSwitchMessage::Artists => LibraryViewKind::Artists,
            ViewSwitchMessage::Release(_) => LibraryViewKind::Release,
            ViewSwitchMessage::Artist(_) => LibraryViewKind::ArtistDetail,
            _ => LibraryViewKind::Playlist,
        }
    }
}

/// The most entries the history keeps.
pub const HISTORY_CAPACITY: usize = 100;

/// The navigation history, and a cursor at the entry that is shown.
#[derive(Debug)]
pub struct NavigationHistory {
    history: Vec<ViewSwitchMessage>,
    cursor: usize,
}

/// History after navigating to `m` from `entries` shown at `pos`: the entries after the cursor
/// are dropped, the oldest entry is evicted when the history is full, and `m` is appended.
pub open spec fn navigated(entries: Seq<ViewSwitchMessage>, pos: int, m: ViewSwitchMessage) -> Seq<
    ViewSwitchMessage,
> {
    let kept = entries.take(pos + 1);
    let trimmed = if kept.len() >= HISTORY_CAPACITY {
        kept.skip(1)
    } else {
        kept
    };
    trimmed.push(m)
}

/// The entries kept by a filter whose answer for `entries[i]` is `keep[i]`.
pub open spec fn kept_entries(entries: Seq<ViewSwitchMessage>, keep: Seq<bool>) -> Seq<
    ViewSwitchMessage,
>
    decreases entries.len(),
{
    if entries.len() == 0 || keep.len() == 0 {
        Seq::empty()
    } else {
        let rest = kept_entries(entries.drop_last(), keep.drop_last());
        if keep.last() {
            rest.push(entries.last())
        } else {
            rest
        }
    }
}

/// The number of `false` answers among the first `n`.
pub open spec fn count_removed(keep: Seq<bool>, n: int) -> nat
    decreases n,
{
    if n <= 0 || keep.len() == 0 {
        0
    } else if n > keep.len() {
        count_removed(keep, keep.len() as int)
    } else {
        count_removed(keep, n - 1) + if keep[n - 1] {
            0nat
        } else {
            1nat
        }
    }
}

/// History after keeping the entries for which `keep` holds: when nothing survives the
/// history falls back to the album list; otherwise the cursor moves back by the number of
/// removed entries at or before it, and stays inside the history.
pub open spec fn retained(entries: Seq<ViewSwitchMessage>, pos: int, keep: Seq<bool>) -> (
    Seq<ViewSwitchMessage>,
    int,
) {
    let survivors = kept_entries(entries, keep);
    if survivors.len() == 0 {
        (seq![ViewSwitchMessage::Albums], 0)
    } else {
        let removed = count_removed(keep, pos + 1);
        let backed = if pos - removed < 0 {
            0
        } else {
            pos - removed
        };
        let p = if backed < survivors.len() - 1 {
            backed
        } else {
            survivors.len() - 1
        };
        (survivors, p)
    }
}

impl NavigationHistory {
    pub closed spec fn entries(&self) -> Seq<ViewSwitchMessage> {
        self.history@
    }

    pub closed spec fn position(&self) -> int {
        self.cursor as int
    }

    pub open spec fn wf(&self) -> bool {
        &&& 1 <= self.entries().len() <= HISTORY_CAPACITY
        &&& 0 <= self.position() < self.entries().len()
    }

    pub open spec fn current_spec(&self) -> ViewSwitchMessage {
        self.entries()[self.position()]
    }

    pub fn new() -> (r: Self)
        ensures
            r.wf(),
            r.entries() == seq![ViewSwitchMessage::Albums],
            r.position() == 0,
    {
        let mut history: Vec<ViewSwitchMessage> = Vec::new();
        history.push(ViewSwitchMessage::Albums);
        assert(history@ == seq![ViewSwitchMessage::Albums]);
        Self { history, cursor: 0 }
    }

    pub fn current(&self) -> (r: ViewSwitchMessage)
        requires
            self.wf(),
        ensures
            r == self.current_spec(),
    {
        self.history[self.cursor]
    }

    pub fn can_go_back(&self) -> (r: bool)
        requires
            self.wf(),
        ensures
            r == (self.position() > 0),
    {
        self.cursor > 0
    }

    pub fn can_go_forward(&self) -> (r: bool)
        requires
            self.wf(),
        ensures
            r == (self.position() < self.entries().len() - 1),
    {
        self.cursor < self.history.len() - 1
    }

    pub fn go_back(&mut self) -> (r: Option<ViewSwitchMessage>)
        requires
            old(self).wf(),
        ensures
            final(self).wf(),
            final(self).entries() == old(self).entries(),
            final(self).position() == back_step(old(self).position()),
            r == old(self).back_spec(),
    {
        if self.can_go_back() {
            self.cursor = self.cursor - 1;
            Some(self.current())
        } else {
            None
        }
    }

    pub fn go_forward(&mut self) -> (r: Option<ViewSwitchMessage>)
        requires
            old(self).wf(),
        ensures
            final(self).wf(),
            final(self).entries() == old(self).entries(),
            final(self).position() == forward_step(
                old(self).entries().len() as int,
                old(self).position(),
            ),
            r == old(self).forward_spec(),
    {
        if self.can_go_forward() {
            self.cursor = self.cursor + 1;
            Some(self.current())
        } else {
            None
        }
    }

    /// Navigates to a new view. All history entries after the cursor are discarded, then the
    /// new view is appended and the cursor advances to it. The history holds at most
    /// `HISTORY_CAPACITY` entries: the oldest is evicted to make room.
    pub fn navigate(&mut self, message: ViewSwitchMessage)
        requires
            old(self).wf(),
        ensures
            final(self).wf(),
            final(self).entries() == navigated(old(self).entries(), old(self).position(), message),
            final(self).position() == final(self).entries().len() - 1,
    {
        let ghost pos = self.cursor as int;
        let ghost old_entries = self.history@;
        self.history.truncate(self.cursor + 1);
        assert(self.history@ == old_entries.take(pos + 1));
        if self.history.len() >= HISTORY_CAPACITY {
            self.history.remove(0);
            self.cursor = if self.cursor > 0 {
                self.cursor - 1
            } else {
                0
            };
            assert(self.history@ == old_entries.take(pos + 1).skip(1));
        }
        self.history.push(message);
        self.cursor = self.history.len() - 1;
    }

    /// Finds the most recent history entry before the cursor for which `pred` holds.
    pub fn last_matching<F: Fn(&ViewSwitchMessage) -> bool>(&self, pred: F) -> (r: Option<
        ViewSwitchMessage,
    >)
        requires
            self.wf(),
            forall|m: ViewSwitchMessage| pred.requires((&m,)),
        ensures
            match r {
                Some(m) => exists|i: int|
                    0 <= i < self.position() && self.entries()[i] == m && pred.ensures(
                        (&self.entries()[i],),
                        true,
                    ) && forall|j: int|
                        i < j < self.position() ==> pred.ensures(
                            (&#[trigger] self.entries()[j],),
                            false,
                        ),
                None => forall|j: int|
                    0 <= j < self.position() ==> pred.ensures(
                        (&#[trigger] self.entries()[j],),
                        false,
                    ),
            },
    {
        let mut i: usize = self.cursor;
        while i > 0
            invariant
                self.wf(),
                0 <= i <= self.position(),
                forall|m: ViewSwitchMessage| pred.requires((&m,)),
                forall|j: int|
                    i <= j < self.position() ==> pred.ensures(
                        (&#[trigger] self.entries()[j],),
                        false,
                    ),
            decreases i,
        {
            let m = self.history[i - 1];
            if pred(&m) {
                return Some(m);
            }
            i = i - 1;
        }
        None
    }

    /// The most recent key page before the cursor.
    fn last_key_page(&self) -> (r: Option<ViewSwitchMessage>)
        requires
            self.wf(),
        ensures
            r == last_match(self.entries(), self.position(), is_key_page_fn()),
    {
        let pred = |m: &ViewSwitchMessage| -> (b: bool)
            ensures
                b == m.key_page(),
            { m.is_key_page() };
        let r = self.last_matching(pred);
        proof {
            let e = self.entries();
            let p = self.position();
            match r {
                Some(m) => {
                    let i = choose|i: int|
                        0 <= i < p && e[i] == m && pred.ensures((&e[i],), true) && forall|j: int|
                            i < j < p ==> pred.ensures((&#[trigger] e[j],), false);
                    assert forall|j: int| i < j < p implies !is_key_page_fn()(#[trigger] e[j]) by {
                        assert(pred.ensures((&e[j],), false));
                    }
                    lemma_last_match_from_answers(e, p, is_key_page_fn(), Some(i));
                },
                None => {
                    assert forall|j: int| 0 <= j < p implies !is_key_page_fn()(#[trigger] e[j]) by {
                        assert(pred.ensures((&e[j],), false));
                    }
                    lemma_last_match_from_answers(e, p, is_key_page_fn(), None);
                },
            }
        }
        r
    }

    /// The most recent artist page or key page before the cursor.
    fn last_artist_or_key_page(&self) -> (r: Option<ViewSwitchMessage>)
        requires
            self.wf(),
        ensures
            r == last_match(self.entries(), self.position(), is_artist_or_key_page_fn()),
    {
        let pred = |m: &ViewSwitchMessage| -> (b: bool)
            ensures
                b == (*m is Artist || m.key_page()),
            {
                match m {
                    ViewSwitchMessage::Artist(_) => true,
                    _ => m.is_key_page(),
                }
            };
        let r = self.last_matching(pred);
        proof {
            let e = self.entries();
            let p = self.position();
            let f = is_artist_or_key_page_fn();
            match r {
                Some(m) => {
                    let i = choose|i: int|
                        0 <= i < p && e[i] == m && pred.ensures((&e[i],), true) && forall|j: int|
                            i < j < p ==> pred.ensures((&#[trigger] e[j],), false);
                    assert forall|j: int| i < j < p implies !f(#[trigger] e[j]) by {
                        assert(pred.ensures((&e[j],), false));
                    }
                    lemma_last_match_from_answers(e, p, f, Some(i));
                },
                None => {
                    assert forall|j: int| 0 <= j < p implies !f(#[trigger] e[j]) by {
                        assert(pred.ensures((&e[j],), false));
                    }
                    lemma_last_match_from_answers(e, p, f, None);
                },
            }
        }
        r
    }

    /// Removes history entries for which `f` does not hold, adjusting the cursor so that it
    /// keeps pointing at the same entry if it survives, or backs up to the nearest preceding
    /// survivor otherwise. The history never becomes empty (it falls back to `Albums`).
    pub fn retain<F: Fn(&ViewSwitchMessage) -> bool>(&mut self, f: F)
        requires
            old(self).wf(),
            forall|m: ViewSwitchMessage| f.requires((&m,)),
        ensures
            final(self).wf(),
            exists|keep: Seq<bool>|
                {
                    &&& keep.len() == old(self).entries().len()
                    &&& forall|j: int|
                        0 <= j < keep.len() ==> f.ensures(
                            (&#[trigger] old(self).entries()[j],),
                            keep[j],
                        )
                    &&& (final(self).entries(), final(self).position()) == retained(
                        old(self).entries(),
                        old(self).position(),
                        keep,
                    )
                },
    {
        let ghost old_entries = self.history@;
        let ghost pos = self.cursor as int;
        let mut kept: Vec<ViewSwitchMessage> = Vec::new();
        let mut removed: usize = 0;
        let ghost mut keep: Seq<bool> = Seq::empty();
        let mut i: usize = 0;
        while i < self.history.len()
            invariant
                self.history@ == old_entries,
                self.cursor == pos,
                1 <= old_entries.len() <= HISTORY_CAPACITY,
                0 <= pos < old_entries.len(),
                0 <= i <= old_entries.len(),
                keep.len() == i,
                forall|m: ViewSwitchMessage| f.requires((&m,)),
                forall|j: int| 0 <= j < i ==> f.ensures((&#[trigger] old_entries[j],), keep[j]),
                kept@ == kept_entries(old_entries.take(i as int), keep),
                removed == count_removed(keep, if i <= pos { i as int } else { pos + 1 }),
                removed <= i,
            decreases old_entries.len() - i,
        {
            let m = self.history[i];
            let b = f(&m);
            let ghost old_keep = keep;
            let ghost old_kept = kept@;
            proof {
                lemma_count_removed_prefix(keep, b, if i <= pos { i as int } else { pos + 1 });
                keep = keep.push(b);
                assert(old_entries.take(i + 1).drop_last() == old_entries.take(i as int));
                assert(keep.drop_last() == old_keep);
                assert(old_entries.take(i + 1).last() == m);
            }
            if b {
                kept.push(m);
            } else if i <= self.cursor {
                removed = removed + 1;
            }
            proof {
                assert(kept@ == kept_entries(old_entries.take(i + 1), keep));
            }
            i = i + 1;
        }
        proof {
            assert(old_entries.take(old_entries.len() as int) == old_entries);
            lemma_kept_entries_len(old_entries, keep);
        }
        if kept.len() == 0 {
            let mut fallback: Vec<ViewSwitchMessage> = Vec::new();
            fallback.push(ViewSwitchMessage::Albums);
            self.history = fallback;
            self.cursor = 0;
            assert(self.history@ == seq![ViewSwitchMessage::Albums]);
        } else {
            let backed: usize = if self.cursor >= removed {
                self.cursor - removed
            } else {
                0
            };
            let last: usize = kept.len() - 1;
            self.history = kept;
            self.cursor = if backed < last {
                backed
            } else {
                last
            };
        }
        proof {
            assert((self.history@, self.cursor as int) == retained(old_entries, pos, keep));
        }
    }

    pub open spec fn forward_spec(&self) -> Option<ViewSwitchMessage> {
        if self.position() < self.entries().len() - 1 {
            Some(self.entries()[self.position() + 1])
        } else {
            None
        }
    }

    pub open spec fn back_spec(&self) -> Option<ViewSwitchMessage> {
        if self.position() > 0 {
            Some(self.entries()[self.position() - 1])
        } else {
            None
        }
    }

    /// Applies a switch request to the history and names the view to build, if any:
    /// moving back or forward builds the entry moved to (nothing when there is none),
    /// refreshing rebuilds the shown entry, and any other message is navigated to.
    pub fn switch_destination(&mut self, message: ViewSwitchMessage) -> (r: Option<
        ViewSwitchMessage,
    >)
        requires
            old(self).wf(),
        ensures
            final(self).wf(),
            match message {
                ViewSwitchMessage::Back => {
                    &&& final(self).entries() == old(self).entries()
                    &&& r == old(self).back_spec()
                    &&& final(self).position() == if old(self).position() > 0 {
                        old(self).position() - 1
                    } else {
                        0
                    }
                },
                ViewSwitchMessage::Forward => {
                    &&& final(self).entries() == old(self).entries()
                    &&& if old(self).position() < old(self).entries().len() - 1 {
                        &&& final(self).position() == old(self).position() + 1
                        &&& r == Some(old(self).entries()[old(self).position() + 1])
                    } else {
                        &&& final(self).position() == old(self).position()
                        &&& r is None
                    }
                },
                ViewSwitchMessage::Refresh => {
                    &&& final(self).entries() == old(self).entries()
                    &&& final(self).position() == old(self).position()
                    &&& r == Some(old(self).current_spec())
                },
                _ => {
                    &&& final(self).entries() == navigated(
                        old(self).entries(),
                        old(self).position(),
                        message,
                    )
                    &&& final(self).position() == final(self).entries().len() - 1
                    &&& r == Some(message)
                },
            },
    {
        match message {
            ViewSwitchMessage::Back => self.go_back(),
            ViewSwitchMessage::Forward => self.go_forward(),
            ViewSwitchMessage::Refresh => Some(self.current()),
            _ => {
                self.navigate(message);
                Some(message)
            },
        }
    }

    /// Decides how the two library panes are filled once the history shows its current entry.
    /// `left_kind` is the kind of view the left pane holds.
    pub fn plan_panes(&self, two_column: bool, left_kind: Option<LibraryViewKind>) -> (r: PanePlan)
        requires
            self.wf(),
        ensures
            r == plan_spec(self.entries(), self.position(), two_column, left_kind),
    {
        if two_column {
            let current = self.current();
            if current.is_detail_page() {
                let left_msg = self.last_key_page();
                let needs_new_left = match (left_kind, left_msg) {
                    (None, Some(_)) => true,
                    (Some(_), None) => true,
                    (Some(lv), Some(m)) => !m.library_view_matches(lv),
                    (None, None) => false,
                };
                if needs_new_left {
                    match left_msg {
                        Some(m) => PanePlan { left: LeftPane::Build(m), right_shows_current: true },
                        None => PanePlan { left: LeftPane::Clear, right_shows_current: true },
                    }
                } else {
                    PanePlan { left: LeftPane::Keep, right_shows_current: true }
                }
            } else {
                PanePlan { left: LeftPane::ShowCurrent, right_shows_current: false }
            }
        } else {
            PanePlan { left: LeftPane::Clear, right_shows_current: false }
        }
    }

    /// The view the sidebar highlights.
    pub fn sidebar_view(&self, two_column: bool) -> (r: ViewSwitchMessage)
        requires
            self.wf(),
        ensures
            r == sidebar_view_spec(self.entries(), self.position(), two_column),
    {
        let current = self.current();
        if two_column && current.is_detail_page() {
            let left = match current {
                ViewSwitchMessage::Release(_) => self.last_artist_or_key_page(),
                _ => self.last_key_page(),
            };
            match left {
                Some(m) => m,
                None => current,
            }
        } else {
            current
        }
    }
}


/// The last entry before `pos` for which `pred` holds.
pub open spec fn last_match(
    entries: Seq<ViewSwitchMessage>,
    pos: int,
    pred: spec_fn(ViewSwitchMessage) -> bool,
) -> Option<ViewSwitchMessage>
    decreases pos,
{
    if pos <= 0 {
        None
    } else if pred(entries[pos - 1]) {
        Some(entries[pos - 1])
    } else {
        last_match(entries, pos - 1, pred)
    }
}

pub open spec fn is_key_page_fn() -> spec_fn(ViewSwitchMessage) -> bool {
    |m: ViewSwitchMessage| m.key_page()
}

pub open spec fn is_artist_or_key_page_fn() -> spec_fn(ViewSwitchMessage) -> bool {
    |m: ViewSwitchMessage| m is Artist || m.key_page()
}

/// What the left pane does after a switch.
#[derive(Clone, Copy, Debug, PartialEq, Eq, Structural)]
pub enum LeftPane {
    /// The pane keeps the view it already has.
    Keep,
    /// The pane is emptied.
    Clear,
    /// The pane shows the view that was just switched to.
    ShowCurrent,
    /// A new view is built for this message and shown in the pane.
    Build(ViewSwitchMessage),
}

/// How the two library panes are filled after a switch.
#[derive(Clone, Copy, Debug, PartialEq, Eq, Structural)]
pub struct PanePlan {
    pub left: LeftPane,
    /// Whether the right pane shows the view that was just switched to (else it is empty).
    pub right_shows_current: bool,
}

/// Whether the left pane must be rebuilt: it must when exactly one of the shown view and the
/// wanted message exists, or when both exist and the shown view cannot serve the message.
pub open spec fn needs_new_left_spec(
    left_kind: Option<LibraryViewKind>,
    left_msg: Option<ViewSwitchMessage>,
) -> bool {
    match (left_kind, left_msg) {
        (None, Some(_)) => true,
        (Some(_), None) => true,
        (Some(lv), Some(m)) => !m.matches_view_spec(lv),
        (None, None) => false,
    }
}

pub open spec fn plan_spec(
    entries: Seq<ViewSwitchMessage>,
    pos: int,
    two_column: bool,
    left_kind: Option<LibraryViewKind>,
) -> PanePlan {
    if !two_column {
        PanePlan { left: LeftPane::Clear, right_shows_current: false }
    } else if entries[pos].detail_page() {
        let left_msg = last_match(entries, pos, is_key_page_fn());
        if needs_new_left_spec(left_kind, left_msg) {
            match left_msg {
                Some(m) => PanePlan { left: LeftPane::Build(m), right_shows_current: true },
                None => PanePlan { left: LeftPane::Clear, right_shows_current: true },
            }
        } else {
            PanePlan { left: LeftPane::Keep, right_shows_current: true }
        }
    } else {
        PanePlan { left: LeftPane::ShowCurrent, right_shows_current: false }
    }
}

/// The view the sidebar highlights: in two-column mode a detail page is shown beside the key
/// page it was reached from (for a release, an artist page counts too), and the sidebar
/// follows that left pane.
pub open spec fn sidebar_view_spec(entries: Seq<ViewSwitchMessage>, pos: int, two_column: bool) -> ViewSwitchMessage {
    let current = entries[pos];
    if two_column && current.detail_page() {
        let left = if current is Release {
            last_match(entries, pos, is_artist_or_key_page_fn())
        } else {
            last_match(entries, pos, is_key_page_fn())
        };
        match left {
            Some(m) => m,
            None => current,
        }
    } else {
        current
    }
}

/// A result described by the answers of a predicate pins down `last_match`.
proof fn lemma_last_match_from_answers(
    entries: Seq<ViewSwitchMessage>,
    pos: int,
    pred: spec_fn(ViewSwitchMessage) -> bool,
    found: Option<int>,
)
    requires
        0 <= pos <= entries.len(),
        match found {
            Some(i) => 0 <= i < pos && pred(entries[i]) && forall|j: int|
                i < j < pos ==> !pred(#[trigger] entries[j]),
            None => forall|j: int| 0 <= j < pos ==> !pred(#[trigger] entries[j]),
        },
    ensures
        last_match(entries, pos, pred) == match found {
            Some(i) => Some(entries[i]),
            None => None::<ViewSwitchMessage>,
        },
    decreases pos,
{
    if pos > 0 {
        match found {
            Some(i) => {
                if i < pos - 1 {
                    assert(!pred(entries[pos - 1]));
                    lemma_last_match_from_answers(entries, pos - 1, pred, found);
                }
            },
            None => {
                assert(!pred(entries[pos - 1]));
                lemma_last_match_from_answers(entries, pos - 1, pred, found);
            },
        }
    }
}

proof fn lemma_kept_entries_len(entries: Seq<ViewSwitchMessage>, keep: Seq<bool>)
    requires
        entries.len() == keep.len(),
    ensures
        kept_entries(entries, keep).len() == entries.len() - count_removed(
            keep,
            keep.len() as int,
        ),
        count_removed(keep, keep.len() as int) <= keep.len(),
    decreases entries.len(),
{
    if entries.len() > 0 {
        lemma_kept_entries_len(entries.drop_last(), keep.drop_last());
        lemma_count_removed_prefix(keep.drop_last(), keep.last(), keep.len() - 1);
        assert(keep.drop_last().push(keep.last()) == keep);
    }
}

/// Counting over a prefix is not changed by an answer appended after it.
proof fn lemma_count_removed_prefix(keep: Seq<bool>, b: bool, n: int)
    requires
        0 <= n <= keep.len(),
    ensures
        count_removed(keep.push(b), n) == count_removed(keep, n),
    decreases n,
{
    if n > 0 {
        lemma_count_removed_prefix(keep, b, n - 1);
    }
}

proof fn lemma_count_removed_bound(keep: Seq<bool>, n: int)
    requires
        0 <= n <= keep.len(),
    ensures
        count_removed(keep, n) <= n,
    decreases n,
{
    if n > 0 {
        lemma_count_removed_bound(keep, n - 1);
    }
}

/// Over a stretch of removed entries the count grows by the stretch's length.
proof fn lemma_count_removed_stretch(keep: Seq<bool>, a: int, b: int)
    requires
        0 <= a <= b <= keep.len(),
        forall|j: int| a <= j < b ==> !keep[j],
    ensures
        count_removed(keep, b) == count_removed(keep, a) + (b - a),
    decreases b - a,
{
    if a < b {
        lemma_count_removed_stretch(keep, a, b - 1);
    }
}

/// A surviving entry lands at its index less the number of removed entries before it.
proof fn lemma_kept_entries_index(entries: Seq<ViewSwitchMessage>, keep: Seq<bool>, j: int)
    requires
        entries.len() == keep.len(),
        0 <= j < entries.len(),
        keep[j],
    ensures
        0 <= j - count_removed(keep, j) < kept_entries(entries, keep).len(),
        kept_entries(entries, keep)[j - count_removed(keep, j)] == entries[j],
    decreases entries.len(),
{
    let n = entries.len() as int;
    let e0 = entries.drop_last();
    let k0 = keep.drop_last();
    assert(k0.push(keep.last()) == keep);
    lemma_kept_entries_len(e0, k0);
    lemma_count_removed_bound(k0, j);
    if j < n - 1 {
        lemma_kept_entries_index(e0, k0, j);
        lemma_count_removed_prefix(k0, keep.last(), j);
    } else {
        lemma_count_removed_prefix(k0, keep.last(), j);
    }
}

/// When the shown entry survives a filter, the cursor stays on it.
pub proof fn retain_keeps_surviving_current(
    entries: Seq<ViewSwitchMessage>,
    pos: int,
    keep: Seq<bool>,
)
    requires
        keep.len() == entries.len(),
        0 <= pos < entries.len(),
        keep[pos],
    ensures
        retained(entries, pos, keep).0[retained(entries, pos, keep).1] == entries[pos],
        0 <= retained(entries, pos, keep).1 < retained(entries, pos, keep).0.len(),
{
    lemma_kept_entries_index(entries, keep, pos);
    lemma_count_removed_stretch(keep, pos, pos);
    assert(count_removed(keep, pos + 1) == count_removed(keep, pos));
}

/// When the shown entry is removed, the cursor backs up to the nearest surviving entry before
/// it.
pub proof fn retain_backs_up_to_previous_survivor(
    entries: Seq<ViewSwitchMessage>,
    pos: int,
    keep: Seq<bool>,
    prev: int,
)
    requires
        keep.len() == entries.len(),
        0 <= prev < pos < entries.len(),
        keep[prev],
        forall|j: int| prev < j <= pos ==> !keep[j],
    ensures
        retained(entries, pos, keep).0[retained(entries, pos, keep).1] == entries[prev],
{
    lemma_kept_entries_index(entries, keep, prev);
    lemma_count_removed_stretch(keep, prev + 1, pos + 1);
    assert(count_removed(keep, prev + 1) == count_removed(keep, prev));
}

/// A filter never leaves the history empty: when nothing survives, it holds the album list.
pub proof fn retain_never_empties(entries: Seq<ViewSwitchMessage>, pos: int, keep: Seq<bool>)
    requires
        keep.len() == entries.len(),
        0 <= pos < entries.len(),
    ensures
        retained(entries, pos, keep).0.len() >= 1,
        0 <= retained(entries, pos, keep).1 < retained(entries, pos, keep).0.len(),
        kept_entries(entries, keep).len() == 0 ==> retained(entries, pos, keep).0 == seq![
            ViewSwitchMessage::Albums,
        ],
{
}

/// Going back and then forward returns to the entry that was shown, and so does going forward
/// and then back; neither move changes the entries.
pub proof fn back_and_forward_undo_each_other(len: int, pos: int)
    requires
        0 <= pos < len,
    ensures
        pos > 0 ==> forward_step(len, back_step(pos)) == pos,
        pos < len - 1 ==> back_step(forward_step(len, pos)) == pos,
        0 <= back_step(pos) < len,
        0 <= forward_step(len, pos) < len,
{
}

/// After navigating, there is nothing to go forward to, the new view is shown, and going back
/// shows the view that was shown before.
pub proof fn navigate_then_back_returns(
    entries: Seq<ViewSwitchMessage>,
    pos: int,
    m: ViewSwitchMessage,
)
    requires
        1 <= entries.len() <= HISTORY_CAPACITY,
        0 <= pos < entries.len(),
    ensures
        navigated(entries, pos, m).len() >= 2,
        navigated(entries, pos, m).len() <= HISTORY_CAPACITY,
        navigated(entries, pos, m).last() == m,
        navigated(entries, pos, m)[navigated(entries, pos, m).len() - 2] == entries[pos],
{
}

/// In two-column mode a release or an artist page opens in the right pane, beside the list it
/// was reached from, and never takes the left pane; every other view takes the left pane and
/// leaves the right one empty. In one-column mode the right pane is never used.
pub proof fn detail_pages_open_beside_the_list(
    entries: Seq<ViewSwitchMessage>,
    pos: int,
    left_kind: Option<LibraryViewKind>,
)
    requires
        0 <= pos < entries.len(),
    ensures
        (entries[pos] is Release || entries[pos] is Artist) ==> plan_spec(
            entries,
            pos,
            true,
            left_kind,
        ).right_shows_current && !(plan_spec(entries, pos, true, left_kind).left is ShowCurrent),
        !(entries[pos] is Release || entries[pos] is Artist) ==> plan_spec(
            entries,
            pos,
            true,
            left_kind,
        ).left is ShowCurrent && !plan_spec(entries, pos, true, left_kind).right_shows_current,
        !plan_spec(entries, pos, false, left_kind).right_shows_current,
        plan_spec(entries, pos, false, left_kind).left is Clear,
{
}

} // verus!
