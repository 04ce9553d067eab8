use vstd::prelude::*;
use vstd::string::StrSliceExecFns;
use std::time::Instant;

verus! {

/// `std::time::Instant`, a reading of the monotonic clock.
#[verifier::external_type_specification]
#[verifier::external_body]
pub struct ExInstant(Instant);

/// The lowercase form of a string, as `str::to_lowercase` computes it.
pub uninterp spec fn lowercase(s: Seq<char>) -> Seq<char>;

/// `str::to_lowercase`: the lowercase equivalent of a string.
#[verifier::external_body]
fn to_lowercase(s: &str) -> (r: String)
    ensures
        r@ == lowercase(s@),
{
    s.to_lowercase()
}

/// `Instant::now`: the current reading of the clock. Nothing is stated of it.
#[verifier::external_body]
fn instant_now() -> Instant {
    Instant::now()
}

/// `Instant::duration_since` in whole milliseconds (`Duration::as_millis`). Instants are opaque
/// here, so nothing is stated of the result.
#[verifier::external_body]
fn millis_since(now: &Instant, earlier: &Instant) -> u128 {
    now.duration_since(*earlier).as_millis()
}

/// Whether `s` begins with `prefix`.
pub open spec fn starts_with(s: Seq<char>, prefix: Seq<char>) -> bool {
    prefix.len() <= s.len() && s.take(prefix.len() as int) == prefix
}

fn str_starts_with(s: &str, prefix: &str) -> (r: bool)
    ensures
        r == starts_with(s@, prefix@),
{
    let n = prefix.unicode_len();
    let len = s.unicode_len();
    if n > len {
        return false;
    }
    let mut i: usize = 0;
    while i < n
        invariant
            n == prefix@.len(),
            len == s@.len(),
            n <= len,
            0 <= i <= n,
            forall|j: int| 0 <= j < i ==> s@[j] == prefix@[j],
        decreases n - i,
    {
        if s.get_char(i) != prefix.get_char(i) {
            assert(s@.take(n as int)[i as int] != prefix@[i as int]);
            return false;
        }
        i = i + 1;
    }
    assert(s@.take(n as int) =~= prefix@);
    true
}

/// One choice in a dropdown.
#[derive(Clone, Debug)]
pub struct DropdownOption {
    pub id: String,
    pub label: String,
}

impl DropdownOption {
    pub fn new(id: String, label: String) -> (r: Self)
        ensures
            r.id == id,
            r.label == label,
    {
        Self { id, label }
    }
}

/// The first option whose lowercase label starts with the lowercase search text.
pub open spec fn first_match(options: Seq<DropdownOption>, search: Seq<char>, from: int) -> Option<
    int,
>
    decreases options.len() - from,
{
    if from < 0 || from >= options.len() {
        None
    } else if starts_with(lowercase(options[from].label@), lowercase(search)) {
        Some(from)
    } else {
        first_match(options, search, from + 1)
    }
}

/// How long a pause between keystrokes may be before typing starts a new search.
pub const TYPE_TO_FIND_TIMEOUT_MS: u128 = 500;

/// The text typed to jump to an option, and when the last key was typed.
#[derive(Clone, Default)]
pub struct TypeToFindState {
    buffer: String,
    last_keystroke: Option<Instant>,
}

impl TypeToFindState {
    pub closed spec fn typed(&self) -> Seq<char> {
        self.buffer@
    }

    /// When the last key was typed, if one was since the text was last forgotten.
    pub closed spec fn last_key(&self) -> Option<Instant> {
        self.last_keystroke
    }

    pub fn new() -> (r: Self)
        ensures
            r.typed() == Seq::<char>::empty(),
            r.last_key() is None,
    {
        Self { buffer: String::new(), last_keystroke: None }
    }

    /// Records a typed character: the search starts over when more than the timeout has passed
    /// since the previous key (`since_last_ms`, absent when there was none).
    pub fn record_keystroke(&mut self, ch: char, now: Instant, since_last_ms: Option<u128>)
        ensures
            final(self).typed() == match since_last_ms {
                Some(ms) => if ms > TYPE_TO_FIND_TIMEOUT_MS {
                    seq![ch]
                } else {
                    old(self).typed().push(ch)
                },
                None => old(self).typed().push(ch),
            },
            final(self).last_key() == Some(now),
    {
        if let Some(ms) = since_last_ms {
            if ms > TYPE_TO_FIND_TIMEOUT_MS {
                self.buffer = String::new();
            }
        }
        crate::text::push_char(&mut self.buffer, ch);
        self.last_keystroke = Some(now);
    }

    /// Records a typed character at the current time.
    pub fn push_char(&mut self, ch: char)
        ensures
            final(self).typed() == old(self).typed().push(ch) || final(self).typed() == seq![ch],
            old(self).last_key() is None ==> final(self).typed() == old(self).typed().push(ch),
            final(self).last_key() is Some,
    {
        let now = instant_now();
        let since_last = match &self.last_keystroke {
            Some(last) => Some(millis_since(&now, last)),
            None => None,
        };
        self.record_keystroke(ch, now, since_last);
    }

    /// The first option whose label starts with what was typed, ignoring case.
    pub fn find_match(&self, options: &Vec<DropdownOption>) -> (r: Option<usize>)
        ensures
            self.typed().len() == 0 ==> r is None,
            self.typed().len() > 0 ==> match r {
                Some(i) => first_match(options@, self.typed(), 0) == Some(i as int),
                None => first_match(options@, self.typed(), 0) is None,
            },
    {
        if self.buffer.as_str().unicode_len() == 0 {
            return None;
        }
        let search = to_lowercase(self.buffer.as_str());
        let mut i: usize = 0;
        while i < options.len()
            invariant
                0 <= i <= options@.len(),
                self.typed().len() > 0,
                search@ == lowercase(self.typed()),
                first_match(options@, self.typed(), 0) == first_match(
                    options@,
                    self.typed(),
                    i as int,
                ),
            decreases options@.len() - i,
        {
            let label = to_lowercase(options[i].label.as_str());
            if str_starts_with(label.as_str(), search.as_str()) {
                return Some(i);
            }
            i = i + 1;
        }
        None
    }

    /// Forgets what was typed.
    pub fn clear(&mut self)
        ensures
            final(self).typed() == Seq::<char>::empty(),
            final(self).last_key() is None,
    {
        self.buffer = String::new();
        self.last_keystroke = None;
    }
}


/// The highlight after moving down: one option further, unless it is at the last option.
pub open spec fn next_highlight(h: int, len: int) -> int {
    let last = if len > 0 {
        len - 1
    } else {
        0
    };
    if h < last {
        h + 1
    } else {
        h
    }
}

/// The highlight after moving up: one option earlier, unless it is at the first.
pub open spec fn prev_highlight(h: int) -> int {
    if h > 0 {
        h - 1
    } else {
        h
    }
}

/// The state of a dropdown: its options, the selected option, the highlighted option while
/// the list is open, and the text typed to find an option.
pub struct DropdownState {
    options: Vec<DropdownOption>,
    selected_index: usize,
    highlighted_index: usize,
    is_open: bool,
    type_to_find: TypeToFindState,
}

impl DropdownState {
    pub closed spec fn options_spec(&self) -> Seq<DropdownOption> {
        self.options@
    }

    pub closed spec fn selected(&self) -> int {
        self.selected_index as int
    }

    pub closed spec fn highlighted(&self) -> int {
        self.highlighted_index as int
    }

    pub closed spec fn open(&self) -> bool {
        self.is_open
    }

    pub closed spec fn typed(&self) -> Seq<char> {
        self.type_to_find.typed()
    }

    /// When the last key was typed to find an option, if one was since the typed text was
    /// last forgotten.
    pub closed spec fn key_time(&self) -> Option<Instant> {
        self.type_to_find.last_key()
    }

    /// The selected and the highlighted positions are indices: never below zero, and each
    /// fits in a `usize`.
    pub proof fn lemma_positions_are_indices(&self)
        ensures
            0 <= self.selected() <= usize::MAX,
            0 <= self.highlighted() <= usize::MAX,
    {
    }

    pub fn new(options: Vec<DropdownOption>, selected_index: usize) -> (r: Self)
        ensures
            r.options_spec() == options@,
            r.selected() == selected_index,
            r.highlighted() == selected_index,
            !r.open(),
            r.typed() == Seq::<char>::empty(),
            r.key_time() is None,
    {
        Self {
            options,
            selected_index,
            highlighted_index: selected_index,
            is_open: false,
            type_to_find: TypeToFindState::new(),
        }
    }

    /// Opens a closed list, highlighting the selected option and forgetting typed text, or
    /// closes an open one.
    pub fn toggle_open(&mut self)
        ensures
            final(self).open() == !old(self).open(),
            final(self).options_spec() == old(self).options_spec(),
            final(self).selected() == old(self).selected(),
            final(self).open() ==> final(self).highlighted() == old(self).selected()
                && final(self).typed() == Seq::<char>::empty() && final(self).key_time() is None,
            !final(self).open() ==> final(self).highlighted() == old(self).highlighted()
                && final(self).typed() == old(self).typed() && final(self).key_time() == old(
                self,
            ).key_time(),
    {
        self.is_open = !self.is_open;
        if self.is_open {
            self.highlighted_index = self.selected_index;
            self.type_to_find.clear();
        }
    }

    /// Closes the list and forgets typed text.
    pub fn close(&mut self)
        ensures
            !final(self).open(),
            final(self).typed() == Seq::<char>::empty(),
            final(self).key_time() is None,
            final(self).options_spec() == old(self).options_spec(),
            final(self).selected() == old(self).selected(),
            final(self).highlighted() == old(self).highlighted(),
    {
        self.is_open = false;
        self.type_to_find.clear();
    }

    pub fn select_next(&mut self)
        ensures
            final(self).highlighted() == next_highlight(
                old(self).highlighted(),
                old(self).options_spec().len() as int,
            ),
            final(self).options_spec() == old(self).options_spec(),
            final(self).selected() == old(self).selected(),
            final(self).open() == old(self).open(),
            final(self).typed() == old(self).typed(),
            final(self).key_time() == old(self).key_time(),
    {
        let last: usize = if self.options.len() > 0 {
            self.options.len() - 1
        } else {
            0
        };
        if self.highlighted_index < last {
            self.highlighted_index = self.highlighted_index + 1;
        }
    }

    pub fn select_prev(&mut self)
        ensures
            final(self).highlighted() == prev_highlight(old(self).highlighted()),
            final(self).options_spec() == old(self).options_spec(),
            final(self).selected() == old(self).selected(),
            final(self).open() == old(self).open(),
            final(self).typed() == old(self).typed(),
            final(self).key_time() == old(self).key_time(),
    {
        if self.highlighted_index > 0 {
            self.highlighted_index = self.highlighted_index - 1;
        }
    }

    pub fn select_first(&mut self)
        ensures
            final(self).highlighted() == 0,
            final(self).options_spec() == old(self).options_spec(),
            final(self).selected() == old(self).selected(),
            final(self).open() == old(self).open(),
            final(self).typed() == old(self).typed(),
            final(self).key_time() == old(self).key_time(),
    {
        self.highlighted_index = 0;
    }

    pub fn select_last(&mut self)
        ensures
            final(self).highlighted() == if old(self).options_spec().len() > 0 {
                old(self).options_spec().len() - 1
            } else {
                0
            },
            final(self).options_spec() == old(self).options_spec(),
            final(self).selected() == old(self).selected(),
            final(self).open() == old(self).open(),
            final(self).typed() == old(self).typed(),
            final(self).key_time() == old(self).key_time(),
    {
        self.highlighted_index = if self.options.len() > 0 {
            self.options.len() - 1
        } else {
            0
        };
    }

    /// Selects the highlighted option when there is one, and closes the list. Returns the index
    /// of the option chosen, which the change handler is called with.
    pub fn confirm(&mut self) -> (r: Option<usize>)
        ensures
            !final(self).open(),
            final(self).typed() == Seq::<char>::empty(),
            final(self).key_time() is None,
            final(self).options_spec() == old(self).options_spec(),
            final(self).highlighted() == old(self).highlighted(),
            old(self).highlighted() < old(self).options_spec().len() ==> r == Some(
                old(self).highlighted() as usize,
            ) && final(self).selected() == old(self).highlighted(),
            old(self).highlighted() >= old(self).options_spec().len() ==> r is None
                && final(self).selected() == old(self).selected(),
    {
        let r = if self.highlighted_index < self.options.len() {
            self.selected_index = self.highlighted_index;
            Some(self.highlighted_index)
        } else {
            None
        };
        self.close();
        r
    }

    /// Clicking an option highlights and confirms it.
    pub fn click_option(&mut self, index: usize) -> (r: Option<usize>)
        ensures
            !final(self).open(),
            final(self).typed() == Seq::<char>::empty(),
            final(self).key_time() is None,
            final(self).options_spec() == old(self).options_spec(),
            final(self).highlighted() == index,
            index < old(self).options_spec().len() ==> r == Some(index) && final(self).selected()
                == index,
            index >= old(self).options_spec().len() ==> r is None && final(self).selected()
                == old(self).selected(),
    {
        self.highlighted_index = index;
        self.confirm()
    }

    /// Handles a typed character: the highlight jumps to the first option whose label starts
    /// with what was typed, ignoring case, when there is one.
    pub fn handle_key(&mut self, ch: char)
        ensures
            final(self).options_spec() == old(self).options_spec(),
            final(self).selected() == old(self).selected(),
            final(self).open() == old(self).open(),
            final(self).typed() == old(self).typed().push(ch) || final(self).typed() == seq![ch],
            old(self).key_time() is None ==> final(self).typed() == old(self).typed().push(ch),
            final(self).key_time() is Some,
            final(self).highlighted() == match first_match(
                final(self).options_spec(),
                final(self).typed(),
                0,
            ) {
                Some(i) => i,
                None => old(self).highlighted(),
            },
    {
        self.type_to_find.push_char(ch);
        if let Some(match_idx) = self.type_to_find.find_match(&self.options) {
            self.highlighted_index = match_idx;
        }
    }

    /// The label shown on the closed dropdown: that of the selected option, if it exists.
    pub fn selected_label(&self) -> (r: Option<String>)
        ensures
            self.selected() < self.options_spec().len() ==> r == Some(
                self.options_spec()[self.selected()].label,
            ),
            self.selected() >= self.options_spec().len() ==> r is None,
    {
        if self.selected_index < self.options.len() {
            Some(self.options[self.selected_index].label.clone())
        } else {
            None
        }
    }

    pub fn selected_index(&self) -> (r: usize)
        ensures
            r == self.selected(),
    {
        self.selected_index
    }

    pub fn highlighted_index(&self) -> (r: usize)
        ensures
            r == self.highlighted(),
    {
        self.highlighted_index
    }

    pub fn is_open(&self) -> (r: bool)
        ensures
            r == self.open(),
    {
        self.is_open
    }
}

/// Moving the highlight down and then up returns to the same option, unless it was on the
/// last option; and the highlight never leaves the list by moving.
pub proof fn next_then_prev_returns(h: int, len: int)
    requires
        0 <= h < len,
    ensures
        h < len - 1 ==> prev_highlight(next_highlight(h, len)) == h,
        0 <= next_highlight(h, len) < len,
        0 <= prev_highlight(h) < len,
        h > 0 ==> next_highlight(prev_highlight(h), len) == h,
{
}

} // verus!
