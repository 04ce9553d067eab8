use vstd::prelude::*;
use std::sync::Arc;
use nucleo::pattern::{CaseMatching, Normalization};
use nucleo::{Config, Nucleo, Utf32String};
use vstd::std_specs::cmp::PartialEqSpec;
use crate::search::{finder_select_next, finder_select_previous, match_limit, MATCH_LIMIT};

verus! {

/// `nucleo::Nucleo`, the fuzzy matcher that scores items on a pool of worker threads.
#[verifier::external_type_specification]
#[verifier::external_body]
#[verifier::reject_recursive_types(T)]
pub struct ExNucleo<T: Sync + Send + 'static>(Nucleo<T>);

/// The items injected into the matcher since it was made or last restarted, in order: the
/// data each carries and the text the matcher holds for it.
pub uninterp spec fn injected(m: Nucleo<u64>) -> Seq<(u64, Seq<char>)>;

/// The characters that `Utf32String::from` keeps of `text`: ASCII text whole, other text as
/// the first character of each grapheme cluster.
pub uninterp spec fn matched_text(text: Seq<char>) -> Seq<char>;

/// The text the matcher's pattern was last parsed from (empty before the first).
pub uninterp spec fn pattern_of(m: Nucleo<u64>) -> Seq<char>;

/// The data of the matched items in the matcher's current snapshot, best match first.
pub uninterp spec fn snapshot_matches(m: Nucleo<u64>) -> Seq<u64>;

/// Whether every character of `text` is ASCII.
pub open spec fn is_ascii(text: Seq<char>) -> bool {
    forall|i: int| 0 <= i < text.len() ==> (#[trigger] text[i] as u32) < 128
}

/// Whether an item injected since the last restart carries `x`.
pub open spec fn carries(items: Seq<(u64, Seq<char>)>, x: u64) -> bool {
    exists|j: int| 0 <= j < items.len() && #[trigger] items[j].0 == x
}

/// `Nucleo::new` with the default configuration, one matching column, one worker thread per
/// hardware thread and a notification that does nothing: nothing is injected, the pattern is
/// empty and so is the snapshot.
#[verifier::external_body]
fn matcher_new() -> (m: Nucleo<u64>)
    ensures
        injected(m) == Seq::<(u64, Seq<char>)>::empty(),
        snapshot_matches(m) == Seq::<u64>::empty(),
        pattern_of(m) == Seq::<char>::empty(),
{
    Nucleo::new(Config::DEFAULT, Arc::new(|| {}), None, 1)
}

/// `Injector::push` on an injector of the matcher, of an item that carries `data` and whose
/// column holds `Utf32String::from(text)`. ASCII text is held as it is. Pattern and snapshot
/// are left as they are.
#[verifier::external_body]
fn matcher_push(m: &mut Nucleo<u64>, data: u64, text: &str)
    ensures
        injected(*final(m)) == injected(*old(m)).push((data, matched_text(text@))),
        is_ascii(text@) ==> injected(*final(m)).last().1 == text@,
        snapshot_matches(*final(m)) == snapshot_matches(*old(m)),
        pattern_of(*final(m)) == pattern_of(*old(m)),
{
    let text = Utf32String::from(text);
    m.injector().push(data, move |_, columns| columns[0] = text);
}

/// `MultiPattern::reparse` of the matcher's only column with `query`, smart case matching and
/// smart normalisation, replacing the pattern. Items and snapshot are left as they are.
#[verifier::external_body]
fn matcher_set_pattern(m: &mut Nucleo<u64>, query: &str)
    ensures
        injected(*final(m)) == injected(*old(m)),
        snapshot_matches(*final(m)) == snapshot_matches(*old(m)),
        pattern_of(*final(m)) == query@,
{
    m.pattern.reparse(0, query, CaseMatching::Smart, Normalization::Smart, false);
}

/// `Nucleo::tick`: waits up to `timeout` milliseconds for the workers and takes their latest
/// results into the snapshot. How far the workers got is not known. The snapshot is only
/// replaced by the results of a run over the items injected since the last restart, so it is
/// either left as it was or holds only their data. Items and pattern stay.
#[verifier::external_body]
fn matcher_tick(m: &mut Nucleo<u64>, timeout: u64)
    ensures
        injected(*final(m)) == injected(*old(m)),
        pattern_of(*final(m)) == pattern_of(*old(m)),
        snapshot_matches(*final(m)) == snapshot_matches(*old(m)) || forall|i: int|
            0 <= i < snapshot_matches(*final(m)).len() ==> carries(
                injected(*final(m)),
                #[trigger] snapshot_matches(*final(m))[i],
            ),
{
    m.tick(timeout);
}

/// `Nucleo::restart` without clearing the snapshot: the injected items are dropped, while the
/// snapshot keeps its matches until the workers have run again.
#[verifier::external_body]
fn matcher_restart(m: &mut Nucleo<u64>)
    ensures
        injected(*final(m)) == Seq::<(u64, Seq<char>)>::empty(),
        snapshot_matches(*final(m)) == snapshot_matches(*old(m)),
        pattern_of(*final(m)) == pattern_of(*old(m)),
{
    m.restart(false);
}

/// `Snapshot::matched_item_count` of the matcher's snapshot.
#[verifier::external_body]
fn matched_count(m: &Nucleo<u64>) -> (r: u32)
    ensures
        r == snapshot_matches(*m).len(),
{
    m.snapshot().matched_item_count()
}

/// `Snapshot::matched_items` over the first `end` matches, each taken by the data it carries.
/// The crate panics for an `end` past the matched count, so that is left out.
#[verifier::external_body]
fn matched_data(m: &Nucleo<u64>, end: u32) -> (r: Vec<u64>)
    requires
        end <= snapshot_matches(*m).len(),
    ensures
        r@ == snapshot_matches(*m).take(end as int),
{
    m.snapshot().matched_items(..end).map(|item| *item.data).collect()
}

/// The matches a finder lists from a snapshot: the best ones, up to the limit.
pub open spec fn listed_matches(snapshot: Seq<u64>) -> Seq<u64> {
    snapshot.take(
        if snapshot.len() < MATCH_LIMIT {
            snapshot.len() as int
        } else {
            MATCH_LIMIT as int
        },
    )
}

/// A finder lists no more than the limit, and what it lists are the snapshot's best matches in
/// the snapshot's order.
pub proof fn listed_matches_are_the_best_few(snapshot: Seq<u64>)
    ensures
        listed_matches(snapshot).len() <= MATCH_LIMIT,
        listed_matches(snapshot).len() == snapshot.len() || listed_matches(snapshot).len()
            == MATCH_LIMIT,
        forall|i: int|
            0 <= i < listed_matches(snapshot).len() ==> #[trigger] listed_matches(snapshot)[i]
                == snapshot[i],
{
}

/// What a finder injects for a list of items whose numbering starts at `start`: each item's
/// number with the matcher's form of its text.
pub open spec fn numbered(start: int, texts: Seq<String>) -> Seq<(u64, Seq<char>)> {
    Seq::new(texts.len(), |k: int| ((start + k) as u64, matched_text(texts[k]@)))
}

/// Injects `texts` numbered from `start`.
fn inject(matcher: &mut Nucleo<u64>, start: u64, texts: &Vec<String>)
    requires
        start + texts.len() <= u64::MAX,
    ensures
        injected(*final(matcher)) == injected(*old(matcher)) + numbered(start as int, texts@),
        snapshot_matches(*final(matcher)) == snapshot_matches(*old(matcher)),
        pattern_of(*final(matcher)) == pattern_of(*old(matcher)),
{
    let mut k: usize = 0;
    while k < texts.len()
        invariant
            k <= texts.len(),
            start + texts.len() <= u64::MAX,
            injected(*matcher) == injected(*old(matcher)) + numbered(
                start as int,
                texts@.take(k as int),
            ),
            snapshot_matches(*matcher) == snapshot_matches(*old(matcher)),
            pattern_of(*matcher) == pattern_of(*old(matcher)),
        decreases texts.len() - k,
    {
        let data: u64 = start + k as u64;
        matcher_push(matcher, data, texts[k].as_str());
        proof {
            assert(numbered(start as int, texts@.take(k + 1)) =~= numbered(
                start as int,
                texts@.take(k as int),
            ).push((data, matched_text(texts@[k as int]@))));
        }
        k = k + 1;
    }
    proof {
        assert(texts@.take(k as int) =~= texts@);
    }
}

/// The matches to list from the matcher's snapshot.
fn get_matches(matcher: &Nucleo<u64>) -> (r: Vec<u64>)
    ensures
        r@ == listed_matches(snapshot_matches(*matcher)),
{
    let count = matched_count(matcher);
    let limit = match_limit(count as usize);
    matched_data(matcher, limit as u32)
}

/// The smallest of `init` and the numbers in `s`.
pub open spec fn lowest(s: Seq<u64>, init: int) -> int
    decreases s.len(),
{
    if s.len() == 0 {
        init
    } else {
        let rest = lowest(s.drop_last(), init);
        if (s.last() as int) < rest {
            s.last() as int
        } else {
            rest
        }
    }
}

proof fn lemma_lowest_bounds(s: Seq<u64>, init: int, lo: int)
    requires
        lo <= init,
        forall|i: int| 0 <= i < s.len() ==> lo <= #[trigger] s[i],
    ensures
        lo <= lowest(s, init) <= init,
        forall|i: int| 0 <= i < s.len() ==> lowest(s, init) <= #[trigger] s[i],
    decreases s.len(),
{
    if s.len() > 0 {
        lemma_lowest_bounds(s.drop_last(), init, lo);
        assert forall|i: int| 0 <= i < s.len() implies lowest(s, init) <= #[trigger] s[i] by {
            if i < s.len() - 1 {
                assert(s[i] == s.drop_last()[i]);
            }
        }
    }
}

/// The lowest of `init` and the numbers in `s`.
fn lowest_of(s: &Vec<u64>, init: u64) -> (r: u64)
    ensures
        r == lowest(s@, init as int),
{
    let mut lo = init;
    let mut i: usize = 0;
    while i < s.len()
        invariant
            i <= s@.len(),
            lo == lowest(s@.take(i as int), init as int),
        decreases s.len() - i,
    {
        proof {
            assert(s@.take(i + 1).drop_last() =~= s@.take(i as int));
        }
        if s[i] < lo {
            lo = s[i];
        }
        i = i + 1;
    }
    proof {
        assert(s@.take(i as int) =~= s@);
    }
    lo
}

/// The number of the first item a finder keeps after dropping what is no longer needed: while
/// items of earlier lists are still held, the lowest number the snapshot or the list names,
/// or the first of the current list when that is lower; otherwise nothing is dropped.
pub open spec fn kept_from(base: int, current: int, snapshot: Seq<u64>, listed: Seq<u64>) -> int {
    if base == current {
        base
    } else {
        lowest(listed, lowest(snapshot, current))
    }
}

/// Whether two lists of matches name equal items, one by one, as the items' `==` says; items
/// are numbered from `base`.
pub open spec fn same_listed<T: PartialEq>(items: Seq<T>, base: int, a: Seq<u64>, b: Seq<u64>) -> bool {
    &&& a.len() == b.len()
    &&& forall|i: int|
        0 <= i < a.len() ==> #[trigger] items[a[i] - base].eq_spec(&items[b[i] - base])
}

/// A fuzzy finder over a list of items: it matches a query against each item's text and lists
/// the best matches, with one of them selected.
///
/// The matcher refers to items by a number that no other item of the finder's life gets. When
/// the list is replaced, the items of earlier lists are kept only while the matcher's snapshot
/// or the listed matches may still name them; they are dropped as soon as neither does.
pub struct FuzzyFinder<T> {
    matcher: Nucleo<u64>,
    items: Vec<T>,
    base: u64,
    current: u64,
    query: String,
    last_match: Vec<u64>,
    selection: usize,
}

impl<T: PartialEq> FuzzyFinder<T> {
    /// The items the finder holds, in number order.
    pub closed spec fn items_seq(self) -> Seq<T> {
        self.items@
    }

    /// The number of the first item held.
    pub closed spec fn base_number(self) -> int {
        self.base as int
    }

    /// The number of the first item of the current list.
    pub closed spec fn current_number(self) -> int {
        self.current as int
    }

    /// The query last set.
    pub closed spec fn query_seq(self) -> Seq<char> {
        self.query@
    }

    /// The numbers of the listed matches, best first.
    pub closed spec fn listed(self) -> Seq<u64> {
        self.last_match@
    }

    /// The position of the selected match in the list.
    pub closed spec fn selected(self) -> int {
        self.selection as int
    }

    /// The matcher.
    pub closed spec fn matcher_state(self) -> Nucleo<u64> {
        self.matcher
    }

    /// The item numbered `n`, if it is held.
    pub open spec fn numbered_item(self, n: int) -> Option<T> {
        if self.base_number() <= n < self.base_number() + self.items_seq().len() {
            Some(self.items_seq()[n - self.base_number()])
        } else {
            None
        }
    }

    /// The finder holds together: the held items are numbered from `base`, the current list
    /// is their tail and is what the matcher holds, and the snapshot and the list name only
    /// held items.
    pub closed spec fn wf(self) -> bool {
        let m = self.matcher;
        let end = self.base + self.items@.len();
        &&& end <= u64::MAX
        &&& self.base <= self.current <= end
        &&& injected(m).len() == end - self.current
        &&& forall|j: int|
            0 <= j < injected(m).len() ==> #[trigger] injected(m)[j].0 == self.current + j
        &&& forall|i: int|
            0 <= i < snapshot_matches(m).len() ==> self.base <= #[trigger] snapshot_matches(m)[i]
                < end
        &&& forall|i: int|
            0 <= i < self.last_match@.len() ==> self.base <= #[trigger] self.last_match@[i] < end
    }

    /// The item of the selected match, if a match is selected.
    pub open spec fn selected_item(self) -> Option<T> {
        if self.selected() < self.listed().len() {
            self.numbered_item(self.listed()[self.selected()] as int)
        } else {
            None
        }
    }

    /// A finder over `items`, each matched by the text at the same place in `texts`, with an
    /// empty query and nothing listed yet.
    pub fn new(items: Vec<T>, texts: &Vec<String>) -> (r: Self)
        requires
            items.len() == texts.len(),
        ensures
            r.wf(),
            r.items_seq() == items@,
            r.base_number() == 0,
            r.current_number() == 0,
            r.query_seq() == Seq::<char>::empty(),
            r.listed() == Seq::<u64>::empty(),
            r.selected() == 0,
            injected(r.matcher_state()) == numbered(0, texts@),
            snapshot_matches(r.matcher_state()) == Seq::<u64>::empty(),
            pattern_of(r.matcher_state()) == Seq::<char>::empty(),
    {
        let mut matcher = matcher_new();
        inject(&mut matcher, 0, texts);
        proof {
            assert(Seq::<(u64, Seq<char>)>::empty() + numbered(0, texts@) =~= numbered(
                0,
                texts@,
            ));
        }
        FuzzyFinder {
            matcher,
            items,
            base: 0,
            current: 0,
            query: String::new(),
            last_match: Vec::new(),
            selection: 0,
        }
    }

    /// Whether the matches `a` and `b` name equal items, one by one.
    fn same_items(&self, a: &Vec<u64>, b: &Vec<u64>) -> (r: bool)
        requires
            forall|i: int|
                0 <= i < a@.len() ==> self.base <= #[trigger] a@[i] < self.base
                    + self.items@.len(),
            forall|i: int|
                0 <= i < b@.len() ==> self.base <= #[trigger] b@[i] < self.base
                    + self.items@.len(),
        ensures
            T::obeys_eq_spec() ==> r == same_listed(self.items@, self.base as int, a@, b@),
    {
        if a.len() != b.len() {
            return false;
        }
        let mut i: usize = 0;
        while i < a.len()
            invariant
                i <= a@.len(),
                a@.len() == b@.len(),
                forall|j: int|
                    0 <= j < a@.len() ==> self.base <= #[trigger] a@[j] < self.base
                        + self.items@.len(),
                forall|j: int|
                    0 <= j < b@.len() ==> self.base <= #[trigger] b@[j] < self.base
                        + self.items@.len(),
                T::obeys_eq_spec() ==> forall|j: int|
                    0 <= j < i ==> #[trigger] self.items@[a@[j] - self.base].eq_spec(
                        &self.items@[b@[j] - self.base],
                    ),
            decreases a.len() - i,
        {
            let n = self.items.len();
            assert(self.base <= a@[i as int] < self.base + n);
            assert(self.base <= b@[i as int] < self.base + self.items@.len());
            let x = (a[i] - self.base) as usize;
            let y = (b[i] - self.base) as usize;
            assert(x == a@[i as int] - self.base);
            assert(y == b@[i as int] - self.base);
            if !(self.items[x] == self.items[y]) {
                return false;
            }
            i = i + 1;
        }
        true
    }

    /// Drops the items of earlier lists that neither the snapshot nor the list names any more.
    fn prune(&mut self)
        requires
            old(self).wf(),
        ensures
            final(self).wf(),
            final(self).base_number() == kept_from(
                old(self).base_number(),
                old(self).current_number(),
                snapshot_matches(old(self).matcher_state()),
                old(self).listed(),
            ),
            final(self).items_seq() == old(self).items_seq().skip(
                final(self).base_number() - old(self).base_number(),
            ),
            final(self).current_number() == old(self).current_number(),
            final(self).listed() == old(self).listed(),
            final(self).matcher_state() == old(self).matcher_state(),
            final(self).query_seq() == old(self).query_seq(),
            final(self).selected() == old(self).selected(),
    {
        if self.base == self.current {
            proof {
                assert(self.items@.skip(0) =~= self.items@);
            }
            return;
        }
        let count = matched_count(&self.matcher);
        let all = matched_data(&self.matcher, count);
        proof {
            assert(all@ =~= snapshot_matches(self.matcher));
            lemma_lowest_bounds(all@, self.current as int, self.base as int);
            lemma_lowest_bounds(
                self.last_match@,
                lowest(all@, self.current as int),
                self.base as int,
            );
        }
        let low = lowest_of(&all, self.current);
        let lo = lowest_of(&self.last_match, low);
        assert(self.base <= lo <= low <= self.current);
        assert(forall|i: int|
            0 <= i < snapshot_matches(self.matcher).len() ==> lo <= #[trigger] snapshot_matches(
                self.matcher,
            )[i]) by {
            assert forall|i: int| 0 <= i < snapshot_matches(self.matcher).len() implies lo
                <= #[trigger] snapshot_matches(self.matcher)[i] by {
                assert(all@[i] == snapshot_matches(self.matcher)[i]);
            }
        }
        let n = self.items.len();
        if lo > self.base {
            assert(lo - self.base <= n);
            let k = (lo - self.base) as usize;
            let ghost before = self.items@;
            let tail = self.items.split_off(k);
            self.items = tail;
            self.base = lo;
            proof {
                assert(self.items@ =~= before.skip(k as int));
            }
        } else {
            proof {
                assert(self.items@.skip(0) =~= self.items@);
            }
        }
    }

    /// Takes the matcher's snapshot into the list, unless it names the same items as the list
    /// already does (by the items' `==`), then drops what is no longer named; says whether the
    /// list changed.
    fn refresh(&mut self) -> (changed: bool)
        requires
            old(self).wf(),
        ensures
            final(self).wf(),
            changed ==> final(self).listed() == listed_matches(
                snapshot_matches(old(self).matcher_state()),
            ),
            !changed ==> final(self).listed() == old(self).listed(),
            T::obeys_eq_spec() ==> changed == !same_listed(
                old(self).items_seq(),
                old(self).base_number(),
                listed_matches(snapshot_matches(old(self).matcher_state())),
                old(self).listed(),
            ),
            final(self).base_number() == kept_from(
                old(self).base_number(),
                old(self).current_number(),
                snapshot_matches(old(self).matcher_state()),
                final(self).listed(),
            ),
            final(self).items_seq() == old(self).items_seq().skip(
                final(self).base_number() - old(self).base_number(),
            ),
            final(self).current_number() == old(self).current_number(),
            final(self).matcher_state() == old(self).matcher_state(),
            final(self).query_seq() == old(self).query_seq(),
            final(self).selected() == old(self).selected(),
    {
        let matches = get_matches(&self.matcher);
        let changed = if self.same_items(&matches, &self.last_match) {
            false
        } else {
            self.last_match = matches;
            true
        };
        self.prune();
        changed
    }

    /// Matches `query` from now on: the matcher gets a short while to catch up, the list is
    /// taken from its snapshot unless that names the same items, and the first match is
    /// selected. Items no longer named are dropped. Says whether the list changed.
    pub fn set_query(&mut self, query: String) -> (changed: bool)
        requires
            old(self).wf(),
        ensures
            final(self).wf(),
            final(self).query_seq() == query@,
            pattern_of(final(self).matcher_state()) == query@,
            injected(final(self).matcher_state()) == injected(old(self).matcher_state()),
            changed ==> final(self).listed() == listed_matches(
                snapshot_matches(final(self).matcher_state()),
            ),
            !changed ==> final(self).listed() == old(self).listed(),
            T::obeys_eq_spec() ==> changed == !same_listed(
                old(self).items_seq(),
                old(self).base_number(),
                listed_matches(snapshot_matches(final(self).matcher_state())),
                old(self).listed(),
            ),
            final(self).base_number() == kept_from(
                old(self).base_number(),
                old(self).current_number(),
                snapshot_matches(final(self).matcher_state()),
                final(self).listed(),
            ),
            final(self).items_seq() == old(self).items_seq().skip(
                final(self).base_number() - old(self).base_number(),
            ),
            final(self).current_number() == old(self).current_number(),
            final(self).selected() == 0,
    {
        matcher_set_pattern(&mut self.matcher, query.as_str());
        self.query = query;
        matcher_tick(&mut self.matcher, 20);
        let changed = self.refresh();
        self.selection = 0;
        changed
    }

    /// Gives the matcher a short while to catch up and takes its snapshot into the list, unless
    /// that names the same items; items no longer named are dropped. Says whether the list
    /// changed.
    pub fn poll(&mut self) -> (changed: bool)
        requires
            old(self).wf(),
        ensures
            final(self).wf(),
            final(self).query_seq() == old(self).query_seq(),
            pattern_of(final(self).matcher_state()) == pattern_of(old(self).matcher_state()),
            injected(final(self).matcher_state()) == injected(old(self).matcher_state()),
            changed ==> final(self).listed() == listed_matches(
                snapshot_matches(final(self).matcher_state()),
            ),
            !changed ==> final(self).listed() == old(self).listed(),
            T::obeys_eq_spec() ==> changed == !same_listed(
                old(self).items_seq(),
                old(self).base_number(),
                listed_matches(snapshot_matches(final(self).matcher_state())),
                old(self).listed(),
            ),
            final(self).base_number() == kept_from(
                old(self).base_number(),
                old(self).current_number(),
                snapshot_matches(final(self).matcher_state()),
                final(self).listed(),
            ),
            final(self).items_seq() == old(self).items_seq().skip(
                final(self).base_number() - old(self).base_number(),
            ),
            final(self).current_number() == old(self).current_number(),
            final(self).selected() == old(self).selected(),
    {
        matcher_tick(&mut self.matcher, 10);
        self.refresh()
    }

    /// Replaces the items matched with `items`, each matched by the text at the same place in
    /// `texts`; they are numbered after every item the finder was given before. The list stays
    /// as it is until the matcher has caught up.
    pub fn replace_items(&mut self, items: Vec<T>, texts: &Vec<String>)
        requires
            old(self).wf(),
            items.len() == texts.len(),
            old(self).base_number() + old(self).items_seq().len() + items.len() <= u64::MAX,
        ensures
            final(self).wf(),
            final(self).items_seq() == old(self).items_seq() + items@,
            final(self).base_number() == old(self).base_number(),
            final(self).current_number() == old(self).base_number() + old(self).items_seq().len(),
            injected(final(self).matcher_state()) == numbered(
                old(self).base_number() + old(self).items_seq().len(),
                texts@,
            ),
            snapshot_matches(final(self).matcher_state()) == snapshot_matches(
                old(self).matcher_state(),
            ),
            pattern_of(final(self).matcher_state()) == pattern_of(old(self).matcher_state()),
            final(self).query_seq() == old(self).query_seq(),
            final(self).listed() == old(self).listed(),
            final(self).selected() == old(self).selected(),
    {
        let start = self.base + self.items.len() as u64;
        matcher_restart(&mut self.matcher);
        inject(&mut self.matcher, start, texts);
        let mut items = items;
        self.items.append(&mut items);
        self.current = start;
        proof {
            assert(Seq::<(u64, Seq<char>)>::empty() + numbered(start as int, texts@) =~= numbered(
                start as int,
                texts@,
            ));
        }
    }

    /// Moves the selection up one match, stopping at the first.
    pub fn select_previous(&mut self)
        requires
            old(self).wf(),
        ensures
            final(self).wf(),
            final(self).selected() == (if old(self).selected() > 0 {
                old(self).selected() - 1
            } else {
                0
            }),
            final(self).listed() == old(self).listed(),
            final(self).items_seq() == old(self).items_seq(),
            final(self).base_number() == old(self).base_number(),
            final(self).query_seq() == old(self).query_seq(),
            final(self).matcher_state() == old(self).matcher_state(),
    {
        self.selection = finder_select_previous(self.selection);
    }

    /// Moves the selection down one match, stopping at the last.
    pub fn select_next(&mut self)
        requires
            old(self).wf(),
        ensures
            final(self).wf(),
            final(self).selected() == (if old(self).selected() + 1 < old(self).listed().len() {
                old(self).selected() + 1
            } else {
                old(self).selected()
            }),
            final(self).listed() == old(self).listed(),
            final(self).items_seq() == old(self).items_seq(),
            final(self).base_number() == old(self).base_number(),
            final(self).query_seq() == old(self).query_seq(),
            final(self).matcher_state() == old(self).matcher_state(),
    {
        self.selection = finder_select_next(self.selection, self.last_match.len());
    }

    /// The item of the selected match, if a match is selected.
    pub fn accept(&self) -> (r: Option<&T>)
        requires
            self.wf(),
        ensures
            r matches Some(item) ==> self.selected_item() == Some(*item),
            r is None <==> self.selected_item() is None,
    {
        if self.selection < self.last_match.len() {
            let n = self.items.len();
            assert(self.base <= self.last_match@[self.selection as int] < self.base + n);
            let index = (self.last_match[self.selection] - self.base) as usize;
            return Some(&self.items[index]);
        }
        None
    }

    /// The numbers of the listed matches, best first.
    pub fn matches(&self) -> (r: &Vec<u64>)
        ensures
            r@ == self.listed(),
    {
        &self.last_match
    }

    /// The item numbered `number`, if it is held.
    pub fn item(&self, number: u64) -> (r: Option<&T>)
        requires
            self.wf(),
        ensures
            match self.numbered_item(number as int) {
                Some(x) => r == Some(&x),
                None => r is None,
            },
    {
        let n = self.items.len();
        if self.base <= number && number - self.base < n as u64 {
            Some(&self.items[(number - self.base) as usize])
        } else {
            None
        }
    }

    /// How many items the finder holds.
    pub fn item_count(&self) -> (r: usize)
        ensures
            r == self.items_seq().len(),
    {
        self.items.len()
    }

    /// The number the next item given to the finder gets.
    pub fn next_number(&self) -> (r: u64)
        requires
            self.wf(),
        ensures
            r == self.base_number() + self.items_seq().len(),
    {
        self.base + self.items.len() as u64
    }

    /// The query last set.
    pub fn query(&self) -> (r: &String)
        ensures
            r@ == self.query_seq(),
    {
        &self.query
    }

    /// The position of the selected match.
    pub fn selection(&self) -> (r: usize)
        ensures
            r == self.selected(),
    {
        self.selection
    }
}

} // verus!
