use vstd::prelude::*;
use std::sync::Arc;
use crate::finder::{injected, matched_text, FuzzyFinder};
use crate::navigation::ViewSwitchMessage;
use crate::text::{album_thumbnail_path, push_char, push_signed_decimal, push_str};

verus! {

/// An album offered by the search palette.
#[derive(Debug, Clone, PartialEq)]
pub struct AlbumPaletteItem {
    pub id: u32,
    pub title: String,
    pub artist: String,
    /// Whether one of the album's tracks can be played.
    pub available: bool,
}

/// What a palette row shows on its left.
#[derive(Debug, Clone)]
pub enum FinderItemLeft {
    Text(String),
    Image(String),
}

impl AlbumPaletteItem {
    pub fn new(id: u32, title: String, artist: String, available: bool) -> (r: Self)
        ensures
            r.id == id,
            r.title == title,
            r.artist == artist,
            r.available == available,
    {
        Self { id, title, artist, available }
    }

    /// One item per search result (id, title, artist, availability), in order.
    pub fn from_search_results(results: Vec<(u32, String, String, bool)>) -> (r: Vec<
        Arc<AlbumPaletteItem>,
    >)
        ensures
            r@.len() == results@.len(),
            forall|i: int|
                0 <= i < r@.len() ==> {
                    let item = *(#[trigger] r@[i]);
                    &&& item.id == results@[i].0
                    &&& item.title == results@[i].1
                    &&& item.artist == results@[i].2
                    &&& item.available == results@[i].3
                },
    {
        let mut r: Vec<Arc<AlbumPaletteItem>> = Vec::new();
        let mut results = results;
        let ghost all = results@;
        let mut i: usize = 0;
        let n = results.len();
        let mut rest: Vec<(u32, String, String, bool)> = Vec::new();
        while i < n
            invariant
                n == all.len(),
                0 <= i <= n,
                results@ == all.take(n - i),
                r@.len() == i,
                forall|j: int|
                    0 <= j < i ==> {
                        let item = *(#[trigger] r@[j]);
                        &&& item.id == all[n - 1 - j].0
                        &&& item.title == all[n - 1 - j].1
                        &&& item.artist == all[n - 1 - j].2
                        &&& item.available == all[n - 1 - j].3
                    },
            decreases n - i,
        {
            let (id, title, artist, available) = results.pop().unwrap();
            r.push(Arc::new(AlbumPaletteItem::new(id, title, artist, available)));
            assert(all.take(n - i).drop_last() == all.take(n - i - 1));
            i = i + 1;
        }
        reverse_items(r)
    }

    /// The asset path of the album's thumbnail.
    pub fn thumbnail_path(&self) -> (r: String)
        ensures
            r@ == album_thumbnail_path(self.id as int),
    {
        crate::text::format_album_thumbnail_path(self.id as i64)
    }

    /// The palette row shows the thumbnail on its left.
    pub fn left_content(&self) -> (r: FinderItemLeft)
        ensures
            r matches FinderItemLeft::Image(p) && p@ == album_thumbnail_path(self.id as int),
    {
        FinderItemLeft::Image(self.thumbnail_path())
    }

    /// The title in the middle.
    pub fn middle_content(&self) -> (r: String)
        ensures
            r == self.title,
    {
        self.title.clone()
    }

    /// The artist on the right.
    pub fn right_content(&self) -> (r: Option<String>)
        ensures
            r == Some(self.artist),
    {
        Some(self.artist.clone())
    }

    /// Albums with no playable track are shown disabled.
    pub fn is_enabled(&self) -> (r: bool)
        ensures
            r == self.available,
    {
        self.available
    }
}

/// Reverses a list of items.
fn reverse_items(v: Vec<Arc<AlbumPaletteItem>>) -> (r: Vec<Arc<AlbumPaletteItem>>)
    ensures
        r@.len() == v@.len(),
        forall|i: int| 0 <= i < v@.len() ==> r@[i] == v@[v@.len() - 1 - i],
{
    let mut v = v;
    let ghost all = v@;
    let n = v.len();
    let mut r: Vec<Arc<AlbumPaletteItem>> = Vec::new();
    let mut i: usize = 0;
    while i < n
        invariant
            n == all.len(),
            0 <= i <= n,
            v@ == all.take(n - i),
            r@.len() == i,
            forall|j: int| 0 <= j < i ==> r@[j] == all[n - 1 - j],
        decreases n - i,
    {
        let x = v.pop().unwrap();
        r.push(x);
        assert(all.take(n - i).drop_last() == all.take(n - i - 1));
        i = i + 1;
    }
    r
}

/// An entry of the search palette.
#[derive(Debug, Clone, PartialEq)]
pub enum SearchPaletteItem {
    Album { id: u32, title: String, artist: String, available: bool },
    Artist { id: i64, name: String },
    Track { id: i64, title: String, album_id: Option<i64> },
}

pub open spec fn accept_spec(item: SearchPaletteItem) -> Option<ViewSwitchMessage> {
    match item {
        SearchPaletteItem::Album { id, .. } => Some(ViewSwitchMessage::Release(id as i64)),
        SearchPaletteItem::Artist { id, .. } => Some(ViewSwitchMessage::Artist(id)),
        SearchPaletteItem::Track { album_id, .. } => match album_id {
            Some(a) => Some(ViewSwitchMessage::Release(a)),
            None => None,
        },
    }
}

/// The view opened when a search entry is accepted: an album's release page, an artist's
/// page, or a track's album (nothing for a track without one).
pub fn accept_search_item(item: &SearchPaletteItem) -> (r: Option<ViewSwitchMessage>)
    ensures
        r == accept_spec(*item),
{
    match item {
        SearchPaletteItem::Album { id, .. } => Some(ViewSwitchMessage::Release(*id as i64)),
        SearchPaletteItem::Artist { id, .. } => Some(ViewSwitchMessage::Artist(*id)),
        SearchPaletteItem::Track { album_id, .. } => match album_id {
            Some(a) => Some(ViewSwitchMessage::Release(*a)),
            None => None,
        },
    }
}

pub open spec fn match_text_spec(item: SearchPaletteItem) -> Seq<char> {
    match item {
        SearchPaletteItem::Album { title, artist, .. } => title@ + seq![' '] + artist@,
        SearchPaletteItem::Artist { name, .. } => name@,
        SearchPaletteItem::Track { title, .. } => title@,
    }
}

/// The text a search entry is matched against: an album's title and artist, an artist's
/// name, a track's title.
pub fn search_match_text(item: &SearchPaletteItem) -> (r: String)
    ensures
        r@ == match_text_spec(*item),
{
    match item {
        SearchPaletteItem::Album { title, artist, .. } => {
            let mut r = String::new();
            push_str(&mut r, title.as_str());
            push_char(&mut r, ' ');
            push_str(&mut r, artist.as_str());
            assert(r@ =~= title@ + seq![' '] + artist@);
            r
        },
        SearchPaletteItem::Artist { name, .. } => name.clone(),
        SearchPaletteItem::Track { title, .. } => title.clone(),
    }
}

/// What the search palette injects for its entries: each entry's number with the matcher's
/// form of its match text.
pub open spec fn search_entries(start: int, items: Seq<SearchPaletteItem>) -> Seq<(u64, Seq<char>)> {
    Seq::new(items.len(), |k: int| ((start + k) as u64, matched_text(match_text_spec(items[k]))))
}

/// The match text of each search entry.
fn match_texts(items: &Vec<SearchPaletteItem>) -> (r: Vec<String>)
    ensures
        r@.len() == items@.len(),
        forall|k: int| 0 <= k < items@.len() ==> #[trigger] r@[k]@ == match_text_spec(items@[k]),
{
    let mut r: Vec<String> = Vec::new();
    let mut i: usize = 0;
    while i < items.len()
        invariant
            i <= items@.len(),
            r@.len() == i,
            forall|k: int| 0 <= k < i ==> #[trigger] r@[k]@ == match_text_spec(items@[k]),
        decreases items.len() - i,
    {
        r.push(search_match_text(&items[i]));
        i = i + 1;
    }
    r
}

/// The search palette's finder over `items`, each matched by its match text.
pub fn search_finder(items: Vec<SearchPaletteItem>) -> (r: FuzzyFinder<SearchPaletteItem>)
    ensures
        r.wf(),
        r.items_seq() == items@,
        r.base_number() == 0,
        r.query_seq() == Seq::<char>::empty(),
        r.listed() == Seq::<u64>::empty(),
        r.selected() == 0,
        injected(r.matcher_state()) == search_entries(0, items@),
{
    let texts = match_texts(&items);
    let ghost all = items@;
    let r = FuzzyFinder::new(items, &texts);
    proof {
        assert(crate::finder::numbered(0, texts@) =~= search_entries(0, all));
    }
    r
}

/// Hands the search palette the entries loaded after a scan.
pub fn reload_search_items(finder: &mut FuzzyFinder<SearchPaletteItem>, items: Vec<SearchPaletteItem>)
    requires
        old(finder).wf(),
        old(finder).base_number() + old(finder).items_seq().len() + items@.len() <= u64::MAX,
    ensures
        final(finder).wf(),
        final(finder).items_seq() == old(finder).items_seq() + items@,
        final(finder).base_number() == old(finder).base_number(),
        injected(final(finder).matcher_state()) == search_entries(
            old(finder).base_number() + old(finder).items_seq().len(),
            items@,
        ),
        final(finder).query_seq() == old(finder).query_seq(),
        final(finder).listed() == old(finder).listed(),
        final(finder).selected() == old(finder).selected(),
{
    let texts = match_texts(&items);
    let ghost all = items@;
    let ghost start = finder.base_number() + finder.items_seq().len();
    finder.replace_items(items, &texts);
    proof {
        assert(crate::finder::numbered(start, texts@) =~= search_entries(start, all));
    }
}

/// The view opened by accepting the selected search entry, if one is selected and opens one.
pub fn accept_search_selection(finder: &FuzzyFinder<SearchPaletteItem>) -> (r: Option<
    ViewSwitchMessage,
>)
    requires
        finder.wf(),
    ensures
        r == match finder.selected_item() {
            Some(item) => accept_spec(item),
            None => None,
        },
{
    match finder.accept() {
        Some(item) => accept_search_item(item),
        None => None,
    }
}

/// The most matches the finder lists.
pub const MATCH_LIMIT: usize = 100;

/// How many matches the finder lists: all of them, up to the limit.
pub fn match_limit(count: usize) -> (r: usize)
    ensures
        r == if count < MATCH_LIMIT { count } else { MATCH_LIMIT },
{
    if count < MATCH_LIMIT {
        count
    } else {
        MATCH_LIMIT
    }
}

/// The selection after moving up in the finder.
pub fn finder_select_previous(selection: usize) -> (r: usize)
    ensures
        r == if selection > 0 { selection - 1 } else { 0int },
{
    if selection > 0 {
        selection - 1
    } else {
        selection
    }
}

/// The selection after moving down in a finder listing `item_count` matches.
pub fn finder_select_next(selection: usize, item_count: usize) -> (r: usize)
    ensures
        r == if selection < (if item_count > 0 { item_count - 1 } else { 0 }) {
            selection + 1
        } else {
            selection as int
        },
{
    let max_idx: usize = if item_count > 0 {
        item_count - 1
    } else {
        0
    };
    if selection < max_idx {
        selection + 1
    } else {
        selection
    }
}

} // verus!
