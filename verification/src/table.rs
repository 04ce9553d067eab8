use vstd::prelude::*;
use indexmap::IndexMap;
use rustc_hash::FxBuildHasher;
use crate::column_map::{
    column_entries, column_map_contains_key, column_map_get, column_map_get_index, column_map_insert,
    column_map_len, column_map_new, column_map_set_value_at, column_map_shift_insert, column_map_shift_remove, entries_insert,
    entries_remove, entries_shift_insert, has_key, key_index, lemma_insert_unique, lemma_key_index,
    lemma_remove_unique, lemma_shift_insert_unique, lookup, unique_keys,
};

verus! {

/// The width given to a column that has neither a remembered nor a default width: the bit
/// pattern of one hundred pixels.
pub const FALLBACK_COLUMN_WIDTH: u32 = 0x42c8_0000u32;

/// A column a table can show.
#[derive(Clone, Debug)]
pub struct ColumnSpec {
    pub id: u64,
    /// The name under which the column's settings are stored.
    pub name: String,
    pub hideable: bool,
    pub resizable: bool,
}

#[derive(Clone, Copy, Debug, PartialEq, Eq, Structural)]
pub enum TableViewMode {
    List,
    Grid,
}

/// How the view mode is stored in the settings.
#[derive(Clone, Copy, Debug, PartialEq, Eq, Structural)]
pub enum TableViewModeSetting {
    List,
    Grid,
}

/// The stored settings of one table: widths by column name (the bit patterns of the widths),
/// the names of the hidden columns, and the view mode.
#[derive(Clone, Debug)]
pub struct TableSettings {
    pub column_widths: Vec<(String, u32)>,
    pub hidden_columns: Vec<String>,
    pub view_mode: TableViewModeSetting,
}

/// The column rows are sorted by.
#[derive(Clone, Copy, Debug, PartialEq, Eq, Structural)]
pub struct TableSort {
    pub column: u64,
    pub ascending: bool,
}

/// The column state of a table: the visible columns in order with their widths, the widths
/// remembered for hidden columns, the view mode and the sort order.
pub struct Table {
    name: String,
    catalogue: Vec<ColumnSpec>,
    default_columns: Vec<(u64, u32)>,
    columns: IndexMap<u64, u32, FxBuildHasher>,
    hidden_column_widths: Vec<(u64, u32)>,
    view_mode: TableViewMode,
    sort_method: Option<TableSort>,
}

pub open spec fn in_catalogue(cat: Seq<ColumnSpec>, id: u64) -> bool {
    exists|i: int| 0 <= i < cat.len() && cat[i].id == id
}

pub open spec fn catalogue_index(cat: Seq<ColumnSpec>, id: u64) -> int {
    choose|i: int| 0 <= i < cat.len() && cat[i].id == id
}

pub open spec fn hideable_spec(cat: Seq<ColumnSpec>, id: u64) -> bool {
    in_catalogue(cat, id) && cat[catalogue_index(cat, id)].hideable
}

pub open spec fn name_of(cat: Seq<ColumnSpec>, id: u64) -> Seq<char> {
    cat[catalogue_index(cat, id)].name@
}

pub open spec fn catalogue_wf(cat: Seq<ColumnSpec>) -> bool {
    &&& forall|i: int, j: int|
        0 <= i < cat.len() && 0 <= j < cat.len() && i != j ==> cat[i].id != cat[j].id
    &&& forall|i: int, j: int|
        0 <= i < cat.len() && 0 <= j < cat.len() && i != j ==> cat[i].name@ != cat[j].name@
}

pub open spec fn keys_in_catalogue(s: Seq<(u64, u32)>, cat: Seq<ColumnSpec>) -> bool {
    forall|i: int| 0 <= i < s.len() ==> in_catalogue(cat, #[trigger] s[i].0)
}

/// The width stored under `name` in the settings (the first entry with that name).
pub open spec fn setting_width(ws: Seq<(String, u32)>, name: Seq<char>) -> Option<u32>
    decreases ws.len(),
{
    if ws.len() == 0 {
        None
    } else if ws[0].0@ == name {
        Some(ws[0].1)
    } else {
        setting_width(ws.skip(1), name)
    }
}

pub open spec fn setting_hides(hidden: Seq<String>, name: Seq<char>) -> bool {
    exists|i: int| 0 <= i < hidden.len() && hidden[i]@ == name
}

/// The visible columns and hidden widths built from the first `n` default columns.
pub open spec fn built_spec(
    cat: Seq<ColumnSpec>,
    defaults: Seq<(u64, u32)>,
    settings: TableSettings,
    n: int,
) -> (Seq<(u64, u32)>, Seq<(u64, u32)>)
    decreases n,
{
    if n <= 0 {
        (Seq::empty(), Seq::empty())
    } else {
        let prev = built_spec(cat, defaults, settings, n - 1);
        let col = defaults[n - 1].0;
        let name = name_of(cat, col);
        let w = match setting_width(settings.column_widths@, name) {
            Some(w) => w,
            None => defaults[n - 1].1,
        };
        if setting_hides(settings.hidden_columns@, name) && hideable_spec(cat, col) {
            (prev.0, entries_insert(prev.1, col, w))
        } else {
            (entries_insert(prev.0, col, w), prev.1)
        }
    }
}

/// The columns a table starts with: without settings the default columns in their order and
/// nothing hidden; with settings, each default column takes its stored width (else its
/// default width) and goes to the hidden columns when the settings hide it and it can be
/// hidden, else to the visible ones.
pub open spec fn columns_from_settings(
    cat: Seq<ColumnSpec>,
    defaults: Seq<(u64, u32)>,
    settings: Option<TableSettings>,
) -> (Seq<(u64, u32)>, Seq<(u64, u32)>) {
    match settings {
        None => (defaults, Seq::empty()),
        Some(s) => built_spec(cat, defaults, s, defaults.len() as int),
    }
}

/// Hiding a column that can be hidden removes it from the visible columns and remembers its
/// width; other columns are left as they are.
pub open spec fn hide_spec(
    cat: Seq<ColumnSpec>,
    vis: Seq<(u64, u32)>,
    hid: Seq<(u64, u32)>,
    k: u64,
) -> (Seq<(u64, u32)>, Seq<(u64, u32)>) {
    if !hideable_spec(cat, k) {
        (vis, hid)
    } else {
        (
            entries_remove(vis, k),
            match lookup(vis, k) {
                Some(w) => entries_insert(hid, k, w),
                None => hid,
            },
        )
    }
}

/// The width a shown column gets: the remembered one, else its default width, else the
/// fallback.
pub open spec fn show_width(defaults: Seq<(u64, u32)>, hid: Seq<(u64, u32)>, k: u64) -> u32 {
    match lookup(hid, k) {
        Some(w) => w,
        None => match lookup(defaults, k) {
            Some(w) => w,
            None => FALLBACK_COLUMN_WIDTH,
        },
    }
}

/// The place of `k` in the default order (the first place when it has none).
pub open spec fn default_rank(defaults: Seq<(u64, u32)>, k: u64) -> int {
    if has_key(defaults, k) {
        key_index(defaults, k)
    } else {
        0
    }
}

/// Where a shown column goes: just after the last of the first `n` visible columns that comes
/// before it in the default order (at the start when there is none).
pub open spec fn insert_index(
    vis: Seq<(u64, u32)>,
    defaults: Seq<(u64, u32)>,
    target: int,
    n: int,
) -> int
    decreases n,
{
    if n <= 0 {
        0
    } else if has_key(defaults, vis[n - 1].0) && key_index(defaults, vis[n - 1].0) < target {
        n
    } else {
        insert_index(vis, defaults, target, n - 1)
    }
}

pub open spec fn show_index(vis: Seq<(u64, u32)>, defaults: Seq<(u64, u32)>, k: u64) -> int {
    insert_index(vis, defaults, default_rank(defaults, k), vis.len() as int)
}

pub open spec fn show_spec(
    defaults: Seq<(u64, u32)>,
    vis: Seq<(u64, u32)>,
    hid: Seq<(u64, u32)>,
    k: u64,
) -> (Seq<(u64, u32)>, Seq<(u64, u32)>) {
    (
        entries_shift_insert(vis, show_index(vis, defaults, k), k, show_width(defaults, hid, k)),
        entries_remove(hid, k),
    )
}

/// Clicking a column header sorts by it ascending, or flips the direction when the rows are
/// already sorted by it.
pub open spec fn next_sort_spec(current: Option<TableSort>, column: u64) -> Option<TableSort> {
    match current {
        Some(m) => if m.column == column {
            Some(TableSort { column, ascending: !m.ascending })
        } else {
            Some(TableSort { column, ascending: true })
        },
        None => Some(TableSort { column, ascending: true }),
    }
}

pub open spec fn mode_from_setting(settings: Option<TableSettings>) -> TableViewMode {
    match settings {
        Some(s) => if s.view_mode is Grid {
            TableViewMode::Grid
        } else {
            TableViewMode::List
        },
        None => TableViewMode::List,
    }
}

pub open spec fn widths_view(ws: Seq<(String, u32)>) -> Seq<(Seq<char>, u32)> {
    ws.map_values(|p: (String, u32)| (p.0@, p.1))
}

pub open spec fn named_widths(cat: Seq<ColumnSpec>, s: Seq<(u64, u32)>) -> Seq<(Seq<char>, u32)> {
    s.map_values(|e: (u64, u32)| (name_of(cat, e.0), e.1))
}

pub open spec fn names_view(ns: Seq<String>) -> Seq<Seq<char>> {
    ns.map_values(|n: String| n@)
}


/// The visible columns are all default columns, in the default order.
pub open spec fn in_default_order(vis: Seq<(u64, u32)>, defaults: Seq<(u64, u32)>) -> bool {
    &&& forall|i: int| 0 <= i < vis.len() ==> has_key(defaults, #[trigger] vis[i].0)
    &&& forall|i: int, j: int|
        0 <= i < j < vis.len() ==> key_index(defaults, #[trigger] vis[i].0) < key_index(
            defaults,
            #[trigger] vis[j].0,
        )
}

/// In a visible list in default order with the column at `i` taken out, the column goes back
/// at `i`.
proof fn lemma_insert_index_sorted(
    vis: Seq<(u64, u32)>,
    defaults: Seq<(u64, u32)>,
    i: int,
    n: int,
)
    requires
        unique_keys(vis),
        in_default_order(vis, defaults),
        0 <= i < vis.len(),
        i <= n <= vis.len() - 1,
    ensures
        insert_index(
            vis.remove(i),
            defaults,
            key_index(defaults, vis[i].0),
            n,
        ) == i,
    decreases n,
{
    let v1 = vis.remove(i);
    let target = key_index(defaults, vis[i].0);
    if n > i {
        assert(v1[n - 1] == vis[n]);
        assert(key_index(defaults, vis[i].0) < key_index(defaults, vis[n].0));
        lemma_insert_index_sorted(vis, defaults, i, n - 1);
    } else if n > 0 {
        assert(v1[n - 1] == vis[n - 1]);
        assert(key_index(defaults, vis[n - 1].0) < key_index(defaults, vis[i].0));
    }
}

/// Hiding a shown column and showing it again brings back the width it had, and forgets the
/// remembered width again.
pub proof fn hide_then_show_restores_width(
    cat: Seq<ColumnSpec>,
    defaults: Seq<(u64, u32)>,
    vis: Seq<(u64, u32)>,
    hid: Seq<(u64, u32)>,
    k: u64,
)
    requires
        unique_keys(vis),
        unique_keys(hid),
        has_key(vis, k),
        hideable_spec(cat, k),
    ensures
        ({
            let hidden = hide_spec(cat, vis, hid, k);
            let shown = show_spec(defaults, hidden.0, hidden.1, k);
            &&& !has_key(hidden.0, k)
            &&& lookup(hidden.1, k) == lookup(vis, k)
            &&& lookup(shown.0, k) == lookup(vis, k)
            &&& !has_key(shown.1, k)
        }),
{
    let w = lookup(vis, k)->0;
    lemma_remove_unique(vis, k);
    lemma_insert_unique(hid, k, w);
    let v1 = entries_remove(vis, k);
    let h1 = entries_insert(hid, k, w);
    let idx = show_index(v1, defaults, k);
    lemma_insert_index_bound(v1, defaults, default_rank(defaults, k), v1.len() as int);
    lemma_shift_insert_unique(v1, idx, k, w);
    let v2 = entries_shift_insert(v1, idx, k, w);
    lemma_key_index(v2, k, idx);
    lemma_remove_unique(h1, k);
}

proof fn lemma_insert_index_bound(
    vis: Seq<(u64, u32)>,
    defaults: Seq<(u64, u32)>,
    target: int,
    n: int,
)
    requires
        0 <= n <= vis.len(),
    ensures
        0 <= insert_index(vis, defaults, target, n) <= n,
    decreases n,
{
    if n > 0 {
        lemma_insert_index_bound(vis, defaults, target, n - 1);
    }
}

/// When the shown columns are in the default order, hiding a shown column and showing it
/// again restores the table exactly: the same columns in the same order with the same widths,
/// and the same remembered widths.
pub proof fn toggle_twice_restores_columns(
    cat: Seq<ColumnSpec>,
    defaults: Seq<(u64, u32)>,
    vis: Seq<(u64, u32)>,
    hid: Seq<(u64, u32)>,
    k: u64,
)
    requires
        unique_keys(vis),
        unique_keys(hid),
        unique_keys(defaults),
        forall|q: u64| !(has_key(vis, q) && has_key(hid, q)),
        in_default_order(vis, defaults),
        has_key(vis, k),
        hideable_spec(cat, k),
    ensures
        ({
            let hidden = hide_spec(cat, vis, hid, k);
            show_spec(defaults, hidden.0, hidden.1, k) == (vis, hid)
        }),
{
    let i = key_index(vis, k);
    let w = vis[i].1;
    lemma_key_index(vis, k, i);
    lemma_remove_unique(vis, k);
    lemma_insert_unique(hid, k, w);
    let v1 = entries_remove(vis, k);
    let h1 = entries_insert(hid, k, w);
    assert(v1 == vis.remove(i));
    assert(has_key(defaults, vis[i].0));
    assert(default_rank(defaults, k) == key_index(defaults, vis[i].0));
    lemma_insert_index_sorted(vis, defaults, i, vis.len() - 1);
    assert(show_index(v1, defaults, k) == i);
    assert(show_width(defaults, h1, k) == w);
    assert(!has_key(v1, k));
    assert(v1.insert(i, (k, w)) =~= vis);
    assert(!has_key(hid, k));
    assert(h1 == hid.push((k, w)));
    lemma_key_index(h1, k, hid.len() as int);
    assert(entries_remove(h1, k) =~= hid);
}


/// Different columns of a catalogue have different names.
proof fn lemma_names_differ(cat: Seq<ColumnSpec>, x: u64, y: u64)
    requires
        catalogue_wf(cat),
        in_catalogue(cat, x),
        in_catalogue(cat, y),
        x != y,
    ensures
        name_of(cat, x) != name_of(cat, y),
{
    let i = catalogue_index(cat, x);
    let j = catalogue_index(cat, y);
    assert(cat[i].id == x && cat[j].id == y);
}

/// With exactly one entry named `nm`, its width is the one looked up.
proof fn lemma_setting_width_at(ws: Seq<(String, u32)>, nm: Seq<char>, j: int)
    requires
        0 <= j < ws.len(),
        ws[j].0@ == nm,
        forall|i: int| 0 <= i < ws.len() && i != j ==> (#[trigger] ws[i]).0@ != nm,
    ensures
        setting_width(ws, nm) == Some(ws[j].1),
    decreases ws.len(),
{
    if j > 0 {
        let rest = ws.skip(1);
        assert(ws[0].0@ != nm);
        assert forall|i: int| 0 <= i < rest.len() && i != j - 1 implies (#[trigger] rest[i]).0@
            != nm by {
            assert(rest[i] == ws[i + 1]);
        }
        lemma_setting_width_at(rest, nm, j - 1);
    }
}

/// The columns a table's settings record, when fed back to a new table of the same columns,
/// rebuild its columns: the same visible columns in the same order with the same widths, and
/// the same remembered widths for the hidden ones. This holds when every default column is
/// either shown or hidden, no other column is, the shown ones are in the default order, and
/// the hidden ones can be hidden (as for a table built from the defaults and then changed by
/// hiding and showing its columns).
pub proof fn settings_round_trip(
    cat: Seq<ColumnSpec>,
    defaults: Seq<(u64, u32)>,
    vis: Seq<(u64, u32)>,
    hid: Seq<(u64, u32)>,
    settings: TableSettings,
)
    requires
        catalogue_wf(cat),
        unique_keys(defaults),
        keys_in_catalogue(defaults, cat),
        unique_keys(vis),
        unique_keys(hid),
        forall|k: u64| !(has_key(vis, k) && has_key(hid, k)),
        forall|k: u64| has_key(vis, k) || has_key(hid, k) <==> has_key(defaults, k),
        in_default_order(vis, defaults),
        forall|i: int| 0 <= i < hid.len() ==> hideable_spec(cat, #[trigger] hid[i].0),
        widths_view(settings.column_widths@) == named_widths(cat, vis) + named_widths(cat, hid),
        names_view(settings.hidden_columns@) == hid.map_values(
            |e: (u64, u32)| name_of(cat, e.0),
        ),
    ensures
        columns_from_settings(cat, defaults, Some(settings)).0 == vis,
        forall|k: u64| #[trigger]
            lookup(columns_from_settings(cat, defaults, Some(settings)).1, k) == lookup(hid, k),
{
    let n = defaults.len() as int;
    let c = lemma_built_prefix(cat, defaults, vis, hid, settings, n);
    assert(c == vis.len()) by {
        if c < vis.len() {
            let i = c;
            assert(has_key(defaults, vis[i].0));
            let q = key_index(defaults, vis[i].0);
            assert(defaults[q].0 == vis[i].0);
            assert(key_index(defaults, vis[i].0) >= n);
        }
    }
    assert(vis.take(c) == vis);
    assert forall|k: u64| #[trigger]
        lookup(columns_from_settings(cat, defaults, Some(settings)).1, k) == lookup(hid, k) by {
        if has_key(hid, k) {
            assert(has_key(defaults, k));
            let q = key_index(defaults, k);
            assert(defaults[q].0 == k);
        }
    }
}

/// After the first `n` default columns, the visible columns built are the visible columns
/// that come before the `n`-th default column (a prefix of them, of length `c`), and the
/// hidden widths are those of the hidden columns that come before it.
proof fn lemma_built_prefix(
    cat: Seq<ColumnSpec>,
    defaults: Seq<(u64, u32)>,
    vis: Seq<(u64, u32)>,
    hid: Seq<(u64, u32)>,
    settings: TableSettings,
    n: int,
) -> (c: int)
    requires
        catalogue_wf(cat),
        unique_keys(defaults),
        keys_in_catalogue(defaults, cat),
        unique_keys(vis),
        unique_keys(hid),
        forall|k: u64| !(has_key(vis, k) && has_key(hid, k)),
        forall|k: u64| has_key(vis, k) || has_key(hid, k) <==> has_key(defaults, k),
        in_default_order(vis, defaults),
        forall|i: int| 0 <= i < hid.len() ==> hideable_spec(cat, #[trigger] hid[i].0),
        widths_view(settings.column_widths@) == named_widths(cat, vis) + named_widths(cat, hid),
        names_view(settings.hidden_columns@) == hid.map_values(
            |e: (u64, u32)| name_of(cat, e.0),
        ),
        0 <= n <= defaults.len(),
    ensures
        0 <= c <= vis.len(),
        built_spec(cat, defaults, settings, n).0 == vis.take(c),
        forall|i: int| 0 <= i < c ==> key_index(defaults, #[trigger] vis[i].0) < n,
        forall|i: int| c <= i < vis.len() ==> key_index(defaults, #[trigger] vis[i].0) >= n,
        unique_keys(built_spec(cat, defaults, settings, n).1),
        forall|k: u64| #[trigger]
            lookup(built_spec(cat, defaults, settings, n).1, k) == if has_key(hid, k)
                && key_index(defaults, k) < n {
                lookup(hid, k)
            } else {
                None
            },
    decreases n,
{
    if n == 0 {
        assert(vis.take(0) =~= Seq::<(u64, u32)>::empty());
        assert forall|i: int| 0 <= i < vis.len() implies key_index(
            defaults,
            #[trigger] vis[i].0,
        ) >= 0 by {
            assert(has_key(defaults, vis[i].0));
        }
        return 0;
    }
    let c0 = lemma_built_prefix(cat, defaults, vis, hid, settings, n - 1);
    let prev = built_spec(cat, defaults, settings, n - 1);
    let d = defaults[n - 1].0;
    lemma_key_index(defaults, d, n - 1);
    assert(in_catalogue(cat, d));
    let nm = name_of(cat, d);
    let ws = settings.column_widths@;
    let wv = widths_view(ws);
    let nv = named_widths(cat, vis);
    let nh = named_widths(cat, hid);
    assert(wv.len() == ws.len());
    assert(has_key(vis, d) || has_key(hid, d));
    // The stored width of `d` is its width in the table.
    let w: u32 = if has_key(vis, d) {
        vis[key_index(vis, d)].1
    } else {
        hid[key_index(hid, d)].1
    };
    let j: int = if has_key(vis, d) {
        key_index(vis, d)
    } else {
        vis.len() + key_index(hid, d)
    };
    assert(wv[j] == (ws[j].0@, ws[j].1));
    assert(ws[j].0@ == nm && ws[j].1 == w) by {
        if has_key(vis, d) {
            assert(wv[j] == nv[j]);
        } else {
            assert(wv[j] == nh[j - vis.len()]);
        }
    }
    assert forall|i: int| 0 <= i < ws.len() && i != j implies (#[trigger] ws[i]).0@ != nm by {
        assert(wv[i] == (ws[i].0@, ws[i].1));
        if i < vis.len() {
            assert(wv[i] == nv[i]);
            assert(has_key(vis, vis[i].0));
            assert(vis[i].0 != d) by {
                if has_key(vis, d) {
                    lemma_key_index(vis, d, key_index(vis, d));
                }
            }
            assert(has_key(defaults, vis[i].0));
            let q = key_index(defaults, vis[i].0);
            assert(in_catalogue(cat, defaults[q].0));
            lemma_names_differ(cat, vis[i].0, d);
        } else {
            let h = i - vis.len();
            assert(wv[i] == nh[h]);
            assert(has_key(hid, hid[h].0));
            assert(hid[h].0 != d) by {
                if has_key(hid, d) {
                    lemma_key_index(hid, d, key_index(hid, d));
                }
            }
            assert(has_key(defaults, hid[h].0));
            let q = key_index(defaults, hid[h].0);
            assert(in_catalogue(cat, defaults[q].0));
            lemma_names_differ(cat, hid[h].0, d);
        }
    }
    lemma_setting_width_at(ws, nm, j);
    // The settings hide `d` exactly when it is hidden.
    let hv = names_view(settings.hidden_columns@);
    assert(setting_hides(settings.hidden_columns@, nm) == has_key(hid, d)) by {
        assert(hv.len() == settings.hidden_columns@.len());
        assert(hv.len() == hid.len());
        if has_key(hid, d) {
            let h = key_index(hid, d);
            assert(hv[h] == settings.hidden_columns@[h]@);
        }
        if setting_hides(settings.hidden_columns@, nm) {
            let h = choose|h: int|
                0 <= h < settings.hidden_columns@.len() && settings.hidden_columns@[h]@ == nm;
            assert(hv[h] == settings.hidden_columns@[h]@);
            assert(hv[h] == name_of(cat, hid[h].0));
            assert(has_key(hid, hid[h].0));
            if hid[h].0 != d {
                let q = key_index(defaults, hid[h].0);
                assert(has_key(defaults, hid[h].0));
                assert(in_catalogue(cat, defaults[q].0));
                lemma_names_differ(cat, hid[h].0, d);
            }
        }
    }
    if has_key(hid, d) {
        let h = key_index(hid, d);
        assert(hideable_spec(cat, hid[h].0));
    }
    lemma_insert_unique(prev.1, d, w);
    if has_key(vis, d) {
        let jv = key_index(vis, d);
        lemma_key_index(vis, d, jv);
        assert(key_index(defaults, vis[jv].0) == n - 1);
        assert(jv == c0) by {
            if jv < c0 {
            } else if jv > c0 {
                assert(key_index(defaults, vis[c0].0) < key_index(defaults, vis[jv].0));
            }
        }
        assert(!has_key(vis.take(c0), d)) by {
            if has_key(vis.take(c0), d) {
                let q = key_index(vis.take(c0), d);
                assert(vis[q].0 == d);
            }
        }
        assert(vis.take(c0).push((d, w)) == vis.take(c0 + 1));
        assert forall|i: int| c0 + 1 <= i < vis.len() implies key_index(
            defaults,
            #[trigger] vis[i].0,
        ) >= n by {
            assert(key_index(defaults, vis[c0].0) < key_index(defaults, vis[i].0));
        }
        assert forall|k: u64| #[trigger]
            lookup(built_spec(cat, defaults, settings, n).1, k) == if has_key(hid, k)
                && key_index(defaults, k) < n {
                lookup(hid, k)
            } else {
                None
            } by {
            if k == d {
                assert(!has_key(hid, d));
            } else if has_key(hid, k) {
                assert(has_key(defaults, k));
                let q = key_index(defaults, k);
                assert(defaults[q].0 == k);
                assert(q != n - 1);
            }
        }
        c0 + 1
    } else {
        assert(has_key(hid, d));
        let jh = key_index(hid, d);
        lemma_key_index(hid, d, jh);
        assert(hideable_spec(cat, d));
        assert(setting_width(ws, nm) == Some(w));
        assert(built_spec(cat, defaults, settings, n) == (prev.0, entries_insert(prev.1, d, w)));
        assert(lookup(hid, d) == Some(w));
        assert forall|i: int| c0 <= i < vis.len() implies key_index(
            defaults,
            #[trigger] vis[i].0,
        ) >= n by {
            assert(has_key(defaults, vis[i].0));
            let q = key_index(defaults, vis[i].0);
            assert(defaults[q].0 == vis[i].0);
            if q == n - 1 {
                assert(has_key(vis, d));
            }
        }
        assert forall|k: u64| #[trigger]
            lookup(built_spec(cat, defaults, settings, n).1, k) == if has_key(hid, k)
                && key_index(defaults, k) < n {
                lookup(hid, k)
            } else {
                None
            } by {
            if k == d {
                assert(lookup(entries_insert(prev.1, d, w), d) == Some(w));
                assert(key_index(defaults, d) == n - 1);
            } else {
                assert(lookup(entries_insert(prev.1, d, w), k) == lookup(prev.1, k));
                if has_key(hid, k) {
                    assert(has_key(defaults, k));
                    let q = key_index(defaults, k);
                    assert(defaults[q].0 == k);
                    assert(q != n - 1);
                }
            }
        }
        c0
    }
}

/// The index of the first entry with key `k` in a vector of entries.
fn find_entry(v: &Vec<(u64, u32)>, k: u64) -> (r: Option<usize>)
    requires
        unique_keys(v@),
    ensures
        match r {
            Some(i) => i < v@.len() && v@[i as int].0 == k && has_key(v@, k) && key_index(v@, k)
                == i,
            None => !has_key(v@, k),
        },
{
    let mut i: usize = 0;
    while i < v.len()
        invariant
            0 <= i <= v@.len(),
            unique_keys(v@),
            forall|j: int| 0 <= j < i ==> v@[j].0 != k,
        decreases v@.len() - i,
    {
        if v[i].0 == k {
            proof {
                lemma_key_index(v@, k, i as int);
            }
            return Some(i);
        }
        i = i + 1;
    }
    None
}

/// Stores a width under a key in a vector of entries.
fn entries_vec_insert(v: &mut Vec<(u64, u32)>, k: u64, w: u32)
    requires
        unique_keys(old(v)@),
    ensures
        final(v)@ == entries_insert(old(v)@, k, w),
{
    match find_entry(v, k) {
        Some(i) => {
            v.set(i, (k, w));
        },
        None => {
            v.push((k, w));
        },
    }
}

/// Removes a key from a vector of entries.
fn entries_vec_remove(v: &mut Vec<(u64, u32)>, k: u64)
    requires
        unique_keys(old(v)@),
    ensures
        final(v)@ == entries_remove(old(v)@, k),
{
    match find_entry(v, k) {
        Some(i) => {
            v.remove(i);
        },
        None => {},
    }
}

/// The index of column `id` in the catalogue.
fn find_column(cat: &Vec<ColumnSpec>, id: u64) -> (r: Option<usize>)
    requires
        catalogue_wf(cat@),
    ensures
        match r {
            Some(i) => i < cat@.len() && cat@[i as int].id == id && in_catalogue(cat@, id)
                && catalogue_index(cat@, id) == i,
            None => !in_catalogue(cat@, id),
        },
{
    let mut i: usize = 0;
    while i < cat.len()
        invariant
            0 <= i <= cat@.len(),
            catalogue_wf(cat@),
            forall|j: int| 0 <= j < i ==> cat@[j].id != id,
        decreases cat@.len() - i,
    {
        if cat[i].id == id {
            proof {
                assert(in_catalogue(cat@, id));
                let c = catalogue_index(cat@, id);
                assert(cat@[c].id == id);
            }
            return Some(i);
        }
        i = i + 1;
    }
    None
}

/// The width stored under `name` in the settings.
fn find_setting_width(ws: &Vec<(String, u32)>, name: &String) -> (r: Option<u32>)
    ensures
        r == setting_width(ws@, name@),
{
    let mut i: usize = 0;
    assert(ws@.skip(0) == ws@);
    while i < ws.len()
        invariant
            0 <= i <= ws@.len(),
            setting_width(ws@, name@) == setting_width(ws@.skip(i as int), name@),
        decreases ws@.len() - i,
    {
        if ws[i].0 == *name {
            return Some(ws[i].1);
        }
        assert(ws@.skip(i as int).skip(1) == ws@.skip(i + 1));
        i = i + 1;
    }
    None
}

/// Whether the settings hide the column named `name`.
fn settings_hide(hidden: &Vec<String>, name: &String) -> (r: bool)
    ensures
        r == setting_hides(hidden@, name@),
{
    let mut i: usize = 0;
    while i < hidden.len()
        invariant
            0 <= i <= hidden@.len(),
            forall|j: int| 0 <= j < i ==> hidden@[j]@ != name@,
        decreases hidden@.len() - i,
    {
        if hidden[i] == *name {
            return true;
        }
        i = i + 1;
    }
    false
}

impl Table {
    pub closed spec fn visible(&self) -> Seq<(u64, u32)> {
        column_entries(self.columns)
    }

    pub closed spec fn hidden(&self) -> Seq<(u64, u32)> {
        self.hidden_column_widths@
    }

    pub closed spec fn catalogue(&self) -> Seq<ColumnSpec> {
        self.catalogue@
    }

    pub closed spec fn defaults(&self) -> Seq<(u64, u32)> {
        self.default_columns@
    }

    pub closed spec fn name_spec(&self) -> Seq<char> {
        self.name@
    }

    pub closed spec fn mode(&self) -> TableViewMode {
        self.view_mode
    }

    pub closed spec fn sort(&self) -> Option<TableSort> {
        self.sort_method
    }

    pub open spec fn wf(&self) -> bool {
        &&& catalogue_wf(self.catalogue())
        &&& unique_keys(self.defaults())
        &&& keys_in_catalogue(self.defaults(), self.catalogue())
        &&& unique_keys(self.visible())
        &&& keys_in_catalogue(self.visible(), self.catalogue())
        &&& unique_keys(self.hidden())
        &&& keys_in_catalogue(self.hidden(), self.catalogue())
        &&& forall|k: u64| !(has_key(self.visible(), k) && has_key(self.hidden(), k))
    }


    /// Creates the column state of a table named `name`, whose columns are `catalogue` and
    /// whose default columns (in order, with their default widths) are `default_columns`,
    /// from the stored settings when there are any.
    pub fn new(
        name: String,
        catalogue: Vec<ColumnSpec>,
        default_columns: Vec<(u64, u32)>,
        initial_settings: Option<&TableSettings>,
    ) -> (r: Self)
        requires
            catalogue_wf(catalogue@),
            unique_keys(default_columns@),
            keys_in_catalogue(default_columns@, catalogue@),
        ensures
            r.wf(),
            r.name_spec() == name@,
            r.catalogue() == catalogue@,
            r.defaults() == default_columns@,
            (r.visible(), r.hidden()) == columns_from_settings(
                catalogue@,
                default_columns@,
                match initial_settings {
                    Some(s) => Some(*s),
                    None => None,
                },
            ),
            r.mode() == mode_from_setting(
                match initial_settings {
                    Some(s) => Some(*s),
                    None => None,
                },
            ),
            r.sort() is None,
    {
        let (columns, hidden) = Self::build_columns_from_settings(
            &catalogue,
            &default_columns,
            initial_settings,
        );
        let view_mode = match initial_settings {
            Some(s) => match s.view_mode {
                TableViewModeSetting::Grid => TableViewMode::Grid,
                TableViewModeSetting::List => TableViewMode::List,
            },
            None => TableViewMode::List,
        };
        Table {
            name,
            catalogue,
            default_columns,
            columns,
            hidden_column_widths: hidden,
            view_mode,
            sort_method: None,
        }
    }

    /// The name of the table.
    pub fn get_table_name(&self) -> (r: String)
        ensures
            r@ == self.name_spec(),
    {
        self.name.clone()
    }

    /// Whether column `column` is shown.
    pub fn is_visible(&self, column: u64) -> (r: bool)
        ensures
            r == has_key(self.visible(), column),
    {
        column_map_contains_key(&self.columns, column)
    }

    /// Hides a column that can be hidden, remembering its width.
    pub fn hide_column(&mut self, column: u64)
        requires
            old(self).wf(),
        ensures
            final(self).wf(),
            (final(self).visible(), final(self).hidden()) == hide_spec(
                old(self).catalogue(),
                old(self).visible(),
                old(self).hidden(),
                column,
            ),
            final(self).catalogue() == old(self).catalogue(),
            final(self).defaults() == old(self).defaults(),
            final(self).name_spec() == old(self).name_spec(),
            final(self).mode() == old(self).mode(),
            final(self).sort() == old(self).sort(),
    {
        let hideable = match find_column(&self.catalogue, column) {
            Some(i) => self.catalogue[i].hideable,
            None => false,
        };
        if !hideable {
            return;
        }
        let ghost vis = column_entries(self.columns);
        let ghost hid = self.hidden_column_widths@;
        let width = column_map_get(&self.columns, column);
        proof {
            lemma_remove_unique(vis, column);
            if let Some(w) = width {
                lemma_insert_unique(hid, column, w);
            }
        }
        if let Some(w) = width {
            entries_vec_insert(&mut self.hidden_column_widths, column, w);
        }
        column_map_shift_remove(&mut self.columns, column);
        proof {
            let nv = column_entries(self.columns);
            let nh = self.hidden_column_widths@;
            let cat = self.catalogue@;
            assert forall|j: int| 0 <= j < nv.len() implies in_catalogue(cat, #[trigger] nv[j].0) by {
                assert(has_key(nv, nv[j].0));
                let q = key_index(vis, nv[j].0);
                assert(in_catalogue(cat, vis[q].0));
            }
            assert forall|j: int| 0 <= j < nh.len() implies in_catalogue(cat, #[trigger] nh[j].0) by {
                assert(has_key(nh, nh[j].0));
                if has_key(hid, nh[j].0) {
                    let q = key_index(hid, nh[j].0);
                    assert(in_catalogue(cat, hid[q].0));
                } else {
                    assert(width is Some);
                    assert(has_key(vis, column));
                    let q = key_index(vis, column);
                    assert(in_catalogue(cat, vis[q].0));
                }
            }
        }
    }

    /// Where column `column` goes when shown.
    fn insert_position(&self, column: u64) -> (r: usize)
        requires
            self.wf(),
        ensures
            r == show_index(self.visible(), self.defaults(), column),
            r <= self.visible().len(),
    {
        let target: usize = match find_entry(&self.default_columns, column) {
            Some(t) => t,
            None => 0,
        };
        let ghost vis = column_entries(self.columns);
        let len = column_map_len(&self.columns);
        let mut insert_idx: usize = 0;
        let mut idx: usize = 0;
        while idx < len
            invariant
                self.wf(),
                vis == self.visible(),
                len == vis.len(),
                target == default_rank(self.defaults(), column),
                0 <= idx <= len,
                insert_idx == insert_index(vis, self.defaults(), target as int, idx as int),
                insert_idx <= idx,
            decreases len - idx,
        {
            let (key, _) = column_map_get_index(&self.columns, idx).unwrap();
            match find_entry(&self.default_columns, key) {
                Some(pos) => {
                    if pos < target {
                        insert_idx = idx + 1;
                    }
                },
                None => {},
            }
            idx = idx + 1;
        }
        insert_idx
    }

    /// The condition under which showing `column` does not panic: a column that is already
    /// shown must not be moved past the last place.
    pub open spec fn can_show(&self, column: u64) -> bool {
        &&& in_catalogue(self.catalogue(), column)
        &&& has_key(self.visible(), column) ==> show_index(self.visible(), self.defaults(), column)
            < self.visible().len()
    }

    /// Shows a column at its place in the default order, with its remembered width, else its
    /// default width, else the fallback width.
    pub fn show_column(&mut self, column: u64)
        requires
            old(self).wf(),
            old(self).can_show(column),
        ensures
            final(self).wf(),
            (final(self).visible(), final(self).hidden()) == show_spec(
                old(self).defaults(),
                old(self).visible(),
                old(self).hidden(),
                column,
            ),
            final(self).catalogue() == old(self).catalogue(),
            final(self).defaults() == old(self).defaults(),
            final(self).name_spec() == old(self).name_spec(),
            final(self).mode() == old(self).mode(),
            final(self).sort() == old(self).sort(),
    {
        let ghost vis = column_entries(self.columns);
        let ghost hid = self.hidden_column_widths@;
        let width = match find_entry(&self.hidden_column_widths, column) {
            Some(i) => self.hidden_column_widths[i].1,
            None => match find_entry(&self.default_columns, column) {
                Some(i) => self.default_columns[i].1,
                None => FALLBACK_COLUMN_WIDTH,
            },
        };
        let insert_idx = self.insert_position(column);
        proof {
            lemma_remove_unique(vis, column);
            lemma_shift_insert_unique(vis, insert_idx as int, column, width);
            lemma_remove_unique(hid, column);
        }
        column_map_shift_insert(&mut self.columns, insert_idx, column, width);
        entries_vec_remove(&mut self.hidden_column_widths, column);
        proof {
            let nv = column_entries(self.columns);
            let nh = self.hidden_column_widths@;
            let cat = self.catalogue@;
            let rv = entries_remove(vis, column);
            assert(nv == rv.insert(insert_idx as int, (column, width)));
            assert forall|j: int| 0 <= j < nv.len() implies in_catalogue(cat, #[trigger] nv[j].0) by {
                if j != insert_idx {
                    let j2 = if j < insert_idx { j } else { j - 1 };
                    assert(nv[j] == rv[j2]);
                    assert(has_key(rv, rv[j2].0));
                    assert(has_key(entries_remove(vis, column), rv[j2].0));
                    assert(has_key(vis, rv[j2].0));
                    let q = key_index(vis, rv[j2].0);
                    assert(in_catalogue(cat, vis[q].0));
                }
            }
            assert forall|j: int| 0 <= j < nh.len() implies in_catalogue(cat, #[trigger] nh[j].0) by {
                assert(has_key(nh, nh[j].0));
                let q = key_index(hid, nh[j].0);
                assert(in_catalogue(cat, hid[q].0));
            }
            assert forall|k: u64| !(has_key(nv, k) && has_key(nh, k)) by {
                if has_key(nv, k) && k != column {
                    let j = key_index(nv, k);
                    if j != insert_idx {
                        let j2 = if j < insert_idx { j } else { j - 1 };
                        assert(nv[j] == rv[j2]);
                        assert(has_key(rv, k));
                    }
                }
            }
        }
    }

    /// Hides column `column` when it is shown, and shows it otherwise.
    pub fn toggle_column(&mut self, column: u64)
        requires
            old(self).wf(),
            in_catalogue(old(self).catalogue(), column),
        ensures
            final(self).wf(),
            (final(self).visible(), final(self).hidden()) == if has_key(
                old(self).visible(),
                column,
            ) {
                hide_spec(old(self).catalogue(), old(self).visible(), old(self).hidden(), column)
            } else {
                show_spec(old(self).defaults(), old(self).visible(), old(self).hidden(), column)
            },
            final(self).catalogue() == old(self).catalogue(),
            final(self).defaults() == old(self).defaults(),
            final(self).name_spec() == old(self).name_spec(),
            final(self).mode() == old(self).mode(),
            final(self).sort() == old(self).sort(),
    {
        if column_map_contains_key(&self.columns, column) {
            self.hide_column(column);
        } else {
            self.show_column(column);
        }
    }


    /// The name of column `column`.
    fn column_name(&self, column: u64) -> (r: String)
        requires
            self.wf(),
            in_catalogue(self.catalogue(), column),
        ensures
            r@ == name_of(self.catalogue(), column),
    {
        let i = find_column(&self.catalogue, column).unwrap();
        self.catalogue[i].name.clone()
    }

    /// The settings that record this table's columns: the widths of the visible columns in
    /// order, then those of the hidden columns, the names of the hidden columns, and the view
    /// mode.
    pub fn get_settings(&self) -> (r: TableSettings)
        requires
            self.wf(),
        ensures
            widths_view(r.column_widths@) == named_widths(self.catalogue(), self.visible())
                + named_widths(self.catalogue(), self.hidden()),
            names_view(r.hidden_columns@) == self.hidden().map_values(
                |e: (u64, u32)| name_of(self.catalogue(), e.0),
            ),
            (r.view_mode is Grid) == (self.mode() is Grid),
    {
        let mut column_widths: Vec<(String, u32)> = Vec::new();
        let mut hidden_columns: Vec<String> = Vec::new();
        let ghost vis = self.visible();
        let ghost hid = self.hidden();
        let ghost cat = self.catalogue();
        let len = column_map_len(&self.columns);
        let mut i: usize = 0;
        while i < len
            invariant
                self.wf(),
                vis == self.visible(),
                cat == self.catalogue(),
                len == vis.len(),
                0 <= i <= len,
                widths_view(column_widths@) == named_widths(cat, vis.take(i as int)),
            decreases len - i,
        {
            let (col, width) = column_map_get_index(&self.columns, i).unwrap();
            proof {
                assert(in_catalogue(cat, vis[i as int].0));
            }
            let name = self.column_name(col);
            let ghost prev = column_widths@;
            column_widths.push((name, width));
            proof {
                let t = vis.take(i + 1);
                assert(widths_view(prev).len() == prev.len());
                assert(prev.len() == i);
                assert(t == vis.take(i as int).push(vis[i as int]));
                assert forall|k: int| 0 <= k < i + 1 implies #[trigger] widths_view(
                    column_widths@,
                )[k] == named_widths(cat, t)[k] by {
                    if k < i {
                        assert(column_widths@[k] == prev[k]);
                        assert(widths_view(prev)[k] == named_widths(cat, vis.take(i as int))[k]);
                    }
                }
                assert(widths_view(column_widths@) =~= named_widths(cat, t));
            }
            i = i + 1;
        }
        assert(vis.take(len as int) == vis);
        let mut j: usize = 0;
        while j < self.hidden_column_widths.len()
            invariant
                self.wf(),
                vis == self.visible(),
                hid == self.hidden(),
                cat == self.catalogue(),
                0 <= j <= hid.len(),
                widths_view(column_widths@) == named_widths(cat, vis) + named_widths(
                    cat,
                    hid.take(j as int),
                ),
                names_view(hidden_columns@) == hid.take(j as int).map_values(
                    |e: (u64, u32)| name_of(cat, e.0),
                ),
            decreases hid.len() - j,
        {
            let (col, width) = self.hidden_column_widths[j];
            proof {
                assert(in_catalogue(cat, hid[j as int].0));
            }
            let name = self.column_name(col);
            let name2 = self.column_name(col);
            let ghost prev = column_widths@;
            let ghost prev_names = hidden_columns@;
            column_widths.push((name, width));
            hidden_columns.push(name2);
            proof {
                let t = hid.take(j + 1);
                let a = named_widths(cat, vis);
                assert(widths_view(prev).len() == prev.len());
                assert(names_view(prev_names).len() == prev_names.len());
                assert(prev.len() == a.len() + j);
                assert(prev_names.len() == j);
                assert(t == hid.take(j as int).push(hid[j as int]));
                assert forall|k: int| 0 <= k < column_widths@.len() implies #[trigger] widths_view(
                    column_widths@,
                )[k] == (a + named_widths(cat, t))[k] by {
                    if k < prev.len() {
                        assert(column_widths@[k] == prev[k]);
                        assert(widths_view(prev)[k] == (a + named_widths(cat, hid.take(j as int)))[k]);
                    }
                }
                assert forall|k: int| 0 <= k < hidden_columns@.len() implies #[trigger] names_view(
                    hidden_columns@,
                )[k] == t.map_values(|e: (u64, u32)| name_of(cat, e.0))[k] by {
                    if k < prev_names.len() {
                        assert(hidden_columns@[k] == prev_names[k]);
                        assert(names_view(prev_names)[k] == hid.take(j as int).map_values(
                            |e: (u64, u32)| name_of(cat, e.0),
                        )[k]);
                    }
                }
                assert(widths_view(column_widths@) =~= named_widths(cat, vis) + named_widths(
                    cat,
                    hid.take(j + 1),
                ));
                assert(names_view(hidden_columns@) =~= hid.take(j + 1).map_values(
                    |e: (u64, u32)| name_of(cat, e.0),
                ));
            }
            j = j + 1;
        }
        assert(hid.take(hid.len() as int) == hid);
        TableSettings {
            column_widths,
            hidden_columns,
            view_mode: match self.view_mode {
                TableViewMode::List => TableViewModeSetting::List,
                TableViewMode::Grid => TableViewModeSetting::Grid,
            },
        }
    }

    /// The width of the shown column at `index`, counting from the left.
    pub fn column_width_at(&self, index: usize) -> (r: Option<u32>)
        ensures
            r == if index < self.visible().len() {
                Some(self.visible()[index as int].1)
            } else {
                None::<u32>
            },
    {
        match column_map_get_index(&self.columns, index) {
            Some((_, width)) => Some(width),
            None => None,
        }
    }

    /// Gives the shown column at `index` a new width, as dragging its edge or resetting it
    /// does; past the last column nothing changes.
    pub fn set_column_width(&mut self, index: usize, width: u32)
        requires
            old(self).wf(),
        ensures
            final(self).wf(),
            final(self).visible() == if index < old(self).visible().len() {
                old(self).visible().update(index as int, (old(self).visible()[index as int].0, width))
            } else {
                old(self).visible()
            },
            final(self).hidden() == old(self).hidden(),
            final(self).catalogue() == old(self).catalogue(),
            final(self).defaults() == old(self).defaults(),
            final(self).name_spec() == old(self).name_spec(),
            final(self).mode() == old(self).mode(),
            final(self).sort() == old(self).sort(),
    {
        if index < column_map_len(&self.columns) {
            let ghost before = self.visible();
            column_map_set_value_at(&mut self.columns, index, width);
            proof {
                let after = self.visible();
                assert forall|i: int| 0 <= i < after.len() implies after[i].0 == before[i].0 by {}
                assert forall|k: u64| has_key(after, k) == has_key(before, k) by {
                    if has_key(before, k) {
                        let i = choose|i: int| 0 <= i < before.len() && before[i].0 == k;
                        assert(after[i].0 == k);
                    }
                    if has_key(after, k) {
                        let i = choose|i: int| 0 <= i < after.len() && after[i].0 == k;
                        assert(before[i].0 == k);
                    }
                }
            }
        }
    }

    /// The view mode.
    pub fn view_mode(&self) -> (r: TableViewMode)
        ensures
            r == self.mode(),
    {
        self.view_mode
    }

    /// Switches between the list and the grid.
    pub fn set_view_mode(&mut self, mode: TableViewMode)
        requires
            old(self).wf(),
        ensures
            final(self).wf(),
            final(self).mode() == mode,
            final(self).visible() == old(self).visible(),
            final(self).hidden() == old(self).hidden(),
            final(self).catalogue() == old(self).catalogue(),
            final(self).defaults() == old(self).defaults(),
            final(self).sort() == old(self).sort(),
    {
        self.view_mode = mode;
    }

    /// The sort order.
    pub fn sort_method(&self) -> (r: Option<TableSort>)
        ensures
            r == self.sort(),
    {
        self.sort_method
    }

    /// Handles a click on the header of column `column`: the rows get sorted by it ascending,
    /// or in the other direction when they already are sorted by it.
    pub fn click_column_header(&mut self, column: u64)
        requires
            old(self).wf(),
        ensures
            final(self).wf(),
            final(self).sort() == next_sort_spec(old(self).sort(), column),
            final(self).visible() == old(self).visible(),
            final(self).hidden() == old(self).hidden(),
            final(self).catalogue() == old(self).catalogue(),
            final(self).defaults() == old(self).defaults(),
            final(self).mode() == old(self).mode(),
    {
        self.sort_method = match self.sort_method {
            Some(m) => if m.column == column {
                Some(TableSort { column, ascending: !m.ascending })
            } else {
                Some(TableSort { column, ascending: true })
            },
            None => Some(TableSort { column, ascending: true }),
        };
    }

    /// The entries of the column menu, one per column of the catalogue in order: the column,
    /// whether it is shown, and whether it can be hidden (a column that cannot is shown
    /// disabled).
    pub fn column_menu_entries(&self) -> (r: Vec<(u64, bool, bool)>)
        requires
            self.wf(),
        ensures
            r@.len() == self.catalogue().len(),
            forall|i: int|
                0 <= i < r@.len() ==> #[trigger] r@[i] == (
                    self.catalogue()[i].id,
                    has_key(self.visible(), self.catalogue()[i].id),
                    self.catalogue()[i].hideable,
                ),
    {
        let mut r: Vec<(u64, bool, bool)> = Vec::new();
        let mut i: usize = 0;
        while i < self.catalogue.len()
            invariant
                0 <= i <= self.catalogue().len(),
                r@.len() == i,
                forall|j: int|
                    0 <= j < i ==> #[trigger] r@[j] == (
                        self.catalogue()[j].id,
                        has_key(self.visible(), self.catalogue()[j].id),
                        self.catalogue()[j].hideable,
                    ),
            decreases self.catalogue().len() - i,
        {
            let col = self.catalogue[i].id;
            let visible = column_map_contains_key(&self.columns, col);
            r.push((col, visible, self.catalogue[i].hideable));
            i = i + 1;
        }
        r
    }

    /// The header cells in order: the column, its width, the width its resize handle resets to
    /// (its default width, else its current one), and whether it gets a resize handle (a
    /// resizable column that is not the last).
    pub fn header_columns(&self) -> (r: Vec<(u64, u32, u32, bool)>)
        requires
            self.wf(),
        ensures
            r@.len() == self.visible().len(),
            forall|i: int|
                0 <= i < r@.len() ==> {
                    let e = self.visible()[i];
                    &&& (#[trigger] r@[i]).0 == e.0
                    &&& r@[i].1 == e.1
                    &&& r@[i].2 == match lookup(self.defaults(), e.0) {
                        Some(d) => d,
                        None => e.1,
                    }
                    &&& r@[i].3 == (self.catalogue()[catalogue_index(
                        self.catalogue(),
                        e.0,
                    )].resizable && i != r@.len() - 1)
                },
    {
        let len = column_map_len(&self.columns);
        let mut r: Vec<(u64, u32, u32, bool)> = Vec::new();
        let mut i: usize = 0;
        while i < len
            invariant
                self.wf(),
                len == self.visible().len(),
                0 <= i <= len,
                r@.len() == i,
                forall|j: int|
                    0 <= j < i ==> {
                        let e = self.visible()[j];
                        &&& (#[trigger] r@[j]).0 == e.0
                        &&& r@[j].1 == e.1
                        &&& r@[j].2 == match lookup(self.defaults(), e.0) {
                            Some(d) => d,
                            None => e.1,
                        }
                        &&& r@[j].3 == (self.catalogue()[catalogue_index(
                            self.catalogue(),
                            e.0,
                        )].resizable && j != len - 1)
                    },
            decreases len - i,
        {
            let (col, width) = column_map_get_index(&self.columns, i).unwrap();
            let default_width = match find_entry(&self.default_columns, col) {
                Some(d) => self.default_columns[d].1,
                None => width,
            };
            proof {
                assert(in_catalogue(self.catalogue(), self.visible()[i as int].0));
                if has_key(self.defaults(), col) {
                    let d = key_index(self.defaults(), col);
                    lemma_key_index(self.defaults(), col, d);
                }
            }
            let c = find_column(&self.catalogue, col).unwrap();
            let handle = self.catalogue[c].resizable && i != len - 1;
            r.push((col, width, default_width, handle));
            i = i + 1;
        }
        r
    }

    /// Builds the visible columns and the remembered hidden widths from the stored settings.
    fn build_columns_from_settings(
        catalogue: &Vec<ColumnSpec>,
        default_columns: &Vec<(u64, u32)>,
        settings: Option<&TableSettings>,
    ) -> (r: (IndexMap<u64, u32, FxBuildHasher>, Vec<(u64, u32)>))
        requires
            catalogue_wf(catalogue@),
            unique_keys(default_columns@),
            keys_in_catalogue(default_columns@, catalogue@),
        ensures
            (column_entries(r.0), r.1@) == columns_from_settings(
                catalogue@,
                default_columns@,
                match settings {
                    Some(s) => Some(*s),
                    None => None,
                },
            ),
            unique_keys(column_entries(r.0)),
            unique_keys(r.1@),
            keys_in_catalogue(column_entries(r.0), catalogue@),
            keys_in_catalogue(r.1@, catalogue@),
            forall|k: u64| !(has_key(column_entries(r.0), k) && has_key(r.1@, k)),
    {
        let ghost defaults = default_columns@;
        let ghost cat = catalogue@;
        let mut visible = column_map_new();
        let mut hidden: Vec<(u64, u32)> = Vec::new();
        match settings {
            None => {
                let mut i: usize = 0;
                while i < default_columns.len()
                    invariant
                        defaults == default_columns@,
                        unique_keys(defaults),
                        0 <= i <= defaults.len(),
                        column_entries(visible) == defaults.take(i as int),
                    decreases defaults.len() - i,
                {
                    let (col, width) = default_columns[i];
                    proof {
                        if has_key(defaults.take(i as int), col) {
                            let j = key_index(defaults.take(i as int), col);
                            assert(defaults[j].0 == col);
                        }
                        assert(defaults.take(i as int).push((col, width)) == defaults.take(
                            i + 1,
                        ));
                    }
                    column_map_insert(&mut visible, col, width);
                    i = i + 1;
                }
                assert(defaults.take(defaults.len() as int) == defaults);
                (visible, hidden)
            },
            Some(s) => {
                let mut i: usize = 0;
                while i < default_columns.len()
                    invariant
                        defaults == default_columns@,
                        cat == catalogue@,
                        catalogue_wf(cat),
                        unique_keys(defaults),
                        keys_in_catalogue(defaults, cat),
                        0 <= i <= defaults.len(),
                        (column_entries(visible), hidden@) == built_spec(cat, defaults, *s, i as int),
                        unique_keys(column_entries(visible)),
                        unique_keys(hidden@),
                        forall|k: u64|
                            has_key(column_entries(visible), k) || has_key(hidden@, k) ==> exists|
                                j: int,
                            | 0 <= j < i && #[trigger] defaults[j].0 == k,
                        forall|k: u64| !(has_key(column_entries(visible), k) && has_key(hidden@, k)),
                    decreases defaults.len() - i,
                {
                    let (col, default_width) = default_columns[i];
                    let idx = find_column(catalogue, col);
                    proof {
                        assert(in_catalogue(cat, defaults[i as int].0));
                    }
                    let idx = idx.unwrap();
                    let name = &catalogue[idx].name;
                    let width = match find_setting_width(&s.column_widths, name) {
                        Some(w) => w,
                        None => default_width,
                    };
                    proof {
                        assert(!has_key(column_entries(visible), col) && !has_key(hidden@, col)) by {
                            if has_key(column_entries(visible), col) || has_key(hidden@, col) {
                                let j = choose|j: int| 0 <= j < i && #[trigger] defaults[j].0 == col;
                                assert(defaults[j].0 == defaults[i as int].0);
                            }
                        }
                        lemma_insert_unique(column_entries(visible), col, width);
                        lemma_insert_unique(hidden@, col, width);
                    }
                    if settings_hide(&s.hidden_columns, name) && catalogue[idx].hideable {
                        entries_vec_insert(&mut hidden, col, width);
                    } else {
                        column_map_insert(&mut visible, col, width);
                    }
                    proof {
                        assert forall|k: u64|
                            has_key(column_entries(visible), k) || has_key(hidden@, k) implies exists|
                                j: int,
                            | 0 <= j < i + 1 && #[trigger] defaults[j].0 == k by {
                            if k != col {
                                let j = choose|j: int| 0 <= j < i && #[trigger] defaults[j].0 == k;
                                assert(defaults[j].0 == k);
                            } else {
                                assert(defaults[i as int].0 == k);
                            }
                        }
                    }
                    i = i + 1;
                }
                proof {
                    assert forall|j: int|
                        0 <= j < column_entries(visible).len() implies in_catalogue(
                        cat,
                        #[trigger] column_entries(visible)[j].0,
                    ) by {
                        let k = column_entries(visible)[j].0;
                        assert(has_key(column_entries(visible), k));
                        let d = choose|d: int| 0 <= d < i && #[trigger] defaults[d].0 == k;
                        assert(in_catalogue(cat, defaults[d].0));
                    }
                    assert forall|j: int| 0 <= j < hidden@.len() implies in_catalogue(
                        cat,
                        #[trigger] hidden@[j].0,
                    ) by {
                        let k = hidden@[j].0;
                        assert(has_key(hidden@, k));
                        let d = choose|d: int| 0 <= d < i && #[trigger] defaults[d].0 == k;
                        assert(in_catalogue(cat, defaults[d].0));
                    }
                }
                (visible, hidden)
            },
        }
    }
}

/// Clicking the header of the column the rows are sorted by turns the direction around, so a
/// second click on it restores the sort as it was; the first click on any other header (or on
/// an unsorted table) sorts by that column, ascending. Every click sorts by the clicked column.
pub proof fn header_clicks_flip_the_direction(current: Option<TableSort>, column: u64)
    ensures
        current matches Some(m) ==> (m.column == column ==> next_sort_spec(current, column)
            == Some(TableSort { column, ascending: !m.ascending })),
        current matches Some(m) && m.column == column ==> next_sort_spec(
            next_sort_spec(current, column),
            column,
        ) == current,
        !(current matches Some(m) && m.column == column) ==> next_sort_spec(current, column)
            == Some(TableSort { column, ascending: true }),
        !(current matches Some(m) && m.column == column) ==> next_sort_spec(
            next_sort_spec(current, column),
            column,
        ) == Some(TableSort { column, ascending: false }),
        next_sort_spec(current, column) matches Some(s) && s.column == column,
{
}

} // verus!
