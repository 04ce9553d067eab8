use vstd::prelude::*;

verus! {

/// The number of rows needed for `item_count` items laid out `columns` to a row (at least one
/// column).
pub open spec fn row_count_spec(item_count: nat, columns: nat) -> nat {
    let c = if columns == 0 {
        1
    } else {
        columns
    };
    ((item_count + c - 1) / (c as int)) as nat
}

pub fn grid_row_count(item_count: usize, columns: usize) -> (r: usize)
    ensures
        r == row_count_spec(item_count as nat, columns as nat),
{
    let c: usize = if columns == 0 {
        1
    } else {
        columns
    };
    let q = item_count / c;
    if item_count % c != 0 {
        assert(q < usize::MAX) by (nonlinear_arith)
            requires
                c >= 1,
                q == item_count / c,
                item_count % c != 0,
                item_count <= usize::MAX,
        ;
    }
    let r: usize = if item_count % c == 0 {
        q
    } else {
        q + 1
    };
    assert(r == (item_count + c - 1) / (c as int)) by (nonlinear_arith)
        requires
            c >= 1,
            q == item_count / c,
            r == if item_count % c == 0 {
                q as int
            } else {
                q + 1
            },
    ;
    r
}

/// The rows laid out for the visible rows `first_visible..last_visible`: `overscan` more on
/// each side, within the grid.
pub fn visible_row_range(
    first_visible: usize,
    last_visible: usize,
    overscan: usize,
    row_count: usize,
) -> (r: (usize, usize))
    ensures
        r.0 == if first_visible >= overscan {
            first_visible - overscan
        } else {
            0
        },
        r.1 == if last_visible + overscan < row_count {
            last_visible + overscan
        } else {
            row_count as int
        },
{
    let start: usize = if first_visible >= overscan {
        first_visible - overscan
    } else {
        0
    };
    let end: usize = if last_visible < row_count && overscan < row_count - last_visible {
        last_visible + overscan
    } else {
        row_count
    };
    (start, end)
}

/// The items drawn for rows `start_row..end_row` of a grid with `columns` columns, in
/// drawing order: row by row, left to right, stopping at the last item.
pub fn visible_items(start_row: usize, end_row: usize, columns: usize, item_count: usize) -> (r: Vec<
    usize,
>)
    requires
        end_row * columns <= usize::MAX,
    ensures
        forall|k: int| 0 <= k < r@.len() ==> #[trigger] r@[k] < item_count,
        forall|k: int|
            0 <= k < r@.len() ==> start_row * columns <= #[trigger] r@[k] < end_row * columns,
        forall|k: int| 0 <= k < r@.len() - 1 ==> #[trigger] r@[k] + 1 == r@[k + 1],
        r@.len() > 0 ==> r@[0] == start_row * columns,
        forall|i: usize|
            start_row * columns <= i < end_row * columns && i < item_count ==> r@.contains(i),
{
    let mut r: Vec<usize> = Vec::new();
    if start_row >= end_row || columns == 0 {
        assert(end_row * columns <= start_row * columns) by (nonlinear_arith)
            requires
                start_row >= end_row || columns == 0,
        ;
        return r;
    }
    proof {
        assert(start_row * columns <= end_row * columns) by (nonlinear_arith)
            requires
                start_row < end_row,
        ;
    }
    let first: usize = start_row * columns;
    let last: usize = end_row * columns;
    let stop: usize = if last < item_count {
        last
    } else {
        item_count
    };
    proof {
        assert(start_row * columns <= end_row * columns) by (nonlinear_arith)
            requires
                start_row < end_row,
        ;
    }
    let mut idx: usize = first;
    while idx < stop
        invariant
            first <= idx,
            first == start_row * columns,
            last == end_row * columns,
            stop <= last,
            stop <= item_count,
            idx >= stop ==> idx == first || idx == stop,
            r@.len() == idx - first,
            forall|k: int| 0 <= k < r@.len() ==> #[trigger] r@[k] == first + k,
        decreases stop - idx,
    {
        r.push(idx);
        idx = idx + 1;
    }
    proof {
        assert forall|i: usize|
            start_row * columns <= i < end_row * columns && i < item_count implies r@.contains(
            i,
        ) by {
            assert(r@[i - first] == i);
        }
    }
    r
}

} // verus!
