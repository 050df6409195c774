use crate::cursor::{min_int, CursorStack};
use crate::source::{is_aligned, DataSource, Slice};
use std::ops::Range;
use vstd::prelude::*;

verus! {

/// The offset that the window is laid out around: `start`, held so low that
/// a window of `rows` by `columns` bytes which begins there ends at or below
/// `u64::MAX`.
pub open spec fn anchor(start: u64, rows: u16, columns: u16) -> int {
    min_int(start as int, u64::MAX - rows * columns)
}

/// First offset of the row that holds the anchor.
pub open spec fn anchor_row_start(start: u64, rows: u16, columns: u16) -> int {
    anchor(start, rows, columns) - anchor(start, rows, columns) % (columns as int)
}

/// Number of rows shown above the anchor's row: half of the rows, or as many
/// as there are above it.
pub open spec fn rows_above(start: u64, rows: u16, columns: u16) -> int {
    min_int(rows as int / 2, anchor_row_start(start, rows, columns) / (columns as int))
}

/// First offset of the window. Without columns there are no rows to lay
/// out, and the window is the empty one at the anchor.
pub open spec fn window_start(start: u64, rows: u16, columns: u16) -> int {
    if columns == 0 {
        anchor(start, rows, columns)
    } else {
        anchor_row_start(start, rows, columns) - rows_above(start, rows, columns) * columns
    }
}

/// The offsets to ask a source for, so that a display of `rows` by
/// `columns` bytes shows the byte at `start`: whole rows, with the row of
/// `start` in the middle where there are enough rows above it.
pub fn viewport_window(start: u64, rows: u16, columns: u16) -> (window: Range<u64>)
    ensures
        window.start == window_start(start, rows, columns),
        window.end == window.start + rows * columns,
{
    let row_count = rows as u64;
    let column_count = columns as u64;
    assert({
        &&& column_count * row_count <= 0xffff * 0xffff
        &&& column_count * row_count == rows * columns
        &&& columns == 0 ==> column_count * row_count == 0
    }) by (nonlinear_arith)
        requires
            row_count == rows,
            column_count == columns,
    ;
    let size = column_count * row_count;
    let limit = u64::MAX - size;
    let pivot = if start < limit {
        start
    } else {
        limit
    };
    if columns == 0 {
        assert(size == 0);
        return pivot..pivot;
    }
    assert(pivot % column_count <= pivot) by (nonlinear_arith)
        requires
            column_count > 0,
    ;
    let row_start: u64 = pivot - pivot % column_count;
    let row = row_start / column_count;
    let half = row_count / 2;
    let above = if half < row {
        half
    } else {
        row
    };
    assert(above * column_count <= row_start) by (nonlinear_arith)
        requires
            above <= row,
            row == row_start / column_count,
            column_count > 0,
    ;
    let first = row_start - above * column_count;
    let end = first + size;
    first..end
}

/// The distance between two row boundaries of a display of `columns`
/// bytes to a row. Without columns every offset counts as a boundary.
pub open spec fn row_alignment(columns: u16) -> u64 {
    if columns == 0 {
        1
    } else {
        columns as u64
    }
}

/// Aligns a fetched slice to the rows of a display of `columns` bytes to a
/// row, brings the current cursor inside it and stores the cursor back in
/// place.
pub fn clamp_cursor_to_slice<'a>(
    cursor_stack: &mut CursorStack,
    fetched: Slice<'a>,
    columns: u16,
) -> (slice: Slice<'a>)
    requires
        old(cursor_stack)@.well_formed(),
        old(cursor_stack)@.top().well_formed(),
    ensures
        slice@ == fetched@.aligned_up(row_alignment(columns)),
        columns > 0 ==> (is_aligned(slice.location_start as int, columns as u64)
            || slice.location_start == slice.location_end),
        final(cursor_stack)@ == old(cursor_stack)@.with_top(
            old(cursor_stack)@.top().clamped(slice.location_start, slice.location_end),
        ),
        final(cursor_stack)@.well_formed(),
        final(cursor_stack)@.top().within(slice.location_start, slice.location_end),
        old(cursor_stack)@.cursors_in_order() ==> final(cursor_stack)@.cursors_in_order(),
{
    let align: u64 = if columns == 0 {
        1
    } else {
        columns as u64
    };
    proof {
        crate::source::lemma_padding_reaches_next_multiple(fetched.location_start, align);
    }
    let slice = fetched.align_up(align);
    let mut cursor = cursor_stack.top();
    cursor.clamp(slice.location_start..slice.location_end);
    *cursor_stack.top_mut() = cursor;
    slice
}

/// Fetches from `source` the window that shows the current cursor, and
/// brings the cursor inside what the source had.
///
/// The source decides what comes back. Whatever it is, the slice returned is
/// the fetched one aligned to the rows of the display, and the current
/// cursor lies inside it afterwards.
pub fn fetch_and_clamp_cursor<'a, S: DataSource + ?Sized>(
    cursor_stack: &mut CursorStack,
    source: &'a mut S,
    rows: u16,
    columns: u16,
) -> (slice: Slice<'a>)
    requires
        old(cursor_stack)@.well_formed(),
        old(cursor_stack)@.top().well_formed(),
    ensures
        final(cursor_stack)@ == old(cursor_stack)@.with_top(
            old(cursor_stack)@.top().clamped(slice.location_start, slice.location_end),
        ),
        final(cursor_stack)@.well_formed(),
        final(cursor_stack)@.top().within(slice.location_start, slice.location_end),
        old(cursor_stack)@.cursors_in_order() ==> final(cursor_stack)@.cursors_in_order(),
        columns > 0 ==> (is_aligned(slice.location_start as int, columns as u64)
            || slice.location_start == slice.location_end),
{
    let cursor = cursor_stack.top();
    let window = viewport_window(cursor.start(), rows, columns);
    let fetched = source.fetch(window.start, window.end);
    clamp_cursor_to_slice(cursor_stack, fetched, columns)
}

/// The anchor's row starts at a multiple of `columns`, at most one row
/// below the anchor.
proof fn lemma_anchor_row(start: u64, rows: u16, columns: u16)
    requires
        columns > 0,
    ensures
        0 <= anchor(start, rows, columns) <= u64::MAX - rows * columns,
        0 <= anchor(start, rows, columns) - anchor_row_start(start, rows, columns) < columns,
        anchor_row_start(start, rows, columns) == (anchor_row_start(start, rows, columns) / (
        columns as int)) * columns,
        0 <= anchor_row_start(start, rows, columns) / (columns as int),
{
    let a = anchor(start, rows, columns);
    let c = columns as int;
    let r = rows as int;
    assert(0 <= r * c <= 0xffff * 0xffff) by (nonlinear_arith)
        requires
            0 <= r <= 0xffff,
            0 < c <= 0xffff,
    ;
    assert(0 <= a % c < c && a == c * (a / c) + a % c) by (nonlinear_arith)
        requires
            c > 0,
    ;
    let z = a - a % c;
    assert(z / c == a / c && z == (z / c) * c && z / c >= 0) by (nonlinear_arith)
        requires
            c > 0,
            0 <= a,
            z == c * (a / c),
    ;
}

/// With a column there is a window of whole rows: it starts on a row
/// boundary, ends at or below `u64::MAX`, and shows half of the rows above
/// the anchor's row unless it starts at offset 0.
pub proof fn lemma_window_shape(start: u64, rows: u16, columns: u16)
    requires
        columns > 0,
    ensures
        0 <= window_start(start, rows, columns),
        window_start(start, rows, columns) + rows * columns <= u64::MAX,
        is_aligned(window_start(start, rows, columns), columns as u64),
        0 <= rows_above(start, rows, columns) <= rows / 2,
        rows_above(start, rows, columns) < rows / 2 ==> window_start(start, rows, columns) == 0,
{
    lemma_anchor_row(start, rows, columns);
    let c = columns as int;
    let z = anchor_row_start(start, rows, columns);
    let q = z / c;
    let k = rows_above(start, rows, columns);
    assert(z - k * c == (q - k) * c && (q - k) * c >= 0 && ((q - k) * c) % c == 0) by (nonlinear_arith)
        requires
            c > 0,
            z == q * c,
            0 <= k <= q,
    ;
}

/// With a row and a column the window holds the anchor, and the anchor is
/// the cursor's start wherever a window that begins there fits below
/// `u64::MAX`.
pub proof fn lemma_window_holds_anchor(start: u64, rows: u16, columns: u16)
    requires
        rows > 0,
        columns > 0,
    ensures
        window_start(start, rows, columns) <= anchor(start, rows, columns) < window_start(
            start,
            rows,
            columns,
        ) + rows * columns,
        start + rows * columns <= u64::MAX ==> anchor(start, rows, columns) == start,
{
    lemma_anchor_row(start, rows, columns);
    let c = columns as int;
    let r = rows as int;
    let k = rows_above(start, rows, columns);
    assert(0 <= k * c && k * c + c <= r * c) by (nonlinear_arith)
        requires
            c > 0,
            0 <= k <= r / 2,
            r >= 1,
    ;
}

} // verus!
