use std::ops::Range;
use vstd::prelude::*;

verus! {

/// The smaller of two integers.
pub open spec fn min_int(a: int, b: int) -> int {
    if a <= b {
        a
    } else {
        b
    }
}

/// A selection of bytes: the half-open range `[start, end)` of offsets.
///
/// `new` accepts any two bounds. The operations that move or clamp a cursor
/// ask for bounds in order (`well_formed`) and keep them in order.
#[derive(Debug, Clone, Copy, PartialEq, Eq, Structural)]
pub struct Cursor {
    pub start: u64,
    /// One past the last selected byte.
    pub end: u64,
}

impl Cursor {
    /// The two bounds are in order.
    pub open spec fn well_formed(self) -> bool {
        self.start <= self.end
    }

    /// The bounds are in order and lie between `lo` and `hi`.
    pub open spec fn within(self, lo: u64, hi: u64) -> bool {
        lo <= self.start <= self.end <= hi
    }

    /// Number of bytes selected.
    pub open spec fn width(self) -> int {
        self.end - self.start
    }

    /// Both bounds moved right by `delta`, or by the room left below
    /// `u64::MAX` if that is less.
    pub open spec fn incremented(self, delta: u64) -> Cursor {
        let shift = min_int(delta as int, u64::MAX - self.end);
        Cursor { start: (self.start + shift) as u64, end: (self.end + shift) as u64 }
    }

    /// Both bounds moved left by `delta`, or by the room left above 0 if that
    /// is less.
    pub open spec fn decremented(self, delta: u64) -> Cursor {
        let shift = min_int(delta as int, self.start as int);
        Cursor { start: (self.start - shift) as u64, end: (self.end - shift) as u64 }
    }

    /// One more byte selected at the high end, unless `end` is `u64::MAX`.
    pub open spec fn grown(self) -> Cursor {
        Cursor { start: self.start, end: min_int(self.end + 1, u64::MAX as int) as u64 }
    }

    /// One byte fewer selected at the high end, unless that would leave fewer
    /// than one.
    pub open spec fn shrunk(self) -> Cursor {
        if self.end > self.start + 1 {
            Cursor { start: self.start, end: (self.end - 1) as u64 }
        } else {
            self
        }
    }

    /// Moved right by its own width.
    pub open spec fn skipped_right(self) -> Cursor {
        self.incremented(self.width() as u64)
    }

    /// Moved left by its own width.
    pub open spec fn skipped_left(self) -> Cursor {
        self.decremented(self.width() as u64)
    }

    /// Moved by the least amount that puts it inside `[lo, hi)`, and cut to
    /// the width of that range if it is wider. A cursor that sticks out on
    /// the high side is anchored at `hi`, whatever its low side does.
    pub open spec fn clamped(self, lo: u64, hi: u64) -> Cursor {
        let width = min_int(self.width(), hi - lo);
        if self.end > hi {
            Cursor { start: (hi - width) as u64, end: hi }
        } else if self.start < lo {
            Cursor { start: lo, end: (lo + width) as u64 }
        } else {
            self
        }
    }

    pub fn new(start: u64, end: u64) -> (c: Self)
        ensures
            c.start == start,
            c.end == end,
    {
        Cursor { start, end }
    }

    pub fn start(&self) -> (s: u64)
        ensures
            s == self.start,
    {
        self.start
    }

    pub fn end(&self) -> (e: u64)
        ensures
            e == self.end,
    {
        self.end
    }

    pub fn contains(&self, location: u64) -> (inside: bool)
        ensures
            inside <==> self.start <= location < self.end,
    {
        self.start <= location && location < self.end
    }

    /// Moves the selection right by `delta`, stopping at `u64::MAX`.
    pub fn increment(&mut self, delta: u64)
        requires
            old(self).well_formed(),
        ensures
            *final(self) == old(self).incremented(delta),
            final(self).well_formed(),
            final(self).width() == old(self).width(),
    {
        let width = self.end - self.start;
        self.end = self.end.saturating_add(delta);
        self.start = self.end - width;
    }

    /// Moves the selection left by `delta`, stopping at 0.
    pub fn decrement(&mut self, delta: u64)
        requires
            old(self).well_formed(),
        ensures
            *final(self) == old(self).decremented(delta),
            final(self).well_formed(),
            final(self).width() == old(self).width(),
    {
        let width = self.end - self.start;
        self.start = self.start.saturating_sub(delta);
        self.end = self.start + width;
    }

    /// Selects one more byte at the high end.
    pub fn grow(&mut self)
        ensures
            *final(self) == old(self).grown(),
            old(self).well_formed() ==> final(self).well_formed(),
    {
        self.end = self.end.saturating_add(1);
    }

    /// Selects one byte fewer at the high end, down to a single byte.
    pub fn shrink(&mut self)
        ensures
            *final(self) == old(self).shrunk(),
            old(self).well_formed() ==> final(self).well_formed(),
            old(self).width() >= 1 ==> final(self).width() >= 1,
    {
        if self.start < u64::MAX && self.end > self.start + 1 {
            self.end -= 1;
        }
    }

    /// Moves the selection right by its own width, stopping at `u64::MAX`.
    pub fn skip_right(&mut self)
        requires
            old(self).well_formed(),
        ensures
            *final(self) == old(self).skipped_right(),
            final(self).well_formed(),
            final(self).width() == old(self).width(),
    {
        let width = self.end - self.start;
        self.end = self.end.saturating_add(width);
        self.start = self.end - width;
    }

    /// Moves the selection left by its own width, stopping at 0.
    pub fn skip_left(&mut self)
        requires
            old(self).well_formed(),
        ensures
            *final(self) == old(self).skipped_left(),
            final(self).well_formed(),
            final(self).width() == old(self).width(),
    {
        let width = self.end - self.start;
        self.start = self.start.saturating_sub(width);
        self.end = self.start + width;
    }

    /// Brings the selection inside `range`. A selection wider than the range
    /// becomes the range; any other keeps its width and moves as little as
    /// it can.
    pub fn clamp(&mut self, range: Range<u64>)
        requires
            old(self).well_formed(),
            range.start <= range.end,
        ensures
            *final(self) == old(self).clamped(range.start, range.end),
            final(self).within(range.start, range.end),
            final(self).width() == min_int(old(self).width(), range.end - range.start),
    {
        let own = self.end - self.start;
        let room = range.end - range.start;
        let width = if own < room {
            own
        } else {
            room
        };
        if self.end > range.end {
            self.end = range.end;
            self.start = self.end - width;
        } else if self.start < range.start {
            self.start = range.start;
            self.end = self.start + width;
        }
    }
}

/// A move to the right keeps the bounds in order and the width as it was,
/// also where it stops at `u64::MAX`.
pub proof fn lemma_increment_keeps_width(c: Cursor, delta: u64)
    requires
        c.well_formed(),
    ensures
        c.incremented(delta).well_formed(),
        c.incremented(delta).width() == c.width(),
{
}

/// A move to the left keeps the bounds in order and the width as it was,
/// also where it stops at 0.
pub proof fn lemma_decrement_keeps_width(c: Cursor, delta: u64)
    requires
        c.well_formed(),
    ensures
        c.decremented(delta).well_formed(),
        c.decremented(delta).width() == c.width(),
{
}

/// A move to the right that does not reach past `u64::MAX` is undone by the
/// same move to the left.
pub proof fn lemma_increment_then_decrement(c: Cursor, delta: u64)
    requires
        c.well_formed(),
        c.end + delta <= u64::MAX,
    ensures
        c.incremented(delta).decremented(delta) == c,
{
}

/// A move to the left that does not reach below 0 is undone by the same move
/// to the right.
pub proof fn lemma_decrement_then_increment(c: Cursor, delta: u64)
    requires
        c.well_formed(),
        delta <= c.start,
    ensures
        c.decremented(delta).incremented(delta) == c,
{
}

/// Clamping lands inside the range and leaves the smaller of the two widths.
pub proof fn lemma_clamp_within(c: Cursor, lo: u64, hi: u64)
    requires
        c.well_formed(),
        lo <= hi,
    ensures
        c.clamped(lo, hi).within(lo, hi),
        c.clamped(lo, hi).width() == min_int(c.width(), hi - lo),
{
}

/// A cursor that lies inside the range is not moved by clamping.
pub proof fn lemma_clamp_fixes_inside(c: Cursor, lo: u64, hi: u64)
    requires
        c.within(lo, hi),
    ensures
        c.clamped(lo, hi) == c,
{
}

/// Clamping twice to one range gives what clamping once gives.
pub proof fn lemma_clamp_idempotent(c: Cursor, lo: u64, hi: u64)
    requires
        c.well_formed(),
        lo <= hi,
    ensures
        c.clamped(lo, hi).clamped(lo, hi) == c.clamped(lo, hi),
{
}

/// Shrinking never empties a selection: one byte stays one byte, and more
/// than one byte loses exactly one.
pub proof fn lemma_shrink_keeps_a_byte(c: Cursor)
    ensures
        c.width() == 1 ==> c.shrunk() == c,
        c.width() >= 1 ==> c.shrunk().width() >= 1,
        c.width() >= 2 ==> c.shrunk().width() == c.width() - 1,
{
}

/// A skip to the right that does not reach past `u64::MAX` is undone by a
/// skip to the left.
pub proof fn lemma_skip_right_then_left(c: Cursor)
    requires
        c.well_formed(),
        c.end + c.width() <= u64::MAX,
    ensures
        c.skipped_right().skipped_left() == c,
{
}

/// A skip to the left that does not reach below 0 is undone by a skip to the
/// right.
pub proof fn lemma_skip_left_then_right(c: Cursor)
    requires
        c.well_formed(),
        c.width() <= c.start,
    ensures
        c.skipped_left().skipped_right() == c,
{
}

/// What a `CursorStack` holds: its entries, oldest first, and how many steps
/// back from the newest entry the current one lies.
pub struct History {
    pub entries: Seq<Cursor>,
    pub undo_depth: nat,
}

impl History {
    /// There is an entry, and the current one is among the entries.
    pub open spec fn well_formed(self) -> bool {
        self.undo_depth < self.entries.len()
    }

    /// Every entry has its bounds in order.
    pub open spec fn cursors_in_order(self) -> bool {
        forall|i: int| 0 <= i < self.entries.len() ==> (#[trigger] self.entries[i]).well_formed()
    }

    /// Index of the current entry.
    pub open spec fn top_index(self) -> int {
        self.entries.len() - 1 - self.undo_depth
    }

    /// The current entry.
    pub open spec fn top(self) -> Cursor {
        self.entries[self.top_index()]
    }

    /// The history that holds `seed` alone.
    pub open spec fn seeded(seed: Cursor) -> History {
        History { entries: seq![seed], undo_depth: 0 }
    }

    /// `cursor` appended as the newest entry, the undo depth left alone.
    pub open spec fn pushed(self, cursor: Cursor) -> History {
        History { entries: self.entries.push(cursor), undo_depth: self.undo_depth }
    }

    /// One step back, unless the current entry is the oldest.
    pub open spec fn undone(self) -> History {
        if self.undo_depth + 1 < self.entries.len() {
            History { entries: self.entries, undo_depth: self.undo_depth + 1 }
        } else {
            self
        }
    }

    /// One step forward, unless the current entry is the newest.
    pub open spec fn redone(self) -> History {
        if self.undo_depth > 0 {
            History { entries: self.entries, undo_depth: (self.undo_depth - 1) as nat }
        } else {
            self
        }
    }

    /// The current entry and every entry newer than it dropped, and `cursor`
    /// put in their place as the newest and current entry.
    pub open spec fn reset_to(self, cursor: Cursor) -> History {
        History { entries: self.entries.take(self.top_index()).push(cursor), undo_depth: 0 }
    }

    /// The current entry overwritten by `cursor`, everything else kept.
    pub open spec fn with_top(self, cursor: Cursor) -> History {
        History {
            entries: self.entries.update(self.top_index(), cursor),
            undo_depth: self.undo_depth,
        }
    }
}

/// An undo and redo history of cursors. It is never empty.
#[derive(Debug)]
pub struct CursorStack {
    cursors: Vec<Cursor>,
    undo_depth: usize,
}

impl View for CursorStack {
    type V = History;

    closed spec fn view(&self) -> History {
        History { entries: self.cursors@, undo_depth: self.undo_depth as nat }
    }
}

impl CursorStack {
    pub fn new(cursor: Cursor) -> (stack: Self)
        ensures
            stack@ == History::seeded(cursor),
            stack@.well_formed(),
    {
        let mut cursors: Vec<Cursor> = Vec::new();
        cursors.push(cursor);
        CursorStack { cursors, undo_depth: 0 }
    }

    /// Appends `cursor` as the newest entry. The undo depth stays, so after
    /// an undo the current entry becomes the one that followed it.
    pub fn push(&mut self, cursor: Cursor)
        requires
            old(self)@.well_formed(),
        ensures
            final(self)@ == old(self)@.pushed(cursor),
            final(self)@.well_formed(),
    {
        self.cursors.push(cursor);
    }

    fn top_index(&self) -> (index: usize)
        requires
            self@.well_formed(),
        ensures
            index == self@.top_index(),
            index < self.cursors.len(),
    {
        self.cursors.len() - 1 - self.undo_depth
    }

    /// The current entry.
    pub fn top(&self) -> (cursor: Cursor)
        requires
            self@.well_formed(),
        ensures
            cursor == self@.top(),
    {
        let index = self.top_index();
        self.cursors[index]
    }

    /// The current entry, to be changed in place: no entry is added.
    pub fn top_mut(&mut self) -> (cursor: &mut Cursor)
        requires
            old(self)@.well_formed(),
        ensures
            *cursor == old(self)@.top(),
            final(self)@ == old(self)@.with_top(*final(cursor)),
            final(self)@.well_formed(),
    {
        let index = self.top_index();
        &mut self.cursors[index]
    }

    /// Steps back to the entry before the current one, if there is one.
    pub fn undo(&mut self)
        requires
            old(self)@.well_formed(),
        ensures
            final(self)@ == old(self)@.undone(),
            final(self)@.well_formed(),
    {
        if self.undo_depth < self.cursors.len() - 1 {
            self.undo_depth += 1;
        }
    }

    /// Steps forward to the entry after the current one, if there is one.
    pub fn redo(&mut self)
        requires
            old(self)@.well_formed(),
        ensures
            final(self)@ == old(self)@.redone(),
            final(self)@.well_formed(),
    {
        self.undo_depth = self.undo_depth.saturating_sub(1);
    }

    /// Replaces the current entry and all newer ones by `cursor`.
    pub fn set(&mut self, cursor: Cursor)
        requires
            old(self)@.well_formed(),
        ensures
            final(self)@ == old(self)@.reset_to(cursor),
            final(self)@.well_formed(),
    {
        let index = self.top_index();
        self.cursors.truncate(index);
        self.undo_depth = 0;
        self.cursors.push(cursor);
    }

    /// The entries, oldest first.
    pub fn cursors(&self) -> (entries: &[Cursor])
        ensures
            entries@ == self@.entries,
    {
        self.cursors.as_slice()
    }
}

/// Every operation keeps a well-formed history well-formed.
pub proof fn lemma_history_stays_well_formed(h: History, cursor: Cursor)
    requires
        h.well_formed(),
    ensures
        History::seeded(cursor).well_formed(),
        h.pushed(cursor).well_formed(),
        h.undone().well_formed(),
        h.redone().well_formed(),
        h.reset_to(cursor).well_formed(),
        h.with_top(cursor).well_formed(),
{
}

/// With nothing undone, two pushes followed by an undo leave the first of
/// the two current, and a redo after that the second.
pub proof fn lemma_push_push_undo_redo(h: History, a: Cursor, b: Cursor)
    requires
        h.well_formed(),
        h.undo_depth == 0,
    ensures
        h.pushed(a).top() == a,
        h.pushed(a).pushed(b).top() == b,
        h.pushed(a).pushed(b).undone().top() == a,
        h.pushed(a).pushed(b).undone().redone().top() == b,
{
}

/// A push leaves the undo depth alone: after `k` undos the entry that
/// becomes current is the one that followed the old current entry, or
/// `cursor` itself if nothing was undone.
pub proof fn lemma_push_keeps_undo_depth(h: History, cursor: Cursor)
    requires
        h.well_formed(),
    ensures
        h.pushed(cursor).undo_depth == h.undo_depth,
        h.pushed(cursor).top_index() == h.top_index() + 1,
        h.undo_depth == 0 ==> h.pushed(cursor).top() == cursor,
        h.undo_depth > 0 ==> h.pushed(cursor).top() == h.entries[h.top_index() + 1],
{
}

/// At the oldest entry an undo changes nothing; anywhere else it makes the
/// entry before the current one current.
pub proof fn lemma_undo_stops_at_oldest(h: History)
    requires
        h.well_formed(),
    ensures
        h.top_index() == 0 ==> h.undone() == h,
        h.top_index() > 0 ==> h.undone().top_index() == h.top_index() - 1,
        h.undone().entries == h.entries,
{
}

/// At the newest entry a redo changes nothing; anywhere else it makes the
/// entry after the current one current.
pub proof fn lemma_redo_stops_at_newest(h: History)
    requires
        h.well_formed(),
    ensures
        h.undo_depth == 0 ==> h.redone() == h,
        h.undo_depth > 0 ==> h.redone().top_index() == h.top_index() + 1,
        h.redone().entries == h.entries,
{
}

/// An undo that moved is taken back by a redo, and a redo that moved by an
/// undo.
pub proof fn lemma_undo_redo_inverse(h: History)
    requires
        h.well_formed(),
    ensures
        h.top_index() > 0 ==> h.undone().redone() == h,
        h.undo_depth > 0 ==> h.redone().undone() == h,
{
}

/// `reset_to` keeps exactly the entries older than the current one and puts
/// the new cursor after them: it is current, nothing is left to redo, and
/// the next undo reaches the entry that preceded the old current one.
pub proof fn lemma_reset_discards_newer(h: History, cursor: Cursor)
    requires
        h.well_formed(),
    ensures
        h.reset_to(cursor).entries.len() == h.top_index() + 1,
        h.reset_to(cursor).top() == cursor,
        h.reset_to(cursor).undo_depth == 0,
        h.reset_to(cursor).redone() == h.reset_to(cursor),
        forall|i: int|
            0 <= i < h.top_index() ==> h.reset_to(cursor).entries[i] == h.entries[i],
        h.top_index() > 0 ==> h.reset_to(cursor).undone().top() == h.entries[h.top_index() - 1],
{
}

/// Overwriting the current entry changes neither the number of entries nor
/// which one is current, and no other entry.
pub proof fn lemma_with_top_changes_one_entry(h: History, cursor: Cursor)
    requires
        h.well_formed(),
    ensures
        h.with_top(cursor).top() == cursor,
        h.with_top(cursor).entries.len() == h.entries.len(),
        h.with_top(cursor).undo_depth == h.undo_depth,
        forall|i: int|
            0 <= i < h.entries.len() && i != h.top_index() ==> h.with_top(cursor).entries[i]
                == h.entries[i],
        h.with_top(h.top()) == h,
{
    assert(h.with_top(h.top()).entries =~= h.entries);
}

} // verus!
