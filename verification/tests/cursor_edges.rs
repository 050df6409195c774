use heks::cursor::{Cursor, CursorStack};

#[test]
fn increment_keeps_width_at_the_ceiling() {
    let mut c = Cursor::new(u64::MAX - 10, u64::MAX - 3);
    c.increment(100);
    assert_eq!(c, Cursor::new(u64::MAX - 7, u64::MAX));
    assert_eq!(c.end() - c.start(), 7);
}

#[test]
fn decrement_keeps_width_at_the_floor() {
    let mut c = Cursor::new(3, 10);
    c.decrement(100);
    assert_eq!(c, Cursor::new(0, 7));
}

#[test]
fn increment_then_decrement_returns() {
    let before = Cursor::new(40, 50);
    let mut c = before;
    c.increment(1000);
    assert_eq!(c, Cursor::new(1040, 1050));
    c.decrement(1000);
    assert_eq!(c, before);
}

#[test]
fn empty_cursor_moves_to_the_ceiling() {
    let mut c = Cursor { start: 0, end: 0 };
    c.increment(u64::MAX);
    assert_eq!(c, Cursor::new(u64::MAX, u64::MAX));
}

#[test]
fn grow_stops_at_the_ceiling() {
    let mut c = Cursor::new(u64::MAX, u64::MAX);
    c.grow();
    assert_eq!(c, Cursor::new(u64::MAX, u64::MAX));
}

#[test]
fn shrink_leaves_one_byte() {
    let mut c = Cursor::new(7, 8);
    c.shrink();
    assert_eq!(c, Cursor::new(7, 8));
}

#[test]
fn shrink_at_the_ceiling_does_not_overflow() {
    let mut c = Cursor::new(u64::MAX, u64::MAX);
    c.shrink();
    assert_eq!(c, Cursor::new(u64::MAX, u64::MAX));

    let mut c = Cursor::new(u64::MAX - 1, u64::MAX);
    c.shrink();
    assert_eq!(c, Cursor::new(u64::MAX - 1, u64::MAX));

    let mut c = Cursor::new(u64::MAX - 2, u64::MAX);
    c.shrink();
    assert_eq!(c, Cursor::new(u64::MAX - 2, u64::MAX - 1));
}

#[test]
fn skip_right_then_left_returns() {
    let before = Cursor::new(100, 108);
    let mut c = before;
    c.skip_right();
    assert_eq!(c, Cursor::new(108, 116));
    c.skip_left();
    assert_eq!(c, before);
}

#[test]
fn skip_left_then_right_returns() {
    let before = Cursor::new(100, 108);
    let mut c = before;
    c.skip_left();
    assert_eq!(c, Cursor::new(92, 100));
    c.skip_right();
    assert_eq!(c, before);
}

#[test]
fn clamp_inside_is_unchanged() {
    let mut c = Cursor::new(0, 1);
    c.clamp(0..u64::MAX);
    assert_eq!(c, Cursor::new(0, 1));
}

#[test]
fn clamp_pulls_down_from_the_ceiling() {
    let mut c = Cursor::new(u64::MAX - 4, u64::MAX);
    c.clamp(128..256);
    assert_eq!(c, Cursor::new(252, 256));
}

#[test]
fn clamp_twice_is_clamp_once() {
    let mut once = Cursor::new(10, 500);
    once.clamp(100..200);
    assert_eq!(once, Cursor::new(100, 200));
    let mut twice = once;
    twice.clamp(100..200);
    assert_eq!(twice, once);

    let mut once = Cursor::new(10, 20);
    once.clamp(100..200);
    assert_eq!(once, Cursor::new(100, 110));
    let mut twice = once;
    twice.clamp(100..200);
    assert_eq!(twice, once);
}

#[test]
fn clamp_wider_on_both_sides_becomes_the_range() {
    let mut c = Cursor::new(10, 300);
    c.clamp(100..200);
    assert_eq!(c, Cursor::new(100, 200));
}

#[test]
fn clamp_to_a_point() {
    let mut c = Cursor::new(10, 20);
    c.clamp(15..15);
    assert_eq!(c, Cursor::new(15, 15));

    let mut c = Cursor::new(10, 20);
    c.clamp(5..5);
    assert_eq!(c, Cursor::new(5, 5));

    let mut c = Cursor::new(10, 20);
    c.clamp(30..30);
    assert_eq!(c, Cursor::new(30, 30));
}

#[test]
fn clamp_of_an_empty_cursor() {
    let mut c = Cursor::new(10, 10);
    c.clamp(100..200);
    assert_eq!(c, Cursor::new(100, 100));

    let mut c = Cursor::new(300, 300);
    c.clamp(100..200);
    assert_eq!(c, Cursor::new(200, 200));

    let mut c = Cursor::new(0, 0);
    c.clamp(0..0);
    assert_eq!(c, Cursor::new(0, 0));
}

#[test]
fn two_pushes_then_undo_and_redo() {
    let a = Cursor::new(10, 11);
    let b = Cursor::new(20, 21);
    let mut stack = CursorStack::new(Cursor::new(0, 1));
    stack.push(a);
    stack.push(b);
    stack.undo();
    assert_eq!(stack.top(), a);
    stack.redo();
    assert_eq!(stack.top(), b);
}

#[test]
fn undo_at_the_oldest_entry_changes_nothing() {
    let mut stack = CursorStack::new(Cursor::new(0, 1));
    stack.undo();
    assert_eq!(stack.top(), Cursor::new(0, 1));
    assert_eq!(stack.cursors().len(), 1);
    stack.push(Cursor::new(5, 6));
    assert_eq!(stack.top(), Cursor::new(5, 6));
}

#[test]
fn redo_at_the_newest_entry_changes_nothing() {
    let mut stack = CursorStack::new(Cursor::new(0, 1));
    stack.push(Cursor::new(5, 6));
    stack.redo();
    assert_eq!(stack.top(), Cursor::new(5, 6));
    stack.undo();
    assert_eq!(stack.top(), Cursor::new(0, 1));
}

#[test]
fn push_while_undone_keeps_the_undo_depth() {
    let mut stack = CursorStack::new(Cursor::new(0, 1));
    stack.push(Cursor::new(1, 2));
    stack.undo();
    assert_eq!(stack.top(), Cursor::new(0, 1));
    stack.push(Cursor::new(2, 3));
    assert_eq!(stack.top(), Cursor::new(1, 2));
    assert_eq!(
        stack.cursors(),
        vec![Cursor::new(0, 1), Cursor::new(1, 2), Cursor::new(2, 3)]
    );
    stack.redo();
    assert_eq!(stack.top(), Cursor::new(2, 3));
}

#[test]
fn set_after_undo_discards_what_followed() {
    let mut stack = CursorStack::new(Cursor::new(0, 1));
    stack.push(Cursor::new(1, 2));
    stack.push(Cursor::new(2, 3));
    stack.push(Cursor::new(3, 4));
    stack.undo();
    stack.undo();
    assert_eq!(stack.top(), Cursor::new(1, 2));
    stack.set(Cursor::new(9, 10));
    assert_eq!(stack.cursors(), vec![Cursor::new(0, 1), Cursor::new(9, 10)]);
    assert_eq!(stack.top(), Cursor::new(9, 10));
    stack.redo();
    assert_eq!(stack.top(), Cursor::new(9, 10));
    stack.undo();
    assert_eq!(stack.top(), Cursor::new(0, 1));
}

#[test]
fn set_twice_then_undo_keeps_the_top() {
    let mut stack = CursorStack::new(Cursor::new(0, 1));
    stack.set(Cursor::new(1, 2));
    stack.set(Cursor::new(2, 3));
    stack.undo();
    assert_eq!(stack.top(), Cursor::new(2, 3));
    assert_eq!(stack.cursors().len(), 1);
}

#[test]
fn top_mut_overwrites_in_place() {
    let mut stack = CursorStack::new(Cursor::new(0, 1));
    stack.push(Cursor::new(4, 5));
    *stack.top_mut() = Cursor::new(8, 9);
    assert_eq!(stack.cursors(), vec![Cursor::new(0, 1), Cursor::new(8, 9)]);
}
