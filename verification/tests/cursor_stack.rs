use heks::cursor::{Cursor, CursorStack};

#[test]
fn cursor_test_new() {
    let stack = CursorStack::new(Cursor::new(0, 1));
    assert_eq!(stack.cursors(), vec![Cursor::new(0, 1)]);
}

#[test]
fn test_push_top_undo_redo() {
    let mut stack = CursorStack::new(Cursor::new(0, 1));
    assert_eq!(stack.top(), Cursor::new(0, 1));

    stack.push(Cursor::new(1, 2));
    assert_eq!(stack.top(), Cursor::new(1, 2));
    stack.push(Cursor::new(3, 4));
    assert_eq!(stack.top(), Cursor::new(3, 4));

    stack.undo();
    assert_eq!(stack.top(), Cursor::new(1, 2));
    stack.undo();
    assert_eq!(stack.top(), Cursor::new(0, 1));
    stack.undo();
    stack.undo();
    assert_eq!(stack.top(), Cursor::new(0, 1));
    stack.redo();
    assert_eq!(stack.top(), Cursor::new(1, 2));
    stack.redo();
    assert_eq!(stack.top(), Cursor::new(3, 4));
    stack.redo();
    stack.redo();
    stack.redo();
    assert_eq!(stack.top(), Cursor::new(3, 4));
}

#[test]
fn test_set() {
    let mut stack = CursorStack::new(Cursor::new(0, 1));
    assert_eq!(stack.top(), Cursor::new(0, 1));
    stack.set(Cursor::new(1, 2));
    assert_eq!(stack.top(), Cursor::new(1, 2));
    stack.set(Cursor::new(2, 3));
    assert_eq!(stack.top(), Cursor::new(2, 3));
    stack.undo();
    assert_eq!(stack.top(), Cursor::new(2, 3));

    stack.push(Cursor::new(3, 4));
    stack.push(Cursor::new(5, 6));
    stack.set(Cursor::new(5, 16));
    assert_eq!(stack.top(), Cursor::new(5, 16));
    stack.undo();
    assert_eq!(stack.top(), Cursor::new(3, 4));
    stack.undo();
    assert_eq!(stack.top(), Cursor::new(2, 3));

    stack.set(Cursor::new(2, 12));
    assert_eq!(stack.top(), Cursor::new(2, 12));
    stack.redo();
    assert_eq!(stack.top(), Cursor::new(2, 12));
    assert_eq!(stack.cursors().len(), 1);
}

#[test]
fn test_top_mut() {
    let mut stack = CursorStack::new(Cursor::new(0, 1));
    assert_eq!(stack.top(), Cursor::new(0, 1));
    stack.top_mut().grow();
    assert_eq!(stack.top(), Cursor::new(0, 2));
    stack.top_mut().grow();
    assert_eq!(stack.top(), Cursor::new(0, 3));
    stack.undo();
    assert_eq!(stack.top(), Cursor::new(0, 3));

    stack.push(Cursor::new(1, 2));
    stack.push(Cursor::new(2, 3));
    stack.top_mut().grow();
    assert_eq!(stack.top(), Cursor::new(2, 4));
    stack.undo();
    assert_eq!(stack.top(), Cursor::new(1, 2));
    stack.undo();
    assert_eq!(stack.top(), Cursor::new(0, 3));

    stack.top_mut().grow();
    assert_eq!(stack.top(), Cursor::new(0, 4));
    stack.redo();
    assert_eq!(stack.top(), Cursor::new(1, 2));
    stack.redo();
    assert_eq!(stack.top(), Cursor::new(2, 4));
}
