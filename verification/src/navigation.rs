use crate::cursor::{Cursor, CursorStack, History};
use crate::display::COLUMNS;
use vstd::prelude::*;

verus! {

/// What a key press can ask of the selection.
#[derive(Debug, Clone, Copy, PartialEq, Eq, Structural)]
pub enum Action {
    /// One byte to the right.
    Right,
    /// One byte to the left.
    Left,
    /// One row down.
    Down,
    /// One row up, unless the selection starts in the first row.
    Up,
    /// Select one byte more.
    Grow,
    /// Select one byte fewer.
    Shrink,
    /// To the right by the width of the selection.
    SkipRight,
    /// To the left by the width of the selection.
    SkipLeft,
    /// Half a screen down, as a new entry of the history.
    PageDown,
    /// Half a screen up, as a new entry of the history.
    PageUp,
    /// To offset 0, as a new entry of the history.
    Home,
    /// To the highest offset, as a new entry of the history.
    End,
    /// Back to the entry before the current one.
    Undo,
    /// Forward to the entry after the current one.
    Redo,
}

impl Action {
    /// The action shifts the current cursor, which needs its bounds in order.
    pub open spec fn moves(self) -> bool {
        !(self is Grow || self is Shrink || self is Undo || self is Redo)
    }

    /// Whether the action shifts the current cursor.
    pub fn is_move(self) -> (moves: bool)
        ensures
            moves == self.moves(),
    {
        match self {
            Action::Grow | Action::Shrink | Action::Undo | Action::Redo => false,
            _ => true,
        }
    }
}

/// Number of bytes that a page key moves by: half of the rows shown.
pub open spec fn page_size(display_height: u16) -> int {
    COLUMNS * (display_height as int / 2)
}

impl History {
    /// `cursor` written over the current entry where the key that led to it
    /// is held down, and appended as a new entry where the key is a new one.
    pub open spec fn coalesced(self, cursor: Cursor, repeated: bool) -> History {
        if repeated {
            self.with_top(cursor)
        } else {
            self.pushed(cursor)
        }
    }

    /// The history after `action`. Steps, skips and resizing change the
    /// current entry in place; pages are coalesced while the key repeats;
    /// home and end always add an entry.
    pub open spec fn after(self, action: Action, repeated: bool, display_height: u16) -> History {
        let top = self.top();
        match action {
            Action::Right => self.with_top(top.incremented(1)),
            Action::Left => self.with_top(top.decremented(1)),
            Action::Down => self.with_top(top.incremented(COLUMNS as u64)),
            Action::Up => if top.start >= COLUMNS {
                self.with_top(top.decremented(COLUMNS as u64))
            } else {
                self
            },
            Action::Grow => self.with_top(top.grown()),
            Action::Shrink => self.with_top(top.shrunk()),
            Action::SkipRight => self.with_top(top.skipped_right()),
            Action::SkipLeft => self.with_top(top.skipped_left()),
            Action::PageDown => self.coalesced(
                top.incremented(page_size(display_height) as u64),
                repeated,
            ),
            Action::PageUp => self.coalesced(
                top.decremented(page_size(display_height) as u64),
                repeated,
            ),
            Action::Home => self.pushed(top.decremented(u64::MAX)),
            Action::End => self.pushed(top.incremented(u64::MAX)),
            Action::Undo => self.undone(),
            Action::Redo => self.redone(),
        }
    }
}

/// Stores `cursor` as the outcome of a coarse move: over the current entry
/// where the same key is held down (`key_repeated`), else as a new entry.
pub fn push_cursor_if_key_changed_else_set(
    cursor_stack: &mut CursorStack,
    cursor: Cursor,
    key_repeated: bool,
)
    requires
        old(cursor_stack)@.well_formed(),
    ensures
        final(cursor_stack)@ == old(cursor_stack)@.coalesced(cursor, key_repeated),
        final(cursor_stack)@.well_formed(),
{
    if key_repeated {
        *cursor_stack.top_mut() = cursor;
    } else {
        cursor_stack.push(cursor);
    }
}

/// Carries out `action` on the history. `key_repeated` says that the key
/// behind the action is the one that was pressed last; `display_height` is
/// the number of rows shown.
pub fn apply(cursor_stack: &mut CursorStack, action: Action, key_repeated: bool, display_height: u16)
    requires
        old(cursor_stack)@.well_formed(),
        action.moves() ==> old(cursor_stack)@.top().well_formed(),
    ensures
        final(cursor_stack)@ == old(cursor_stack)@.after(action, key_repeated, display_height),
        final(cursor_stack)@.well_formed(),
        old(cursor_stack)@.cursors_in_order() ==> final(cursor_stack)@.cursors_in_order(),
{
    let columns = COLUMNS as u64;
    let page = columns * (display_height as u64 / 2);
    match action {
        Action::Right => {
            cursor_stack.top_mut().increment(1);
        },
        Action::Left => {
            cursor_stack.top_mut().decrement(1);
        },
        Action::Down => {
            cursor_stack.top_mut().increment(columns);
        },
        Action::Up => {
            if cursor_stack.top().start() >= columns {
                cursor_stack.top_mut().decrement(columns);
            }
        },
        Action::Grow => {
            cursor_stack.top_mut().grow();
        },
        Action::Shrink => {
            cursor_stack.top_mut().shrink();
        },
        Action::SkipRight => {
            cursor_stack.top_mut().skip_right();
        },
        Action::SkipLeft => {
            cursor_stack.top_mut().skip_left();
        },
        Action::PageDown => {
            let mut cursor = cursor_stack.top();
            cursor.increment(page);
            push_cursor_if_key_changed_else_set(cursor_stack, cursor, key_repeated);
        },
        Action::PageUp => {
            let mut cursor = cursor_stack.top();
            cursor.decrement(page);
            push_cursor_if_key_changed_else_set(cursor_stack, cursor, key_repeated);
        },
        Action::Home => {
            let mut cursor = cursor_stack.top();
            cursor.decrement(u64::MAX);
            cursor_stack.push(cursor);
        },
        Action::End => {
            let mut cursor = cursor_stack.top();
            cursor.increment(u64::MAX);
            cursor_stack.push(cursor);
        },
        Action::Undo => {
            cursor_stack.undo();
        },
        Action::Redo => {
            cursor_stack.redo();
        },
    }
}

/// The modifier keys held down with a key. Bindings know a key alone and a
/// key with exactly one of shift, control and alt.
#[derive(Debug, Clone, Copy, PartialEq, Eq, Structural)]
pub enum Held {
    Nothing,
    Shift,
    Control,
    Alt,
    /// Any other modifier, or more than one.
    Other,
}

/// The keys that bindings know.
#[derive(Debug, Clone, Copy, PartialEq, Eq, Structural)]
pub enum Key {
    Char(char),
    Left,
    Right,
    Up,
    Down,
    Tab,
    BackTab,
    PageUp,
    PageDown,
    Home,
    End,
    Esc,
    /// Any other key.
    Other,
}

/// What a key press asks for.
#[derive(Debug, Clone, Copy, PartialEq, Eq, Structural)]
pub enum Command {
    /// Leave the program.
    Quit,
    /// Interrupt the program, as control-C does outside raw mode.
    Interrupt,
    /// Suspend the program, as control-Z does outside raw mode.
    Suspend,
    /// Change the selection.
    Navigate(Action),
    /// The key has no meaning.
    Unbound,
}

/// What a key means when nothing else is held.
pub open spec fn plain_binding(key: Key) -> Command {
    match key {
        Key::Esc | Key::Char('q') => Command::Quit,
        Key::Char('l') | Key::Right => Command::Navigate(Action::Right),
        Key::Char('h') | Key::Left => Command::Navigate(Action::Left),
        Key::Char('j') | Key::Down => Command::Navigate(Action::Down),
        Key::Char('k') | Key::Up => Command::Navigate(Action::Up),
        Key::Tab => Command::Navigate(Action::SkipRight),
        Key::PageDown => Command::Navigate(Action::PageDown),
        Key::PageUp => Command::Navigate(Action::PageUp),
        Key::Home => Command::Navigate(Action::Home),
        Key::End => Command::Navigate(Action::End),
        Key::Char('z') => Command::Navigate(Action::Undo),
        _ => Command::Unbound,
    }
}

/// What a key means together with shift.
pub open spec fn shift_binding(key: Key) -> Command {
    match key {
        Key::Char('L') => Command::Navigate(Action::Grow),
        Key::Char('H') => Command::Navigate(Action::Shrink),
        Key::BackTab => Command::Navigate(Action::SkipLeft),
        Key::Char('Z') => Command::Navigate(Action::Redo),
        _ => Command::Unbound,
    }
}

/// What a key means together with control.
pub open spec fn control_binding(key: Key) -> Command {
    match key {
        Key::Char('c') => Command::Interrupt,
        Key::Char('z') => Command::Suspend,
        _ => Command::Unbound,
    }
}

/// What a key means together with alt.
pub open spec fn alt_binding(key: Key) -> Command {
    match key {
        Key::Char('f') => Command::Navigate(Action::SkipRight),
        Key::Char('b') => Command::Navigate(Action::SkipLeft),
        _ => Command::Unbound,
    }
}

/// What a key press means.
pub open spec fn binding(held: Held, key: Key) -> Command {
    match held {
        Held::Nothing => plain_binding(key),
        Held::Shift => shift_binding(key),
        Held::Control => control_binding(key),
        Held::Alt => alt_binding(key),
        Held::Other => Command::Unbound,
    }
}

/// The command that a key press stands for.
pub fn command_for(held: Held, key: Key) -> (command: Command)
    ensures
        command == binding(held, key),
{
    match (held, key) {
        (Held::Nothing, Key::Esc) | (Held::Nothing, Key::Char('q')) => Command::Quit,
        (Held::Control, Key::Char('c')) => Command::Interrupt,
        (Held::Control, Key::Char('z')) => Command::Suspend,
        (Held::Nothing, Key::Char('l')) | (Held::Nothing, Key::Right) => Command::Navigate(
            Action::Right,
        ),
        (Held::Nothing, Key::Char('h')) | (Held::Nothing, Key::Left) => Command::Navigate(
            Action::Left,
        ),
        (Held::Nothing, Key::Char('j')) | (Held::Nothing, Key::Down) => Command::Navigate(
            Action::Down,
        ),
        (Held::Nothing, Key::Char('k')) | (Held::Nothing, Key::Up) => Command::Navigate(
            Action::Up,
        ),
        (Held::Shift, Key::Char('L')) => Command::Navigate(Action::Grow),
        (Held::Shift, Key::Char('H')) => Command::Navigate(Action::Shrink),
        (Held::Nothing, Key::Tab) | (Held::Alt, Key::Char('f')) => Command::Navigate(
            Action::SkipRight,
        ),
        (Held::Shift, Key::BackTab) | (Held::Alt, Key::Char('b')) => Command::Navigate(
            Action::SkipLeft,
        ),
        (Held::Nothing, Key::PageDown) => Command::Navigate(Action::PageDown),
        (Held::Nothing, Key::PageUp) => Command::Navigate(Action::PageUp),
        (Held::Nothing, Key::Home) => Command::Navigate(Action::Home),
        (Held::Nothing, Key::End) => Command::Navigate(Action::End),
        (Held::Nothing, Key::Char('z')) => Command::Navigate(Action::Undo),
        (Held::Shift, Key::Char('Z')) => Command::Navigate(Action::Redo),
        (_, _) => Command::Unbound,
    }
}

} // verus!
