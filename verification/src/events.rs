//! High-level actions, and how terminal input maps to them.
use vstd::prelude::*;

verus! {

/// High-level actions produced by the event loop.
///
/// Each variant represents a user intention derived from one or more raw
/// terminal input events.
#[derive(Debug, Clone, Copy, PartialEq, Eq, Structural)]
pub enum Action {
    /// The user requested to quit the application.
    Quit,
    /// Navigate back to the previous screen.
    Back,
    /// Move the selection cursor up by one position.
    NavigateUp,
    /// Move the selection cursor down by one position.
    NavigateDown,
    /// Confirm / open the currently highlighted item.
    Select,
    /// Search within the current module.
    Search,
    /// Show or hide the key help.
    Help,
    /// The event did not map to any meaningful action.
    NoOp,
}

/// A key of the keyboard, as far as the key bindings tell keys apart.
#[derive(Debug, Clone, Copy, PartialEq, Eq, Structural)]
pub enum Key {
    /// A character key.
    Char(char),
    Esc,
    Up,
    Down,
    Enter,
    /// Any other key.
    Other,
}

/// A terminal input event, as far as the key bindings tell events apart.
#[derive(Debug, Clone, Copy, PartialEq, Eq, Structural)]
pub enum InputEvent {
    /// A key was pressed.
    KeyPress(Key),
    /// Anything else: key release and repeat, mouse, resize, focus, paste.
    Other,
}

/// The action that a pressed key stands for.
pub open spec fn key_action(key: Key) -> Action {
    match key {
        Key::Char('q') => Action::Quit,
        Key::Esc | Key::Char('b') => Action::Back,
        Key::Up | Key::Char('k') => Action::NavigateUp,
        Key::Down | Key::Char('j') => Action::NavigateDown,
        Key::Enter => Action::Select,
        Key::Char('/') => Action::Search,
        Key::Char('?') => Action::Help,
        _ => Action::NoOp,
    }
}

/// The action that an input event stands for: only key presses count.
pub open spec fn event_action(event: InputEvent) -> Action {
    match event {
        InputEvent::KeyPress(key) => key_action(key),
        InputEvent::Other => Action::NoOp,
    }
}

/// Map a terminal input event to an [`Action`].
///
/// Only key-press events count; key-release and repeat events are ignored.
///
/// | Input          | Action           |
/// |----------------|------------------|
/// | `q`            | `Quit`           |
/// | `Esc` or `b`   | `Back`           |
/// | `↑` or `k`     | `NavigateUp`     |
/// | `↓` or `j`     | `NavigateDown`   |
/// | `Enter`        | `Select`         |
/// | `/`            | `Search`         |
/// | `?`            | `Help`           |
/// | anything else  | `NoOp`           |
pub fn action_for_event(event: InputEvent) -> (action: Action)
    ensures
        action == event_action(event),
{
    match event {
        InputEvent::KeyPress(key) => match key {
            Key::Char('q') => Action::Quit,
            Key::Esc | Key::Char('b') => Action::Back,
            Key::Up | Key::Char('k') => Action::NavigateUp,
            Key::Down | Key::Char('j') => Action::NavigateDown,
            Key::Enter => Action::Select,
            Key::Char('/') => Action::Search,
            Key::Char('?') => Action::Help,
            _ => Action::NoOp,
        },
        InputEvent::Other => Action::NoOp,
    }
}

/// The key bindings, and only they, produce actions: each action comes
/// from exactly the keys of its row of the bindings table, and every other
/// event (any other key, a release, a non-key event) does nothing.
pub proof fn lemma_key_bindings(event: InputEvent)
    ensures
        event_action(event) == Action::Quit <==> event == InputEvent::KeyPress(Key::Char('q')),
        event_action(event) == Action::Back <==> (event == InputEvent::KeyPress(Key::Esc) || event
            == InputEvent::KeyPress(Key::Char('b'))),
        event_action(event) == Action::NavigateUp <==> (event == InputEvent::KeyPress(Key::Up)
            || event == InputEvent::KeyPress(Key::Char('k'))),
        event_action(event) == Action::NavigateDown <==> (event == InputEvent::KeyPress(Key::Down)
            || event == InputEvent::KeyPress(Key::Char('j'))),
        event_action(event) == Action::Select <==> event == InputEvent::KeyPress(Key::Enter),
        event_action(event) == Action::Search <==> event == InputEvent::KeyPress(Key::Char('/')),
        event_action(event) == Action::Help <==> event == InputEvent::KeyPress(Key::Char('?')),
        event_action(event) == Action::NoOp <==> !(event matches InputEvent::KeyPress(key) && (key
            == Key::Char('q') || key == Key::Esc || key == Key::Char('b') || key == Key::Up || key
            == Key::Char('k') || key == Key::Down || key == Key::Char('j') || key == Key::Enter
            || key == Key::Char('/') || key == Key::Char('?'))),
{
}

} // verus!
