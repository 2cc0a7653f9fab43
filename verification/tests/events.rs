use swelearn::events::{action_for_event, Action, InputEvent, Key};

fn press(key: Key) -> Action {
    action_for_event(InputEvent::KeyPress(key))
}

#[test]
fn key_bindings() {
    assert_eq!(press(Key::Char('q')), Action::Quit);
    assert_eq!(press(Key::Esc), Action::Back);
    assert_eq!(press(Key::Char('b')), Action::Back);
    assert_eq!(press(Key::Up), Action::NavigateUp);
    assert_eq!(press(Key::Char('k')), Action::NavigateUp);
    assert_eq!(press(Key::Down), Action::NavigateDown);
    assert_eq!(press(Key::Char('j')), Action::NavigateDown);
    assert_eq!(press(Key::Enter), Action::Select);
    assert_eq!(press(Key::Char('/')), Action::Search);
    assert_eq!(press(Key::Char('?')), Action::Help);
}

#[test]
fn other_input_does_nothing() {
    assert_eq!(press(Key::Char('Q')), Action::NoOp);
    assert_eq!(press(Key::Char('x')), Action::NoOp);
    assert_eq!(press(Key::Other), Action::NoOp);
    assert_eq!(action_for_event(InputEvent::Other), Action::NoOp);
}
