use swelearn::app::{App, Screen};
use swelearn::content::topics_for_module;
use swelearn::events::Action;
use swelearn::modules::all_modules;

fn state(app: &App) -> (bool, Screen, usize, usize, usize, u16) {
    (app.should_quit, app.screen, app.selected, app.active_module, app.active_topic, app.scroll)
}

#[test]
fn starts_on_home() {
    let app = App::new();
    assert_eq!(state(&app), (false, Screen::Home, 0, 0, 0, 0));
    assert_eq!(state(&App::default()), state(&app));
}

#[test]
fn home_navigation_stays_in_the_list() {
    let mut app = App::new();
    app.handle_action(Action::NavigateUp);
    assert_eq!(app.selected, 0);
    for _ in 0..10 {
        app.handle_action(Action::NavigateDown);
    }
    assert_eq!(app.selected, 5);
    app.handle_action(Action::NavigateUp);
    assert_eq!(app.selected, 4);
}

#[test]
fn open_module_then_back() {
    let mut app = App::new();
    app.handle_action(Action::NavigateDown);
    app.handle_action(Action::Select);
    assert_eq!(state(&app), (false, Screen::Module, 0, 1, 0, 0));
    app.handle_action(Action::Back);
    assert_eq!(state(&app), (false, Screen::Home, 1, 1, 0, 0));
}

#[test]
fn open_topic_scroll_and_back() {
    let mut app = App::new();
    app.handle_action(Action::NavigateDown);
    app.handle_action(Action::Select);
    for _ in 0..20 {
        app.handle_action(Action::NavigateDown);
    }
    assert_eq!(app.selected, 9);
    app.handle_action(Action::NavigateUp);
    app.handle_action(Action::Select);
    assert_eq!(state(&app), (false, Screen::Topic, 8, 1, 8, 0));
    app.handle_action(Action::NavigateUp);
    assert_eq!(app.scroll, 0);
    app.handle_action(Action::NavigateDown);
    app.handle_action(Action::NavigateDown);
    assert_eq!(app.scroll, 2);
    app.handle_action(Action::Select);
    assert_eq!(state(&app), (false, Screen::Topic, 8, 1, 8, 2));
    app.handle_action(Action::Back);
    assert_eq!(state(&app), (false, Screen::Module, 8, 1, 8, 2));
}

#[test]
fn scroll_saturates() {
    let mut app = App::new();
    app.screen = Screen::Topic;
    app.scroll = u16::MAX;
    app.handle_action(Action::NavigateDown);
    assert_eq!(app.scroll, u16::MAX);
}

#[test]
fn empty_module_cannot_be_entered_further() {
    let mut app = App::new();
    for _ in 0..4 {
        app.handle_action(Action::NavigateDown);
    }
    app.handle_action(Action::Select);
    assert_eq!(state(&app), (false, Screen::Module, 0, 4, 0, 0));
    app.handle_action(Action::NavigateDown);
    app.handle_action(Action::Select);
    assert_eq!(state(&app), (false, Screen::Module, 0, 4, 0, 0));
}

#[test]
fn quitting() {
    let mut app = App::new();
    app.handle_action(Action::NoOp);
    assert!(!app.should_quit);
    app.handle_action(Action::Back);
    assert!(app.should_quit);

    let mut app = App::new();
    app.handle_action(Action::Select);
    app.handle_action(Action::Select);
    app.handle_action(Action::Quit);
    assert_eq!(state(&app), (true, Screen::Topic, 0, 0, 0, 0));
}

#[test]
fn every_reachable_state_can_be_drawn() {
    let actions = [
        Action::NavigateDown,
        Action::Select,
        Action::NavigateDown,
        Action::NavigateDown,
        Action::Select,
        Action::NavigateDown,
        Action::Back,
        Action::NavigateUp,
        Action::NavigateUp,
        Action::NavigateUp,
        Action::Select,
        Action::Back,
        Action::Back,
        Action::NavigateDown,
        Action::NavigateDown,
        Action::NavigateDown,
        Action::Select,
        Action::Select,
        Action::NoOp,
    ];
    let mut app = App::new();
    for action in actions.iter().cycle().take(200) {
        app.handle_action(*action);
        app.should_quit = false;
        match app.screen {
            Screen::Home => assert!(app.selected < all_modules().len()),
            Screen::Module => {
                let n = topics_for_module(app.active_module).len();
                assert!(app.active_module < all_modules().len());
                assert!(app.selected < n || app.selected == 0);
            }
            Screen::Topic => {
                assert!(app.active_module < all_modules().len());
                assert!(app.active_topic < topics_for_module(app.active_module).len());
            }
        }
    }
}

#[test]
fn back_goes_up() {
    let mut app = App::new();
    app.handle_action(Action::Select);
    app.handle_action(Action::Select);
    assert_eq!(app.screen, Screen::Topic);
    app.handle_action(Action::Back);
    assert_eq!(app.screen, Screen::Module);
    app.handle_action(Action::Back);
    assert_eq!(app.screen, Screen::Home);
    assert!(!app.should_quit);
    app.handle_action(Action::Back);
    assert!(app.should_quit);
    app.handle_action(Action::Select);
    assert!(app.should_quit);
}

#[test]
fn help_overlay() {
    let mut app = App::new();
    app.handle_action(Action::NavigateDown);
    app.handle_action(Action::Help);
    assert!(app.show_help);
    app.handle_action(Action::NavigateDown);
    app.handle_action(Action::Select);
    assert_eq!(state(&app), (false, Screen::Home, 1, 0, 0, 0));
    app.handle_action(Action::Back);
    assert!(!app.show_help);
    assert!(!app.should_quit);
    app.handle_action(Action::Help);
    app.handle_action(Action::Help);
    assert!(!app.show_help);
    app.handle_action(Action::Help);
    app.handle_action(Action::Quit);
    assert!(app.should_quit);
}

#[test]
fn search_changes_nothing() {
    let mut app = App::new();
    app.handle_action(Action::Select);
    app.handle_action(Action::Search);
    assert_eq!(state(&app), (false, Screen::Module, 0, 0, 0, 0));
    assert!(!app.show_help);
}

#[test]
fn back_from_topic_after_scrolling_returns_to_its_row() {
    let mut app = App::new();
    app.handle_action(Action::Select);
    app.handle_action(Action::NavigateDown);
    app.handle_action(Action::NavigateDown);
    app.handle_action(Action::Select);
    for action in [Action::NavigateDown, Action::Select, Action::NavigateUp, Action::Search, Action::NoOp, Action::NavigateDown] {
        app.handle_action(action);
    }
    app.handle_action(Action::Back);
    assert_eq!(state(&app), (false, Screen::Module, 2, 0, 2, 1));
}
