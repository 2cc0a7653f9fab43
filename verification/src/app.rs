//! The navigation state of the tool and how actions change it.
use vstd::prelude::*;
use crate::content::{
    markdown_files, module_files, stable_sort_of, topic_of, topics_for_module, topics_listed,
    ContentFileView, Topic, TopicView,
};
use crate::events::Action;
use crate::modules::{all_modules, module_count};

verus! {

#[derive(Debug, Clone, Copy, PartialEq, Eq, Structural)]
pub enum Screen {
    Home,
    /// Topic list for the active module.
    Module,
    /// Scrollable content view for the active topic.
    Topic,
}

pub struct App {
    pub should_quit: bool,
    pub screen: Screen,
    /// Highlighted row index in whichever list is currently visible.
    pub selected: usize,
    /// Module the user navigated into.
    pub active_module: usize,
    /// Topic the user opened within the active module.
    pub active_topic: usize,
    /// Vertical scroll offset for the topic content view.
    pub scroll: u16,
    /// The key help is shown over the current screen.
    pub show_help: bool,
}

// ---------------------------------------------------------------------------
// Specification
// ---------------------------------------------------------------------------

/// The number of topics of a module.
pub open spec fn topic_count(module_index: int) -> nat {
    markdown_files(module_files(module_index)).len()
}

/// The state the tool starts in: the home screen, first row highlighted.
pub open spec fn initial_app() -> App {
    App {
        should_quit: false,
        screen: Screen::Home,
        selected: 0,
        active_module: 0,
        active_topic: 0,
        scroll: 0,
        show_help: false,
    }
}

/// What an action does on the home screen (the module list).
pub open spec fn home_step(a: App, action: Action) -> App {
    match action {
        Action::Quit | Action::Back => App { should_quit: true, ..a },
        Action::NavigateUp => if a.selected > 0 {
            App { selected: (a.selected - 1) as usize, ..a }
        } else {
            a
        },
        Action::NavigateDown => if a.selected + 1 < module_count() {
            App { selected: (a.selected + 1) as usize, ..a }
        } else {
            a
        },
        Action::Select => App { active_module: a.selected, selected: 0, screen: Screen::Module, ..a },
        Action::Search | Action::Help | Action::NoOp => a,
    }
}

/// What an action does on the topic list of a module with `count` topics.
pub open spec fn module_step(a: App, action: Action, count: nat) -> App {
    match action {
        Action::Quit => App { should_quit: true, ..a },
        Action::Back => App { selected: a.active_module, screen: Screen::Home, ..a },
        Action::NavigateUp => if a.selected > 0 {
            App { selected: (a.selected - 1) as usize, ..a }
        } else {
            a
        },
        Action::NavigateDown => if count > 0 && a.selected + 1 < count {
            App { selected: (a.selected + 1) as usize, ..a }
        } else {
            a
        },
        Action::Select => if count > 0 {
            App { active_topic: a.selected, scroll: 0, screen: Screen::Topic, ..a }
        } else {
            a
        },
        Action::Search | Action::Help | Action::NoOp => a,
    }
}

/// What an action does on the content view of a topic.
pub open spec fn topic_step(a: App, action: Action) -> App {
    match action {
        Action::Quit => App { should_quit: true, ..a },
        Action::Back => App { selected: a.active_topic, screen: Screen::Module, ..a },
        Action::NavigateUp => App { scroll: a.scroll.saturating_sub(1), ..a },
        Action::NavigateDown => App { scroll: a.scroll.saturating_add(1), ..a },
        Action::Select | Action::Search | Action::Help | Action::NoOp => a,
    }
}

/// What an action does while the key help is shown: `Help` or `Back` hides
/// it, `Quit` quits, and everything else is ignored.
pub open spec fn help_step(a: App, action: Action) -> App {
    match action {
        Action::Quit => App { should_quit: true, ..a },
        Action::Help | Action::Back => App { show_help: false, ..a },
        _ => a,
    }
}

/// What an action does. While the key help is shown, `help_step`.
/// Otherwise `Help` shows the key help on every screen; `Search` leaves the
/// state as it is on every screen, as the tool has no search view; and the
/// other actions act on whichever screen is visible.
pub open spec fn step(a: App, action: Action) -> App {
    if a.show_help {
        help_step(a, action)
    } else if action == Action::Help {
        App { show_help: true, ..a }
    } else {
        match a.screen {
            Screen::Home => home_step(a, action),
            Screen::Module => module_step(a, action, topic_count(a.active_module as int)),
            Screen::Topic => topic_step(a, action),
        }
    }
}

/// The state is one the screens can show: the highlighted row is a row of
/// the visible list (or the first row of an empty one), and the active
/// module and topic exist.
pub open spec fn well_formed(a: App) -> bool {
    match a.screen {
        Screen::Home => a.selected < module_count(),
        Screen::Module => a.active_module < module_count() && (a.selected < topic_count(
            a.active_module as int,
        ) || a.selected == 0),
        Screen::Topic => a.active_module < module_count() && a.active_topic < topic_count(
            a.active_module as int,
        ),
    }
}

// ---------------------------------------------------------------------------
// Implementation
// ---------------------------------------------------------------------------

/// The topic list of a module is as long as the module has topics.
proof fn lemma_listed_len(fs: Seq<ContentFileView>, topics: Seq<TopicView>)
    requires
        topics_listed(fs, topics),
    ensures
        topics.len() == markdown_files(fs).len(),
{
    let sorted = choose|sorted: Seq<ContentFileView>|
        stable_sort_of(markdown_files(fs), sorted) && topics == sorted.map_values(
            |f: ContentFileView| topic_of(f),
        );
}

impl App {
    pub fn new() -> (app: Self)
        ensures
            app == initial_app(),
            well_formed(app),
    {
        Self {
            should_quit: false,
            screen: Screen::Home,
            selected: 0,
            active_module: 0,
            active_topic: 0,
            scroll: 0,
            show_help: false,
        }
    }

    pub fn handle_action(&mut self, action: Action)
        ensures
            *final(self) == step(*old(self), action),
    {
        if self.show_help {
            self.handle_help(action);
        } else if action == Action::Help {
            self.show_help = true;
        } else {
            match self.screen {
                Screen::Home => self.handle_home(action),
                Screen::Module => self.handle_module(action),
                Screen::Topic => self.handle_topic(action),
            }
        }
    }

    fn handle_help(&mut self, action: Action)
        ensures
            *final(self) == help_step(*old(self), action),
    {
        match action {
            Action::Quit => self.should_quit = true,
            Action::Help | Action::Back => self.show_help = false,
            _ => {},
        }
    }

    fn handle_home(&mut self, action: Action)
        ensures
            *final(self) == home_step(*old(self), action),
    {
        let module_count = all_modules().len();
        match action {
            Action::Quit | Action::Back => self.should_quit = true,
            Action::NavigateUp => {
                if self.selected > 0 {
                    self.selected -= 1;
                }
            },
            Action::NavigateDown => {
                if module_count > 0 && self.selected < module_count - 1 {
                    self.selected += 1;
                }
            },
            Action::Select => {
                self.active_module = self.selected;
                self.selected = 0;
                self.screen = Screen::Module;
            },
            Action::Search | Action::Help | Action::NoOp => {},
        }
    }

    fn handle_module(&mut self, action: Action)
        ensures
            *final(self) == module_step(
                *old(self),
                action,
                topic_count(old(self).active_module as int),
            ),
    {
        let topics = topics_for_module(self.active_module);
        let topic_count = topics.len();
        proof {
            lemma_listed_len(module_files(self.active_module as int), topics@.map_values(|t: Topic| t@));
        }
        match action {
            Action::Quit => self.should_quit = true,
            Action::Back => {
                self.selected = self.active_module;
                self.screen = Screen::Home;
            },
            Action::NavigateUp => {
                if self.selected > 0 {
                    self.selected -= 1;
                }
            },
            Action::NavigateDown => {
                if topic_count > 0 && self.selected < topic_count - 1 {
                    self.selected += 1;
                }
            },
            Action::Select => {
                if topic_count > 0 {
                    self.active_topic = self.selected;
                    self.scroll = 0;
                    self.screen = Screen::Topic;
                }
            },
            Action::Search | Action::Help | Action::NoOp => {},
        }
    }

    fn handle_topic(&mut self, action: Action)
        ensures
            *final(self) == topic_step(*old(self), action),
    {
        match action {
            Action::Quit => self.should_quit = true,
            Action::Back => {
                self.selected = self.active_topic;
                self.screen = Screen::Module;
            },
            Action::NavigateUp => {
                self.scroll = self.scroll.saturating_sub(1);
            },
            Action::NavigateDown => {
                self.scroll = self.scroll.saturating_add(1);
            },
            Action::Select | Action::Search | Action::Help | Action::NoOp => {},
        }
    }
}

impl Default for App {
    fn default() -> (app: Self)
        ensures
            app == initial_app(),
    {
        Self::new()
    }
}

// ---------------------------------------------------------------------------
// Laws
// ---------------------------------------------------------------------------

/// Every action keeps a well-formed state well-formed, so the screens can
/// always show the highlighted row, the active module and the active topic.
pub proof fn lemma_step_keeps_well_formed(a: App, action: Action)
    requires
        well_formed(a),
    ensures
        well_formed(step(a, action)),
{
}

/// Opening a module from the home screen and going back returns to the
/// home screen with the same module highlighted.
pub proof fn lemma_open_module_then_back(a: App)
    requires
        !a.show_help,
        a.screen == Screen::Home,
    ensures
        step(step(a, Action::Select), Action::Back) == (App { active_module: a.selected, ..a }),
{
}

/// Opening a topic of a module that has topics and going back returns to
/// the module's list with the same topic highlighted.
pub proof fn lemma_open_topic_then_back(a: App)
    requires
        !a.show_help,
        a.screen == Screen::Module,
        topic_count(a.active_module as int) > 0,
    ensures
        step(step(a, Action::Select), Action::Back) == (App {
            active_topic: a.selected,
            scroll: 0,
            ..a
        }),
{
}

/// Selecting in a module without topics changes nothing.
pub proof fn lemma_select_in_empty_module(a: App)
    requires
        a.screen == Screen::Module,
        topic_count(a.active_module as int) == 0,
    ensures
        step(a, Action::Select) == a,
{
}

/// `Quit` quits from every screen and changes nothing else.
pub proof fn lemma_quit(a: App)
    ensures
        step(a, Action::Quit) == (App { should_quit: true, ..a }),
{
}

/// The tool quits only on `Quit`, or on `Back` from the home screen.
pub proof fn lemma_quits_only_on_request(a: App, action: Action)
    requires
        !a.should_quit,
        step(a, action).should_quit,
    ensures
        action == Action::Quit || (action == Action::Back && a.screen == Screen::Home),
{
}

/// An event that maps to no action changes nothing.
pub proof fn lemma_no_op(a: App)
    ensures
        step(a, Action::NoOp) == a,
{
}

/// Moving up and then down returns to the highlighted row of a list, when
/// the row was not the first one.
pub proof fn lemma_up_then_down(a: App)
    requires
        well_formed(a),
        a.screen != Screen::Topic,
        a.selected > 0,
    ensures
        step(step(a, Action::NavigateUp), Action::NavigateDown) == a,
{
}

/// Scrolling up and then down returns to the scroll offset, when it was
/// not at the top.
pub proof fn lemma_scroll_up_then_down(a: App)
    requires
        a.screen == Screen::Topic,
        a.scroll > 0,
    ensures
        step(step(a, Action::NavigateUp), Action::NavigateDown) == a,
{
}

/// Scrolling down and then up returns to the scroll offset, when it was
/// not at the largest offset.
pub proof fn lemma_scroll_down_then_up(a: App)
    requires
        a.screen == Screen::Topic,
        a.scroll < u16::MAX,
    ensures
        step(step(a, Action::NavigateDown), Action::NavigateUp) == a,
{
}

/// `Back` leads one level up (when the key help is not shown): from a topic to its module's list, from a
/// module's list to the home screen; on the home screen it quits.
pub proof fn lemma_back_goes_up(a: App)
    requires
        !a.show_help,
    ensures
        a.screen == Screen::Topic ==> step(a, Action::Back).screen == Screen::Module,
        a.screen == Screen::Module ==> step(a, Action::Back).screen == Screen::Home,
        a.screen == Screen::Home ==> step(a, Action::Back).should_quit,
{
}

/// Once the tool is quitting, no action takes that back.
pub proof fn lemma_quit_is_final(a: App, action: Action)
    requires
        a.should_quit,
    ensures
        step(a, action).should_quit,
{
}

/// Showing the key help and hiding it again, with `Help` or with `Back`,
/// returns to the same state.
pub proof fn lemma_help_then_close(a: App)
    requires
        !a.show_help,
    ensures
        step(step(a, Action::Help), Action::Help) == a,
        step(step(a, Action::Help), Action::Back) == a,
{
}

/// While the key help is shown, only `Quit`, `Help` and `Back` change the
/// state, and none of them moves between screens or rows.
pub proof fn lemma_help_blocks_navigation(a: App, action: Action)
    requires
        a.show_help,
    ensures
        action != Action::Quit && action != Action::Help && action != Action::Back ==> step(
            a,
            action,
        ) == a,
        step(a, action).screen == a.screen,
        step(a, action).selected == a.selected,
        step(a, action).scroll == a.scroll,
{
}

/// `Search` leaves the state as it is on every screen.
pub proof fn lemma_search(a: App)
    ensures
        step(a, Action::Search) == a,
{
}

/// The state after a sequence of actions, one after another.
pub open spec fn run_actions(a: App, actions: Seq<Action>) -> App
    decreases actions.len(),
{
    if actions.len() == 0 {
        a
    } else {
        run_actions(step(a, actions[0]), actions.drop_first())
    }
}

/// An action that stays within a topic's content view: scrolling,
/// `Select`, `Search` and events that map to nothing.
pub open spec fn stays_in_topic(action: Action) -> bool {
    ||| action == Action::NavigateUp
    ||| action == Action::NavigateDown
    ||| action == Action::Select
    ||| action == Action::Search
    ||| action == Action::NoOp
}

/// Actions that stay within a topic's content view change at most the
/// scroll offset.
pub proof fn lemma_topic_actions_keep_place(a: App, actions: Seq<Action>)
    requires
        a.screen == Screen::Topic,
        !a.show_help,
        forall|i: int| 0 <= i < actions.len() ==> stays_in_topic(#[trigger] actions[i]),
    ensures
        run_actions(a, actions) == (App { scroll: run_actions(a, actions).scroll, ..a }),
    decreases actions.len(),
{
    if actions.len() > 0 {
        let b = step(a, actions[0]);
        assert forall|i: int| 0 <= i < actions.drop_first().len() implies stays_in_topic(
            #[trigger] actions.drop_first()[i],
        ) by {
            assert(actions.drop_first()[i] == actions[i + 1]);
        }
        lemma_topic_actions_keep_place(b, actions.drop_first());
    }
}

/// Opening a topic, then scrolling or selecting any number of times, then
/// going back returns to the module's list with the opened topic's row
/// highlighted (when the key help is not shown).
pub proof fn lemma_back_from_topic_returns_to_row(a: App, actions: Seq<Action>)
    requires
        a.screen == Screen::Module,
        !a.show_help,
        a.selected < topic_count(a.active_module as int),
        forall|i: int| 0 <= i < actions.len() ==> stays_in_topic(#[trigger] actions[i]),
    ensures
        ({
            let b = step(run_actions(step(a, Action::Select), actions), Action::Back);
            &&& b.screen == Screen::Module
            &&& b.selected == a.selected
            &&& b.active_topic == a.selected
            &&& b.active_module == a.active_module
            &&& !b.show_help
        }),
{
    lemma_topic_actions_keep_place(step(a, Action::Select), actions);
}

} // verus!
