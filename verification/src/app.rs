//! The application state machine: run/quit state, the focus sub-mode of the
//! active tab, and the dispatch of one input event to at most one transition.

use vstd::prelude::*;

use crate::tabs::NUM_TABS;
use crate::tabs::SelectedTab;

verus! {

/// Whether the run loop keeps going or exits after the current iteration.
#[derive(Clone, Copy, Debug, PartialEq, Eq, Structural)]
pub enum AppState {
    Running,
    Quitting,
}

/// Whether the active tab's content is in its focused sub-mode.
#[derive(Clone, Copy, Debug, PartialEq, Eq, Structural)]
pub enum TabState {
    Selected,
    NotSelected,
}

/// A key, reduced to what dispatch distinguishes.
#[derive(Clone, Copy, Debug, PartialEq, Eq, Structural)]
pub enum Key {
    Char(char),
    Left,
    Right,
    Up,
    Down,
    Esc,
    Other,
}

/// One event read from the terminal, reduced to what dispatch distinguishes.
/// `pressed` is true only for the initial press of a key, not for a release
/// or a repeat.
#[derive(Clone, Copy, Debug, PartialEq, Eq, Structural)]
pub enum InputEvent {
    Key { code: Key, pressed: bool },
    Other,
}

/// The transition an event maps to; at most one per event.
#[derive(Clone, Copy, Debug, PartialEq, Eq, Structural)]
pub enum Action {
    NextTab,
    PreviousTab,
    Quit,
    Unselect,
    Select,
    Nothing,
}

/// The fixed key-to-action table: `l`/right advance, `h`/left go back,
/// `q`/escape quit, `k`/up unselect, `j`/down select; everything else,
/// and any event that is not an initial key press, does nothing.
pub open spec fn spec_action_of(ev: InputEvent) -> Action {
    match ev {
        InputEvent::Key { code, pressed } => {
            if pressed {
                match code {
                    Key::Char(c) => {
                        if c == 'l' {
                            Action::NextTab
                        } else if c == 'h' {
                            Action::PreviousTab
                        } else if c == 'q' {
                            Action::Quit
                        } else if c == 'k' {
                            Action::Unselect
                        } else if c == 'j' {
                            Action::Select
                        } else {
                            Action::Nothing
                        }
                    },
                    Key::Right => Action::NextTab,
                    Key::Left => Action::PreviousTab,
                    Key::Esc => Action::Quit,
                    Key::Up => Action::Unselect,
                    Key::Down => Action::Select,
                    Key::Other => Action::Nothing,
                }
            } else {
                Action::Nothing
            }
        },
        InputEvent::Other => Action::Nothing,
    }
}

/// Look an event up in the key-to-action table.
pub fn action_of(ev: InputEvent) -> (r: Action)
    ensures
        r == spec_action_of(ev),
{
    match ev {
        InputEvent::Key { code, pressed } => {
            if pressed {
                match code {
                    Key::Char(c) => {
                        if c == 'l' {
                            Action::NextTab
                        } else if c == 'h' {
                            Action::PreviousTab
                        } else if c == 'q' {
                            Action::Quit
                        } else if c == 'k' {
                            Action::Unselect
                        } else if c == 'j' {
                            Action::Select
                        } else {
                            Action::Nothing
                        }
                    },
                    Key::Right => Action::NextTab,
                    Key::Left => Action::PreviousTab,
                    Key::Esc => Action::Quit,
                    Key::Up => Action::Unselect,
                    Key::Down => Action::Select,
                    Key::Other => Action::Nothing,
                }
            } else {
                Action::Nothing
            }
        },
        InputEvent::Other => Action::Nothing,
    }
}

/// The whole application state: run/quit state, active tab, focus sub-mode.
#[derive(Clone, Copy, Debug, PartialEq, Eq, Structural)]
pub struct App {
    pub state: AppState,
    pub selected_tab: SelectedTab,
    pub tab_state: TabState,
}

impl App {
    /// The state a session starts in: running, first tab, focused.
    pub open spec fn spec_initial() -> App {
        App { state: AppState::Running, selected_tab: SelectedTab::Tab1, tab_state: TabState::Selected }
    }

    /// The state after dispatching one event: the event's action applied to
    /// its field, every other field unchanged.
    pub open spec fn spec_dispatch(s: App, ev: InputEvent) -> App {
        match spec_action_of(ev) {
            Action::NextTab => App {
                state: s.state,
                selected_tab: s.selected_tab.spec_next(),
                tab_state: s.tab_state,
            },
            Action::PreviousTab => App {
                state: s.state,
                selected_tab: s.selected_tab.spec_previous(),
                tab_state: s.tab_state,
            },
            Action::Quit => App {
                state: AppState::Quitting,
                selected_tab: s.selected_tab,
                tab_state: s.tab_state,
            },
            Action::Unselect => App {
                state: s.state,
                selected_tab: s.selected_tab,
                tab_state: TabState::NotSelected,
            },
            Action::Select => App {
                state: s.state,
                selected_tab: s.selected_tab,
                tab_state: TabState::Selected,
            },
            Action::Nothing => s,
        }
    }

    pub fn new() -> (r: App)
        ensures
            r == App::spec_initial(),
    {
        App { state: AppState::Running, selected_tab: SelectedTab::Tab1, tab_state: TabState::Selected }
    }

    /// Whether the run loop should keep going.
    pub fn is_running(&self) -> (r: bool)
        ensures
            r == (self.state == AppState::Running),
    {
        matches!(self.state, AppState::Running)
    }

    /// Advance to the next tab, saturating at the last; the run state and
    /// the focus sub-mode are untouched.
    pub fn next_tab(&mut self)
        ensures
            final(self).selected_tab == old(self).selected_tab.spec_next(),
            final(self).state == old(self).state,
            final(self).tab_state == old(self).tab_state,
    {
        self.selected_tab = self.selected_tab.next();
    }

    /// Go back to the previous tab, saturating at the first; the run state
    /// and the focus sub-mode are untouched.
    pub fn previous_tab(&mut self)
        ensures
            final(self).selected_tab == old(self).selected_tab.spec_previous(),
            final(self).state == old(self).state,
            final(self).tab_state == old(self).tab_state,
    {
        self.selected_tab = self.selected_tab.previous();
    }

    /// Leave the run loop after the current iteration; the active tab and
    /// the focus sub-mode are untouched.
    pub fn quit(&mut self)
        ensures
            final(self).state == AppState::Quitting,
            final(self).selected_tab == old(self).selected_tab,
            final(self).tab_state == old(self).tab_state,
    {
        self.state = AppState::Quitting;
    }

    /// Put the active tab's content into its focused sub-mode; the run state
    /// and the active tab are untouched.
    pub fn select_tab(&mut self)
        ensures
            final(self).tab_state == TabState::Selected,
            final(self).state == old(self).state,
            final(self).selected_tab == old(self).selected_tab,
    {
        self.tab_state = TabState::Selected;
    }

    /// Take the active tab's content out of its focused sub-mode; the run
    /// state and the active tab are untouched.
    pub fn unselect_tab(&mut self)
        ensures
            final(self).tab_state == TabState::NotSelected,
            final(self).state == old(self).state,
            final(self).selected_tab == old(self).selected_tab,
    {
        self.tab_state = TabState::NotSelected;
    }

    /// Dispatch one input event: route it through the key-to-action table
    /// and apply the single transition it maps to, if any.
    pub fn handle_event(&mut self, ev: InputEvent)
        ensures
            *final(self) == App::spec_dispatch(*old(self), ev),
    {
        match action_of(ev) {
            Action::NextTab => self.next_tab(),
            Action::PreviousTab => self.previous_tab(),
            Action::Quit => self.quit(),
            Action::Unselect => self.unselect_tab(),
            Action::Select => self.select_tab(),
            Action::Nothing => {},
        }
    }
}

impl Default for App {
    /// The same state as `App::new`.
    fn default() -> (r: Self)
        ensures
            r == App::spec_initial(),
    {
        App::new()
    }
}

/// The state after dispatching every event of `evs`, in order.
pub open spec fn spec_run(s: App, evs: Seq<InputEvent>) -> App
    decreases evs.len(),
{
    if evs.len() == 0 {
        s
    } else {
        spec_run(App::spec_dispatch(s, evs[0]), evs.drop_first())
    }
}

/// In every application state the active tab is a valid registry index.
pub proof fn lemma_active_tab_in_range(s: App)
    ensures
        0 <= s.selected_tab.spec_index() < NUM_TABS,
{
}

/// Once the application is quitting, no further event changes the run state.
pub proof fn lemma_quit_is_final(s: App, ev: InputEvent)
    requires
        s.state == AppState::Quitting,
    ensures
        App::spec_dispatch(s, ev).state == AppState::Quitting,
{
}

/// Once the application is quitting, no trace of further events, however
/// long, changes the run state.
pub proof fn lemma_quit_persists(s: App, evs: Seq<InputEvent>)
    requires
        s.state == AppState::Quitting,
    ensures
        spec_run(s, evs).state == AppState::Quitting,
    decreases evs.len(),
{
    if evs.len() > 0 {
        lemma_quit_is_final(s, evs[0]);
        lemma_quit_persists(App::spec_dispatch(s, evs[0]), evs.drop_first());
    }
}

/// Dispatching an event whose action is `Nothing` changes no field.
pub proof fn lemma_unrecognized_event_is_noop(s: App, ev: InputEvent)
    requires
        spec_action_of(ev) == Action::Nothing,
    ensures
        App::spec_dispatch(s, ev) == s,
{
}

/// Tab navigation never changes the focus sub-mode or the run state, and
/// focus changes never move the active tab.
pub proof fn lemma_transitions_independent(s: App, ev: InputEvent)
    ensures
        spec_action_of(ev) == Action::NextTab || spec_action_of(ev) == Action::PreviousTab
            ==> App::spec_dispatch(s, ev).tab_state == s.tab_state
                && App::spec_dispatch(s, ev).state == s.state,
        spec_action_of(ev) == Action::Select || spec_action_of(ev) == Action::Unselect
            ==> App::spec_dispatch(s, ev).selected_tab == s.selected_tab
                && App::spec_dispatch(s, ev).state == s.state,
{
}

} // verus!
