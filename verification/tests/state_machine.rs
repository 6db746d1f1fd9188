use ciphered::app::{Action, App, AppState, InputEvent, Key, TabState};
use ciphered::tabs::{SelectedTab, NUM_TABS};

fn press(code: Key) -> InputEvent {
    InputEvent::Key { code, pressed: true }
}

#[test]
fn initial_state() {
    let app = App::new();
    assert_eq!(app.state, AppState::Running);
    assert_eq!(app.selected_tab, SelectedTab::Tab1);
    assert_eq!(app.tab_state, TabState::Selected);
    assert_eq!(App::default(), app);
    assert!(app.is_running());
}

#[test]
fn action_table() {
    assert_eq!(ciphered::app::action_of(press(Key::Char('l'))), Action::NextTab);
    assert_eq!(ciphered::app::action_of(press(Key::Right)), Action::NextTab);
    assert_eq!(ciphered::app::action_of(press(Key::Char('h'))), Action::PreviousTab);
    assert_eq!(ciphered::app::action_of(press(Key::Left)), Action::PreviousTab);
    assert_eq!(ciphered::app::action_of(press(Key::Char('q'))), Action::Quit);
    assert_eq!(ciphered::app::action_of(press(Key::Esc)), Action::Quit);
    assert_eq!(ciphered::app::action_of(press(Key::Char('k'))), Action::Unselect);
    assert_eq!(ciphered::app::action_of(press(Key::Up)), Action::Unselect);
    assert_eq!(ciphered::app::action_of(press(Key::Char('j'))), Action::Select);
    assert_eq!(ciphered::app::action_of(press(Key::Down)), Action::Select);
    assert_eq!(ciphered::app::action_of(press(Key::Char('z'))), Action::Nothing);
    assert_eq!(ciphered::app::action_of(press(Key::Other)), Action::Nothing);
    // A release or repeat of a bound key maps to nothing.
    assert_eq!(
        ciphered::app::action_of(InputEvent::Key { code: Key::Char('q'), pressed: false }),
        Action::Nothing
    );
    assert_eq!(ciphered::app::action_of(InputEvent::Other), Action::Nothing);
}

#[test]
fn active_tab_always_in_range() {
    // Walk well past both ends; the index never leaves the registry.
    let mut app = App::new();
    for _ in 0..(2 * NUM_TABS) {
        app.next_tab();
        assert!(app.selected_tab.index() < NUM_TABS);
    }
    for _ in 0..(2 * NUM_TABS) {
        app.previous_tab();
        assert!(app.selected_tab.index() < NUM_TABS);
    }
}

#[test]
fn navigation_saturates_at_bounds() {
    // `next` at the last tab is a no-op.
    assert_eq!(SelectedTab::Tab6.next(), SelectedTab::Tab6);
    // `previous` at the first tab is a no-op.
    assert_eq!(SelectedTab::Tab1.previous(), SelectedTab::Tab1);
}

#[test]
fn navigation_round_trip() {
    // `next` then `previous` restores any tab but the last.
    assert_eq!(SelectedTab::Tab3.next().previous(), SelectedTab::Tab3);
    // `previous` then `next` restores any tab but the first.
    assert_eq!(SelectedTab::Tab3.previous().next(), SelectedTab::Tab3);
    // At the bounds the pair saturates instead.
    assert_eq!(SelectedTab::Tab6.next().previous(), SelectedTab::Tab5);
    assert_eq!(SelectedTab::Tab1.previous().next(), SelectedTab::Tab2);
}

#[test]
fn transitions_touch_only_their_field() {
    let mut app = App::new();
    // select/unselect never change the active tab.
    app.next_tab();
    let tab = app.selected_tab;
    app.select_tab();
    assert_eq!(app.selected_tab, tab);
    app.unselect_tab();
    assert_eq!(app.selected_tab, tab);
    // next/previous never change the focus sub-mode.
    app.unselect_tab();
    app.next_tab();
    assert_eq!(app.tab_state, TabState::NotSelected);
    app.previous_tab();
    assert_eq!(app.tab_state, TabState::NotSelected);
    app.select_tab();
    app.next_tab();
    app.previous_tab();
    assert_eq!(app.tab_state, TabState::Selected);
}

#[test]
fn quit_is_final() {
    let mut app = App::new();
    app.handle_event(press(Key::Char('q')));
    assert_eq!(app.state, AppState::Quitting);
    // No later event brings the run state back.
    for ev in [
        press(Key::Right),
        press(Key::Left),
        press(Key::Up),
        press(Key::Down),
        press(Key::Char('q')),
        press(Key::Char('z')),
        InputEvent::Other,
    ] {
        app.handle_event(ev);
        assert_eq!(app.state, AppState::Quitting);
    }
}

#[test]
fn seven_nexts_stop_at_last_tab() {
    // Six tabs, start at the first: seven `next` presses end at the last
    // tab, neither wrapped nor out of range.
    let mut app = App::new();
    for _ in 0..7 {
        app.handle_event(press(Key::Right));
    }
    assert_eq!(app.selected_tab.index(), NUM_TABS - 1);
    // Seven `previous` presses from there end at the first tab.
    for _ in 0..7 {
        app.handle_event(press(Key::Left));
    }
    assert_eq!(app.selected_tab.index(), 0);
}

#[test]
fn unrecognized_event_changes_nothing() {
    // Put the application on the tab at position 3.
    let mut app = App::new();
    for _ in 0..3 {
        app.next_tab();
    }
    assert_eq!(app.selected_tab.index(), 3);
    let before = app;
    for ev in [
        press(Key::Char('x')),
        press(Key::Other),
        InputEvent::Key { code: Key::Right, pressed: false },
        InputEvent::Other,
    ] {
        app.handle_event(ev);
        assert_eq!(app, before);
    }
}

#[test]
fn quit_ends_loop_with_one_release() {
    // Drive the run loop the way the binary does, against a scripted event
    // stream: quit arrives while the third tab (position 2) is active.
    let script = [
        press(Key::Right),
        press(Key::Right),
        press(Key::Char('q')),
        // Never reached: the loop must stop consuming after the quit.
        press(Key::Right),
    ];
    let mut app = App::new();
    let mut next_event: usize = 0;
    let mut renders: usize = 0;
    let mut releases: usize = 0;
    while app.is_running() {
        renders += 1;
        app.handle_event(script[next_event]);
        next_event += 1;
    }
    releases += 1;
    assert_eq!(app.state, AppState::Quitting);
    assert_eq!(app.selected_tab.index(), 2);
    assert_eq!(releases, 1);
    // One render preceded each consumed event, and the quit event was the
    // last one consumed.
    assert_eq!(next_event, 3);
    assert_eq!(renders, 3);
}
