//! Tests of the application dispatch loop: event-to-action mapping, action
//! application and chaining, and loop termination.

use tui_core::action::Action;
use tui_core::app::App;
use tui_core::tui::{Event, KeyCode, KeyEvent, MouseEvent, MouseKind, MOD_ALT, MOD_CONTROL, MOD_SHIFT};

fn key(code: KeyCode, modifiers: u8) -> KeyEvent {
    KeyEvent { code, modifiers }
}

#[test]
fn esc_maps_to_quit_regardless_of_modifiers() {
    let app = App::new();
    let all_modifiers = [
        0,
        MOD_SHIFT,
        MOD_CONTROL,
        MOD_ALT,
        MOD_SHIFT | MOD_CONTROL,
        MOD_SHIFT | MOD_CONTROL | MOD_ALT,
    ];
    for modifiers in all_modifiers {
        assert_eq!(
            app.handle_key_event(key(KeyCode::Esc, modifiers)),
            Some(Action::Quit)
        );
    }
}

#[test]
fn unmapped_keys_produce_no_action() {
    let app = App::new();
    let unmapped = [
        key(KeyCode::Char('q'), 0),
        key(KeyCode::Char('c'), MOD_CONTROL),
        key(KeyCode::Enter, 0),
        key(KeyCode::Tab, MOD_SHIFT),
        key(KeyCode::F(1), 0),
        key(KeyCode::Up, 0),
        key(KeyCode::Other, 0),
    ];
    for event in unmapped {
        assert_eq!(app.handle_key_event(event), None);
    }
}

#[test]
fn tick_event_maps_to_tick_action() {
    let app = App::new();
    assert_eq!(app.handle_event(&Event::Tick), Some(Action::Tick));
}

#[test]
fn render_event_maps_to_render_action() {
    let app = App::new();
    assert_eq!(app.handle_event(&Event::Render), Some(Action::Render));
}

#[test]
fn key_events_map_through_key_policy() {
    let app = App::new();
    assert_eq!(
        app.handle_event(&Event::Key(key(KeyCode::Esc, MOD_ALT))),
        Some(Action::Quit)
    );
    assert_eq!(app.handle_event(&Event::Key(key(KeyCode::Char('x'), 0))), None);
}

#[test]
fn other_events_map_to_no_action() {
    let app = App::new();
    let ignored = [
        Event::Init,
        Event::Quit,
        Event::Error,
        Event::Closed,
        Event::FocusGained,
        Event::FocusLost,
        Event::Paste(String::from("hello")),
        Event::Mouse(MouseEvent { kind: MouseKind::Down, column: 3, row: 7 }),
        Event::Resize(80, 24),
    ];
    for event in ignored {
        assert_eq!(app.handle_event(&event), None);
    }
}

#[test]
fn applying_any_action_yields_no_follow_up() {
    let mut app = App::new();
    assert_eq!(app.handle_action(Action::Tick), None);
    assert_eq!(app.handle_action(Action::Render), None);
    assert_eq!(app.handle_action(Action::Quit), None);
}

#[test]
fn only_quit_sets_the_quit_flag() {
    let mut app = App::new();
    app.handle_action(Action::Tick);
    assert!(!app.should_quit());
    app.handle_action(Action::Render);
    assert!(!app.should_quit());
    app.handle_action(Action::Quit);
    assert!(app.should_quit());
    // The flag stays set whatever is applied afterwards.
    app.handle_action(Action::Tick);
    assert!(app.should_quit());
}

#[test]
fn processing_a_tick_neither_draws_nor_quits() {
    let mut app = App::new();
    let outcome = app.process_event(&Event::Tick);
    assert!(!outcome.draw);
    assert!(!outcome.quit);
    assert!(!app.should_quit());
}

#[test]
fn processing_a_render_draws_once_and_continues() {
    let mut app = App::new();
    let outcome = app.process_event(&Event::Render);
    assert!(outcome.draw);
    assert!(!outcome.quit);
    assert!(!app.should_quit());
}

#[test]
fn processing_escape_draws_the_final_frame_and_quits() {
    let mut app = App::new();
    let outcome = app.process_event(&Event::Key(key(KeyCode::Esc, 0)));
    assert!(outcome.draw);
    assert!(outcome.quit);
    assert!(app.should_quit());
}

#[test]
fn processing_an_ignored_event_changes_nothing() {
    let mut app = App::new();
    let outcome = app.process_event(&Event::FocusLost);
    assert!(!outcome.draw);
    assert!(!outcome.quit);
    assert!(!app.should_quit());
}

#[test]
fn loop_exits_on_escape_with_quit_flag_set() {
    // Scenario: start the loop, send Key(Esc); the loop exits with the
    // quit flag set, having processed exactly that one event.
    let mut app = App::new();
    let events = vec![Event::Key(key(KeyCode::Esc, 0))];
    let processed = app.run_events(&events);
    assert_eq!(processed, 1);
    assert!(app.should_quit());
}

#[test]
fn no_events_are_processed_after_a_quit() {
    let mut app = App::new();
    let events = vec![
        Event::Tick,
        Event::Render,
        Event::Key(key(KeyCode::Esc, MOD_SHIFT)),
        Event::Tick,
        Event::Render,
        Event::Key(key(KeyCode::Char('a'), 0)),
    ];
    let processed = app.run_events(&events);
    // The loop terminates with the very iteration that applied the quit:
    // the three later events are never processed.
    assert_eq!(processed, 3);
    assert!(app.should_quit());
}

#[test]
fn without_a_quit_the_whole_stream_is_consumed() {
    let mut app = App::new();
    let events = vec![
        Event::Tick,
        Event::Render,
        Event::Key(key(KeyCode::Char('q'), 0)),
        Event::Paste(String::from("text")),
        Event::Resize(120, 40),
    ];
    let processed = app.run_events(&events);
    assert_eq!(processed, 5);
    assert!(!app.should_quit());
}

#[test]
fn empty_stream_processes_nothing() {
    let mut app = App::new();
    let processed = app.run_events(&Vec::new());
    assert_eq!(processed, 0);
    assert!(!app.should_quit());
}
