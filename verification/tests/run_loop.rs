use amp_core::application::{
    build_terminal, presenter_for, Application, CommandEffect, DrawOutcome, LoopInput, Mode,
    PathArg, PathKind, PresenterKind,
};
use amp_core::error::Error;
use amp_core::event::{Event, Key};
use amp_core::modes::{OpenMode, PathIndex, SearchMode};
use amp_core::view::{Colors, Style, Surface};

fn fresh_app() -> Application {
    let args = vec![PathArg {
        raw: String::from("/usr/bin/editor"),
        kind: PathKind::Missing { absolute: true },
    }];
    let dir = String::from("/home/user");
    Application::new(&args, &dir, None, Ok(Surface::new(build_terminal())), Ok(()), None).unwrap()
}

fn key_input(c: char, effect: CommandEffect) -> LoopInput {
    LoopInput { draw: DrawOutcome::Drawn, event: Event::Key(Key::Char(c)), effect }
}

#[test]
fn events_are_consumed_in_arrival_order_and_the_queue_can_run_dry() {
    let mut app = fresh_app();
    let inputs = vec![
        key_input('a', CommandEffect::Stay),
        LoopInput { draw: DrawOutcome::Drawn, event: Event::Resize, effect: CommandEffect::Stay },
        key_input('b', CommandEffect::Stay),
    ];
    let r = app.run(inputs);
    // No event led to Exit, so the queue ran dry: the loop reports the
    // lost channel.
    let err = r.err().unwrap();
    assert_eq!(err.message, "Error receiving application event");
    // The last key processed was the later one: order was kept.
    assert!(matches!(app.view.last_key, Some(Key::Char('b'))));
    assert!(matches!(app.mode, Mode::Normal));
}

#[test]
fn the_loop_stops_at_exit_and_processes_nothing_afterwards() {
    let mut app = fresh_app();
    let inputs = vec![
        key_input('a', CommandEffect::Stay),
        key_input('q', CommandEffect::SwitchMode(Mode::Exit)),
        key_input('z', CommandEffect::Fail(Error::new(String::from("never handled")))),
    ];
    let r = app.run(inputs);
    assert!(r.is_ok());
    assert!(matches!(app.mode, Mode::Exit));
    // The event after Exit was never processed: its failure never
    // became the pending error, and its key was never recorded.
    assert!(app.error.is_none());
    assert!(matches!(app.view.last_key, Some(Key::Char('q'))));
}

#[test]
fn a_failing_command_becomes_the_pending_error_and_success_clears_it() {
    let mut app = fresh_app();
    app.handle_event(
        Event::Key(Key::Char('x')),
        CommandEffect::Fail(Error::new(String::from("unknown binding"))),
    );
    assert_eq!(app.error.as_ref().unwrap().message, "unknown binding");
    app.handle_event(Event::Key(Key::Char('y')), CommandEffect::Stay);
    assert!(app.error.is_none());
}

#[test]
fn a_drawing_failure_takes_precedence_over_the_pending_error() {
    let mut app = fresh_app();
    app.handle_event(
        Event::Key(Key::Char('x')),
        CommandEffect::Fail(Error::new(String::from("pending"))),
    );
    app.render(&DrawOutcome::Failed(Error::new(String::from("draw broke"))));
    let shown = app.view.error_display.as_ref().unwrap();
    assert_eq!(shown.content, "draw broke");
    assert!(shown.style == Style::Bold);
    assert!(shown.colors == Colors::Warning);

    // With drawing healthy again, the pending error is shown instead.
    app.render(&DrawOutcome::Drawn);
    assert_eq!(app.view.error_display.as_ref().unwrap().content, "pending");

    // With no pending error either, nothing is shown.
    app.handle_event(Event::Key(Key::Char('y')), CommandEffect::Stay);
    app.render(&DrawOutcome::Drawn);
    assert!(app.view.error_display.is_none());
}

#[test]
fn run_shows_the_drawing_failure_of_the_frame_it_happens_in() {
    let mut app = fresh_app();
    let inputs = vec![LoopInput {
        draw: DrawOutcome::Failed(Error::new(String::from("bad frame"))),
        event: Event::Key(Key::Char('q')),
        effect: CommandEffect::SwitchMode(Mode::Exit),
    }];
    let r = app.run(inputs);
    assert!(r.is_ok());
    assert_eq!(app.view.error_display.as_ref().unwrap().content, "bad frame");
}

#[test]
fn a_resize_event_needs_no_core_action() {
    let mut app = fresh_app();
    app.handle_event(Event::Resize, CommandEffect::Stay);
    assert!(matches!(app.mode, Mode::Normal));
    assert!(app.error.is_none());
    assert!(app.view.last_key.is_none());
}

#[test]
fn a_completed_index_reaches_an_active_open_mode_and_reruns_its_search() {
    let mut app = fresh_app();
    let mut open = OpenMode::new();
    open.query = String::from("ma");
    app.mode = Mode::Open(open);
    let index = PathIndex { entries: vec![String::from("src/main.rs"), String::from("README")] };
    app.handle_event(Event::OpenModeIndexComplete(index), CommandEffect::Stay);
    match &app.mode {
        Mode::Open(open_mode) => {
            let entries = &open_mode.index.as_ref().unwrap().entries;
            assert_eq!(entries.len(), 2);
            assert_eq!(entries[0], "src/main.rs");
            // The search ran again with the query typed while indexing.
            assert_eq!(open_mode.searched_query.as_deref(), Some("ma"));
        }
        _ => panic!("expected Open mode"),
    }
}

#[test]
fn a_stale_index_completion_is_discarded_without_an_error() {
    let mut app = fresh_app();
    let index = PathIndex { entries: vec![String::from("src/main.rs")] };
    app.handle_event(Event::OpenModeIndexComplete(index), CommandEffect::Stay);
    // The user had left Open mode (never entered it here): nothing
    // observable changed and no error appeared.
    assert!(matches!(app.mode, Mode::Normal));
    assert!(app.error.is_none());
    assert!(app.view.last_key.is_none());
}

#[test]
fn every_mode_reports_its_stable_label() {
    let mut app = fresh_app();
    assert_eq!(app.mode_str(), Some("normal"));
    app.mode = Mode::Insert;
    assert_eq!(app.mode_str(), Some("insert"));
    app.mode = Mode::Search(SearchMode { insert: true, query: None });
    assert_eq!(app.mode_str(), Some("search_insert"));
    app.mode = Mode::Search(SearchMode { insert: false, query: None });
    assert_eq!(app.mode_str(), Some("search"));
    let mut open = OpenMode::new();
    open.insert = false;
    app.mode = Mode::Open(open);
    assert_eq!(app.mode_str(), Some("search_select"));
    app.mode = Mode::Open(OpenMode::new());
    assert_eq!(app.mode_str(), Some("search_select_insert"));
    app.mode = Mode::Exit;
    assert_eq!(app.mode_str(), None);
}

#[test]
fn presentation_dispatch_pairs_each_mode_with_its_presenter() {
    assert!(presenter_for(&Mode::Normal) == Some(PresenterKind::Normal));
    assert!(presenter_for(&Mode::Insert) == Some(PresenterKind::Insert));
    assert!(
        presenter_for(&Mode::Open(OpenMode::new())) == Some(PresenterKind::SearchSelect)
    );
    assert!(presenter_for(&Mode::Exit).is_none());
}
