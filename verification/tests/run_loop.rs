use idio::app::{
    pref_subdir, pref_subdir_of, resolve_pref_path, LoopAction, LoopInput, LoopState, SystemEvent,
};
use idio::window::WindowId;
use idio::{Event, IdioError, RunLoop, Window};

const MAIN: WindowId = WindowId { raw: 1 };
const OTHER: WindowId = WindowId { raw: 2 };
const THIRD: WindowId = WindowId { raw: 3 };

fn forward(id: WindowId) -> LoopAction {
    LoopAction::Forward(Event::WindowClosed(id))
}

fn bootstrapped() -> RunLoop {
    let (mut run, _) = RunLoop::new("TestApp", (0, 1, 0), Some("/data/idio/testapp".to_string()), true);
    run.advance(LoopInput::WindowBuilt(Ok(Window { id: MAIN })));
    run.advance(LoopInput::ContextBuilt(Ok(())));
    assert_eq!(run.state(), LoopState::Running);
    run
}

#[test]
fn a_preference_directory_that_was_made_is_used() {
    let resolved = resolve_pref_path(Some("/home/u/.local/share/idio/testapp".to_string()), true);
    assert_eq!(resolved.path, "/home/u/.local/share/idio/testapp");
    assert!(!resolved.fallback);
}

#[test]
fn an_uncreatable_preference_directory_gives_way_to_the_current_one() {
    let resolved = resolve_pref_path(Some("/home/u/.local/share/idio/testapp".to_string()), false);
    assert_eq!(resolved.path, "./");
    assert!(resolved.fallback);
}

#[test]
fn an_unavailable_platform_directory_gives_way_to_the_current_one() {
    let resolved = resolve_pref_path(None, true);
    assert_eq!(resolved.path, "./");
    assert!(resolved.fallback);
    let resolved = resolve_pref_path(None, false);
    assert_eq!(resolved.path, "./");
    assert!(resolved.fallback);
}

#[test]
fn preference_subdirectory_is_namespace_then_lowercased_name() {
    assert_eq!(pref_subdir("TestApp"), vec!["idio".to_string(), "testapp".to_string()]);
    assert_eq!(pref_subdir("ÄPFEL 2"), vec!["idio".to_string(), "äpfel 2".to_string()]);
    assert_eq!(pref_subdir(""), vec!["idio".to_string(), String::new()]);
    assert_eq!(
        pref_subdir_of("as given".to_string()),
        vec!["idio".to_string(), "as given".to_string()]
    );
}

#[test]
fn a_run_begins_with_logger_and_window() {
    let (run, actions) = RunLoop::new("TestApp", (0, 1, 0), Some("/data/idio/testapp".to_string()), true);
    assert_eq!(actions, vec![LoopAction::InitLogger, LoopAction::CreateWindow]);
    assert_eq!(run.state(), LoopState::Bootstrapping);
    assert_eq!(run.info().name, "TestApp");
    assert_eq!(run.info().ver, (0, 1, 0));
    assert_eq!(run.info().pref_path, "/data/idio/testapp");
    assert!(run.info().main_window.is_none());
    assert!(run.result().is_ok());
}

#[test]
fn an_uncreatable_preference_directory_falls_back_to_the_current_one() {
    let (mut run, actions) =
        RunLoop::new("TestApp", (0, 1, 0), Some("/data/idio/testapp".to_string()), false);
    assert_eq!(
        actions,
        vec![LoopAction::WarnPrefPath, LoopAction::InitLogger, LoopAction::CreateWindow]
    );
    assert_eq!(run.info().pref_path, "./");
    assert_eq!(RunLoop::pref_warning(), "Preinit warning: Using ./ as prefpath");
    assert_eq!(run.state(), LoopState::Bootstrapping);

    run.advance(LoopInput::WindowBuilt(Ok(Window { id: MAIN })));
    run.advance(LoopInput::ContextBuilt(Ok(())));
    run.advance(LoopInput::Polled(vec![SystemEvent::CloseRequested(MAIN)]));
    let last = run.advance(LoopInput::Drained);
    assert_eq!(last.last(), Some(&LoopAction::Finish));
    assert_eq!(run.state(), LoopState::Terminated);
    assert!(run.result().is_ok());
}

#[test]
fn a_run_without_a_platform_directory_warns_and_goes_on() {
    for created in [false, true] {
        let (mut run, actions) = RunLoop::new("TestApp", (0, 1, 0), None, created);
        assert_eq!(
            actions,
            vec![LoopAction::WarnPrefPath, LoopAction::InitLogger, LoopAction::CreateWindow]
        );
        assert_eq!(run.info().pref_path, "./");
        assert_eq!(run.state(), LoopState::Bootstrapping);

        run.advance(LoopInput::WindowBuilt(Ok(Window { id: MAIN })));
        assert_eq!(
            run.advance(LoopInput::ContextBuilt(Ok(()))),
            vec![LoopAction::Init, LoopAction::Tick, LoopAction::Poll]
        );
        assert_eq!(run.info().pref_path, "./");
        run.advance(LoopInput::Polled(vec![SystemEvent::CloseRequested(MAIN)]));
        run.advance(LoopInput::Drained);
        assert!(run.result().is_ok());
    }
}

#[test]
fn bootstrap_builds_window_then_context_then_calls_init() {
    let (mut run, _) = RunLoop::new("TestApp", (0, 1, 0), Some("./".to_string()), true);
    assert_eq!(
        run.advance(LoopInput::WindowBuilt(Ok(Window { id: MAIN }))),
        vec![LoopAction::CreateContext]
    );
    assert_eq!(run.state(), LoopState::Bootstrapping);
    assert_eq!(run.info().main_window, Some(Window { id: MAIN }));
    assert_eq!(
        run.advance(LoopInput::ContextBuilt(Ok(()))),
        vec![LoopAction::Init, LoopAction::Tick, LoopAction::Poll]
    );
    assert_eq!(run.state(), LoopState::Running);
}

#[test]
fn a_window_that_cannot_be_built_ends_the_run_before_init() {
    let (mut run, _) = RunLoop::new("TestApp", (0, 1, 0), Some("./".to_string()), true);
    let actions =
        run.advance(LoopInput::WindowBuilt(Window::new(Err("no display".to_string()))));
    assert_eq!(actions, vec![LoopAction::Finish]);
    assert_eq!(run.state(), LoopState::Terminated);
    assert_eq!(run.result().unwrap_err().to_string(), "Platform error: no display");
}

#[test]
fn a_context_that_cannot_be_built_ends_the_run_before_init() {
    let (mut run, _) = RunLoop::new("TestApp", (0, 1, 0), Some("./".to_string()), true);
    run.advance(LoopInput::WindowBuilt(Ok(Window { id: MAIN })));
    let actions = run.advance(LoopInput::ContextBuilt(Err(IdioError::Critical(
        "No supported GPUs found",
    ))));
    assert_eq!(actions, vec![LoopAction::DestroyWindow, LoopAction::Finish]);
    assert_eq!(run.state(), LoopState::Terminated);
    assert_eq!(
        run.result().unwrap_err().to_string(),
        "Critical error: No supported GPUs found"
    );
}

#[test]
fn an_empty_poll_starts_the_next_iteration() {
    let mut run = bootstrapped();
    assert_eq!(run.advance(LoopInput::Polled(vec![])), vec![LoopAction::Tick, LoopAction::Poll]);
    assert_eq!(run.state(), LoopState::Running);
}

#[test]
fn other_events_are_passed_over() {
    let mut run = bootstrapped();
    assert_eq!(
        run.advance(LoopInput::Polled(vec![SystemEvent::Other, SystemEvent::Other])),
        vec![LoopAction::Tick, LoopAction::Poll]
    );
    assert_eq!(run.state(), LoopState::Running);
}

#[test]
fn closing_another_window_is_forwarded_with_its_identity() {
    let mut run = bootstrapped();
    assert_eq!(
        run.advance(LoopInput::Polled(vec![SystemEvent::CloseRequested(OTHER)])),
        vec![forward(OTHER), LoopAction::Tick, LoopAction::Poll]
    );
    assert_eq!(run.state(), LoopState::Running);
    assert_eq!(
        run.advance(LoopInput::Polled(vec![
            SystemEvent::CloseRequested(THIRD),
            SystemEvent::Other,
            SystemEvent::CloseRequested(OTHER),
            SystemEvent::CloseRequested(THIRD),
        ])),
        vec![forward(THIRD), forward(OTHER), forward(THIRD), LoopAction::Tick, LoopAction::Poll]
    );
    assert_eq!(run.state(), LoopState::Running);
}

#[test]
fn closing_the_main_window_drains() {
    let mut run = bootstrapped();
    assert_eq!(
        run.advance(LoopInput::Polled(vec![SystemEvent::CloseRequested(MAIN)])),
        vec![LoopAction::Deinit]
    );
    assert_eq!(run.state(), LoopState::Draining);
}

#[test]
fn what_follows_the_main_close_in_a_poll_is_dropped() {
    let mut run = bootstrapped();
    let actions = run.advance(LoopInput::Polled(vec![
        SystemEvent::CloseRequested(OTHER),
        SystemEvent::Other,
        SystemEvent::CloseRequested(MAIN),
        SystemEvent::CloseRequested(THIRD),
        SystemEvent::CloseRequested(MAIN),
        SystemEvent::Other,
    ]));
    assert_eq!(actions, vec![forward(OTHER), LoopAction::Deinit]);
    assert_eq!(run.state(), LoopState::Draining);
}

#[test]
fn a_draining_loop_dispatches_nothing() {
    let mut run = bootstrapped();
    run.advance(LoopInput::Polled(vec![SystemEvent::CloseRequested(MAIN)]));
    assert!(run
        .advance(LoopInput::Polled(vec![
            SystemEvent::CloseRequested(OTHER),
            SystemEvent::CloseRequested(MAIN)
        ]))
        .is_empty());
    assert!(run.advance(LoopInput::ContextBuilt(Ok(()))).is_empty());
    assert_eq!(run.state(), LoopState::Draining);
}

#[test]
fn after_deinit_the_context_goes_before_the_window() {
    let mut run = bootstrapped();
    run.advance(LoopInput::Polled(vec![SystemEvent::CloseRequested(MAIN)]));
    assert_eq!(
        run.advance(LoopInput::Drained),
        vec![LoopAction::DestroyContext, LoopAction::DestroyWindow, LoopAction::Finish]
    );
    assert_eq!(run.state(), LoopState::Terminated);
    assert!(run.advance(LoopInput::Drained).is_empty());
    assert!(run.advance(LoopInput::Polled(vec![SystemEvent::Other])).is_empty());
    assert!(run.result().is_ok());
}

#[test]
fn inputs_that_are_not_awaited_change_nothing() {
    let (mut run, _) = RunLoop::new("TestApp", (0, 1, 0), Some("./".to_string()), true);
    assert!(run.advance(LoopInput::ContextBuilt(Ok(()))).is_empty());
    assert!(run.advance(LoopInput::Polled(vec![SystemEvent::CloseRequested(MAIN)])).is_empty());
    assert!(run.advance(LoopInput::Drained).is_empty());
    assert_eq!(run.state(), LoopState::Bootstrapping);

    run.advance(LoopInput::WindowBuilt(Ok(Window { id: MAIN })));
    assert!(run.advance(LoopInput::WindowBuilt(Ok(Window { id: OTHER }))).is_empty());
    assert_eq!(run.info().main_window, Some(Window { id: MAIN }));

    let mut running = bootstrapped();
    assert!(running.advance(LoopInput::Drained).is_empty());
    assert!(running.advance(LoopInput::WindowBuilt(Ok(Window { id: OTHER }))).is_empty());
    assert!(running
        .advance(LoopInput::ContextBuilt(Err(IdioError::Critical("late"))))
        .is_empty());
    assert_eq!(running.state(), LoopState::Running);
    assert!(running.result().is_ok());
}

#[test]
fn deinit_is_called_once_and_after_the_last_tick() {
    let (mut run, mut trace) = RunLoop::new("TestApp", (0, 1, 0), Some("./".to_string()), true);
    let inputs = vec![
        LoopInput::WindowBuilt(Ok(Window { id: MAIN })),
        LoopInput::ContextBuilt(Ok(())),
        LoopInput::Polled(vec![]),
        LoopInput::Polled(vec![SystemEvent::CloseRequested(OTHER)]),
        LoopInput::Drained,
        LoopInput::Polled(vec![SystemEvent::Other, SystemEvent::CloseRequested(MAIN), SystemEvent::Other]),
        LoopInput::Polled(vec![SystemEvent::CloseRequested(MAIN)]),
        LoopInput::Drained,
        LoopInput::Drained,
        LoopInput::Polled(vec![]),
    ];
    for input in inputs {
        trace.extend(run.advance(input));
    }
    assert_eq!(
        trace,
        vec![
            LoopAction::InitLogger,
            LoopAction::CreateWindow,
            LoopAction::CreateContext,
            LoopAction::Init,
            LoopAction::Tick,
            LoopAction::Poll,
            LoopAction::Tick,
            LoopAction::Poll,
            forward(OTHER),
            LoopAction::Tick,
            LoopAction::Poll,
            LoopAction::Deinit,
            LoopAction::DestroyContext,
            LoopAction::DestroyWindow,
            LoopAction::Finish,
        ]
    );
    assert_eq!(trace.iter().filter(|a| **a == LoopAction::Deinit).count(), 1);
    let deinit = trace.iter().position(|a| *a == LoopAction::Deinit).unwrap();
    let last_tick = trace.iter().rposition(|a| *a == LoopAction::Tick).unwrap();
    assert!(last_tick < deinit);
    assert_eq!(run.state(), LoopState::Terminated);
}
