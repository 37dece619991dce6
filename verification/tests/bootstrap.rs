use shell_bootstrap::bootstrap::{Bootstrap, BuildProfile, Capability, Effect, FatalError,
    LogLevel, Phase, run};
use shell_bootstrap::window::WindowState;

fn registrations() -> Vec<Effect> {
    vec![
        Effect::Register(Capability::Shell),
        Effect::Register(Capability::Fs),
        Effect::Register(Capability::Dialog),
        Effect::Register(Capability::Http),
        Effect::Register(Capability::Updater),
        Effect::Register(Capability::Process),
    ]
}

#[test]
fn debug_run_reaches_running() {
    let w = WindowState { decorations: true, visible: false };
    let b = run(BuildProfile::Debug, Some(w), true);
    assert_eq!(b.phase, Phase::Running);
    assert_eq!(b.window, Some(WindowState { decorations: false, visible: true }));
    assert!(b.log_attached);
    let mut expected = registrations();
    expected.push(Effect::DisableDecorations);
    expected.push(Effect::ShowWindow);
    expected.push(Effect::AttachLogging(LogLevel::Info));
    expected.push(Effect::EnterRunLoop);
    assert_eq!(b.effects, expected);
}

#[test]
fn release_run_reaches_running() {
    let w = WindowState { decorations: true, visible: false };
    let b = run(BuildProfile::Release, Some(w), false);
    assert_eq!(b.phase, Phase::Running);
    assert_eq!(b.window, Some(WindowState { decorations: false, visible: true }));
    assert!(!b.log_attached);
    let mut expected = registrations();
    expected.push(Effect::DisableDecorations);
    expected.push(Effect::ShowWindow);
    expected.push(Effect::EnterRunLoop);
    assert_eq!(b.effects, expected);
}

#[test]
fn missing_window_is_fatal_before_run_loop() {
    for profile in [BuildProfile::Debug, BuildProfile::Release] {
        let b = run(profile, None, true);
        assert_eq!(b.phase, Phase::TerminatedFatal(FatalError::MissingMainWindow));
        assert_eq!(b.window, None);
        assert_eq!(b.effects, registrations());
        assert!(!b.effects.contains(&Effect::EnterRunLoop));
    }
}

#[test]
fn debug_log_failure_is_fatal_after_show() {
    let w = WindowState { decorations: true, visible: false };
    let b = run(BuildProfile::Debug, Some(w), false);
    assert_eq!(b.phase, Phase::TerminatedFatal(FatalError::LogAttachFailed));
    assert!(!b.log_attached);
    // the window was already configured and shown when the failure hit
    assert_eq!(b.window, Some(WindowState { decorations: false, visible: true }));
    let show_at = b.effects.iter().position(|e| *e == Effect::ShowWindow).unwrap();
    let log_at = b.effects.iter()
        .position(|e| matches!(e, Effect::AttachLogging(_)))
        .unwrap();
    assert!(show_at < log_at);
    assert!(!b.effects.contains(&Effect::EnterRunLoop));
}

#[test]
fn release_never_attaches_logging() {
    let w = WindowState { decorations: false, visible: true };
    for found in [None, Some(w)] {
        for ok in [false, true] {
            let b = run(BuildProfile::Release, found, ok);
            assert!(!b.effects.iter().any(|e| matches!(e, Effect::AttachLogging(_))));
            assert!(!b.log_attached);
        }
    }
}

#[test]
fn disable_decorations_is_idempotent() {
    let mut w = WindowState { decorations: true, visible: true };
    w.disable_decorations();
    assert_eq!(w, WindowState { decorations: false, visible: true });
    w.disable_decorations();
    assert_eq!(w, WindowState { decorations: false, visible: true });
}

#[test]
fn each_provider_registered_exactly_once() {
    let w = WindowState { decorations: true, visible: false };
    let runs = [
        run(BuildProfile::Debug, Some(w), true),
        run(BuildProfile::Debug, Some(w), false),
        run(BuildProfile::Debug, None, true),
        run(BuildProfile::Release, Some(w), true),
        run(BuildProfile::Release, None, true),
    ];
    let providers = [
        Capability::Shell,
        Capability::Fs,
        Capability::Dialog,
        Capability::Http,
        Capability::Updater,
        Capability::Process,
    ];
    for b in &runs {
        for c in providers {
            let n = b.effects.iter().filter(|e| **e == Effect::Register(c)).count();
            assert_eq!(n, 1);
        }
    }
}

#[test]
fn stepwise_transitions_follow_the_machine() {
    let mut b = Bootstrap::new(BuildProfile::Debug);
    assert_eq!(b.phase, Phase::Uninitialized);
    assert!(b.effects.is_empty());
    b.construct();
    assert_eq!(b.phase, Phase::Constructed);
    b.register_providers();
    assert_eq!(b.phase, Phase::ProvidersRegistered);
    assert_eq!(b.effects, registrations());
    b.configure_window(Some(WindowState { decorations: true, visible: false }));
    assert_eq!(b.phase, Phase::WindowConfigured);
    b.attach_logging(LogLevel::Info, true);
    assert_eq!(b.phase, Phase::WindowConfigured);
    assert!(b.log_attached);
    b.enter_run_loop();
    assert_eq!(b.phase, Phase::Running);
    assert_eq!(b.effects.last(), Some(&Effect::EnterRunLoop));
}

#[test]
fn run_loop_exit_reports_outcome() {
    let w = WindowState { decorations: true, visible: false };
    let mut ok = run(BuildProfile::Release, Some(w), true);
    ok.terminate(true);
    assert_eq!(ok.phase, Phase::TerminatedSuccess);

    let mut failed = run(BuildProfile::Release, Some(w), true);
    failed.terminate(false);
    assert_eq!(failed.phase, Phase::TerminatedFatal(FatalError::RunLoopFailed));
}

#[test]
fn already_configured_window_stays_configured() {
    // decoration-disable overrides and visibility apply to any starting state
    let b = run(BuildProfile::Release, Some(WindowState { decorations: false, visible: true }),
        true);
    assert_eq!(b.window, Some(WindowState { decorations: false, visible: true }));
    assert_eq!(b.phase, Phase::Running);
}
