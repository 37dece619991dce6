use vstd::prelude::*;
use crate::bootstrap::{
    BuildProfile, Capability, Effect, FatalError, LogLevel, Phase, bootstrap_outcome,
    bootstrap_trace, registration_count, registration_effects,
};
use crate::window::{WindowState, shown, with_decorations_disabled};

verus! {

/// The effect registers some capability provider.
pub open spec fn is_registration(e: Effect) -> bool {
    e matches Effect::Register(_)
}

/// The effect is a logging-attachment attempt, at whatever verbosity.
pub open spec fn is_logging_attach(e: Effect) -> bool {
    e matches Effect::AttachLogging(_)
}

/// Every show-window effect in the trace comes strictly before every
/// logging-attachment attempt.
pub open spec fn show_precedes_logging(t: Seq<Effect>) -> bool {
    forall|i: int, j: int|
        0 <= i < t.len() && 0 <= j < t.len() && #[trigger] t[i] == Effect::ShowWindow
            && is_logging_attach(#[trigger] t[j]) ==> i < j
}

/// No effect of the trace is a logging-attachment attempt.
pub open spec fn never_attaches_logging(t: Seq<Effect>) -> bool {
    forall|i: int| 0 <= i < t.len() ==> !is_logging_attach(#[trigger] t[i])
}

/// Splitting a trace splits its registration counts.
pub proof fn lemma_registration_count_concat(s: Seq<Effect>, t: Seq<Effect>, c: Capability)
    ensures
        registration_count(s + t, c) == registration_count(s, c) + registration_count(t, c),
    decreases t.len(),
{
    if t.len() == 0 {
        assert(s + t =~= s);
    } else {
        lemma_registration_count_concat(s, t.drop_last(), c);
        assert((s + t).drop_last() =~= s + t.drop_last());
        assert((s + t).last() == t.last());
    }
}

/// A trace that registers nothing has registration count zero.
pub proof fn lemma_registration_count_zero(s: Seq<Effect>, c: Capability)
    requires
        forall|i: int| 0 <= i < s.len() ==> !is_registration(#[trigger] s[i]),
    ensures
        registration_count(s, c) == 0,
    decreases s.len(),
{
    if s.len() > 0 {
        assert(!is_registration(s[s.len() - 1]));
        assert forall|i: int| 0 <= i < s.drop_last().len() implies !is_registration(
            #[trigger] s.drop_last()[i],
        ) by {
            assert(s.drop_last()[i] == s[i]);
        }
        lemma_registration_count_zero(s.drop_last(), c);
    }
}

/// The registration step registers each provider exactly once.
pub proof fn lemma_each_provider_once(c: Capability)
    ensures
        registration_count(registration_effects(), c) == 1,
{
    reveal_with_fuel(registration_count, 8);
    match c {
        Capability::Shell => {
            assert(registration_count(registration_effects(), Capability::Shell) == 1);
        }
        Capability::Fs => {
            assert(registration_count(registration_effects(), Capability::Fs) == 1);
        }
        Capability::Dialog => {
            assert(registration_count(registration_effects(), Capability::Dialog) == 1);
        }
        Capability::Http => {
            assert(registration_count(registration_effects(), Capability::Http) == 1);
        }
        Capability::Updater => {
            assert(registration_count(registration_effects(), Capability::Updater) == 1);
        }
        Capability::Process => {
            assert(registration_count(registration_effects(), Capability::Process) == 1);
        }
    }
}

/// Whenever a window named "main" exists and, in a debug build, the logging
/// provider attaches, the bootstrap reaches `Running`: the run loop is
/// entered, and the window it leaves behind is undecorated and visible.
pub proof fn lemma_run_reaches_running(
    profile: BuildProfile,
    w: WindowState,
    log_attach_ok: bool,
)
    requires
        profile is Debug ==> log_attach_ok,
    ensures
        bootstrap_outcome(profile, Some(w), log_attach_ok) == Phase::Running,
        bootstrap_trace(profile, Some(w), log_attach_ok).contains(Effect::EnterRunLoop),
        !shown(with_decorations_disabled(w)).decorations,
        shown(with_decorations_disabled(w)).visible,
{
    let t = bootstrap_trace(profile, Some(w), log_attach_ok);
    assert(t.contains(Effect::EnterRunLoop)) by {
        assert(t[t.len() - 1] == Effect::EnterRunLoop);
    }
}

/// Without a window named "main" the bootstrap terminates fatally before the
/// run loop: the trace never enters it, whatever the build profile.
pub proof fn lemma_missing_window_is_fatal(profile: BuildProfile, log_attach_ok: bool)
    ensures
        bootstrap_outcome(profile, None, log_attach_ok) == Phase::TerminatedFatal(
            FatalError::MissingMainWindow,
        ),
        !bootstrap_trace(profile, None, log_attach_ok).contains(Effect::EnterRunLoop),
{
    let t = bootstrap_trace(profile, None, log_attach_ok);
    assert(t == registration_effects());
    assert forall|i: int| 0 <= i < t.len() implies #[trigger] t[i] != Effect::EnterRunLoop by {
        assert(is_registration(t[i]));
    }
}

/// In a debug build whose logging provider fails to attach, the bootstrap
/// terminates fatally without entering the run loop — but only after the
/// window has been shown: every occurrence of the show step precedes every
/// occurrence of the logging attempt in the trace, and the configured window
/// is already visible and undecorated.
pub proof fn lemma_debug_log_failure_ordering(w: WindowState)
    ensures
        bootstrap_outcome(BuildProfile::Debug, Some(w), false) == Phase::TerminatedFatal(
            FatalError::LogAttachFailed,
        ),
        bootstrap_trace(BuildProfile::Debug, Some(w), false).contains(Effect::ShowWindow),
        show_precedes_logging(bootstrap_trace(BuildProfile::Debug, Some(w), false)),
        !bootstrap_trace(BuildProfile::Debug, Some(w), false).contains(Effect::EnterRunLoop),
        shown(with_decorations_disabled(w)).visible,
{
    let t = bootstrap_trace(BuildProfile::Debug, Some(w), false);
    assert(t.len() == 9);
    assert(t.contains(Effect::ShowWindow)) by {
        assert(t[7] == Effect::ShowWindow);
    }
    assert forall|i: int| 0 <= i < t.len() && #[trigger] t[i] == Effect::ShowWindow implies i
        == 7 by {
        assert(forall|k: int| 0 <= k < 6 ==> is_registration(#[trigger] t[k]));
        assert(t[6] == Effect::DisableDecorations);
        assert(t[8] == Effect::AttachLogging(LogLevel::Info));
    }
    assert forall|j: int| 0 <= j < t.len() && is_logging_attach(#[trigger] t[j]) implies j
        == 8 by {
        assert(forall|k: int| 0 <= k < 6 ==> is_registration(#[trigger] t[k]));
        assert(t[6] == Effect::DisableDecorations);
        assert(t[7] == Effect::ShowWindow);
    }
    assert forall|i: int| 0 <= i < t.len() implies #[trigger] t[i] != Effect::EnterRunLoop by {
        assert(forall|k: int| 0 <= k < 6 ==> is_registration(#[trigger] t[k]));
        assert(t[6] == Effect::DisableDecorations);
        assert(t[7] == Effect::ShowWindow);
        assert(t[8] == Effect::AttachLogging(LogLevel::Info));
    }
}

/// A release build never attempts to attach logging: no effect of its trace
/// is a logging attachment, whatever the window lookup returned.
pub proof fn lemma_release_skips_logging(main_window: Option<WindowState>, log_attach_ok: bool)
    ensures
        never_attaches_logging(bootstrap_trace(BuildProfile::Release, main_window, log_attach_ok)),
{
    let t = bootstrap_trace(BuildProfile::Release, main_window, log_attach_ok);
    if main_window is None {
        assert forall|i: int| 0 <= i < t.len() implies !is_logging_attach(#[trigger] t[i]) by {
            assert(is_registration(t[i]));
        }
    } else {
        assert(t.len() == 9);
        assert forall|i: int| 0 <= i < t.len() implies !is_logging_attach(#[trigger] t[i]) by {
            assert(forall|k: int| 0 <= k < 6 ==> is_registration(#[trigger] t[k]));
            assert(t[6] == Effect::DisableDecorations);
            assert(t[7] == Effect::ShowWindow);
            assert(t[8] == Effect::EnterRunLoop);
        }
    }
}

/// Force-disabling decorations is idempotent: applying the mutation to an
/// already-undecorated window changes nothing.
pub proof fn lemma_disable_decorations_idempotent(w: WindowState)
    ensures
        with_decorations_disabled(with_decorations_disabled(w)) == with_decorations_disabled(w),
{
}

/// Every bootstrap registers each of the six capability providers exactly
/// once, whatever the build profile, the window lookup result, or the
/// logging outcome — even a bootstrap that terminates fatally has already
/// registered all six.
pub proof fn lemma_providers_registered_once(
    profile: BuildProfile,
    main_window: Option<WindowState>,
    log_attach_ok: bool,
    c: Capability,
)
    ensures
        registration_count(bootstrap_trace(profile, main_window, log_attach_ok), c) == 1,
{
    let t = bootstrap_trace(profile, main_window, log_attach_ok);
    lemma_each_provider_once(c);
    if main_window is None {
        assert(t == registration_effects());
    } else {
        let rest = t.subrange(6, t.len() as int);
        assert(t =~= registration_effects() + rest);
        lemma_registration_count_concat(registration_effects(), rest, c);
        assert forall|i: int| 0 <= i < rest.len() implies !is_registration(
            #[trigger] rest[i],
        ) by {
            assert(rest[i] == t[6 + i]);
            assert(t[6] == Effect::DisableDecorations);
            assert(t[7] == Effect::ShowWindow);
        }
        lemma_registration_count_zero(rest, c);
    }
}

} // verus!
