use vstd::prelude::*;
use crate::window::{WindowState, shown, with_decorations_disabled};

verus! {

/// Build profile, resolved once before bootstrap begins. Debug builds attach
/// a logging provider during setup; release builds skip that step entirely.
#[derive(Clone, Copy, Debug, PartialEq, Eq)]
pub enum BuildProfile {
    Debug,
    Release,
}

/// The six capability providers that every bootstrap registers, independent
/// of build profile. Each grants hosted content one privileged operation.
#[derive(Clone, Copy, Debug, PartialEq, Eq)]
pub enum Capability {
    Shell,
    Fs,
    Dialog,
    Http,
    Updater,
    Process,
}

/// Verbosity of the optional logging provider.
#[derive(Clone, Copy, Debug, PartialEq, Eq)]
pub enum LogLevel {
    Off,
    Error,
    Warn,
    Info,
    Debug,
    Trace,
}

/// One host-visible effect of the bootstrap sequence. The order in which
/// effects are emitted is the order in which the host observes them, so the
/// trace of effects is what the sequencing guarantees are stated over.
#[derive(Clone, Copy, Debug, PartialEq, Eq)]
pub enum Effect {
    Register(Capability),
    DisableDecorations,
    ShowWindow,
    AttachLogging(LogLevel),
    EnterRunLoop,
}

/// The fatal conditions. None is recoverable: each one ends the bootstrap
/// (or the running application) immediately.
#[derive(Clone, Copy, Debug, PartialEq, Eq)]
pub enum FatalError {
    /// No window named "main" exists at lookup time.
    MissingMainWindow,
    /// The debug-only logging provider failed to attach.
    LogAttachFailed,
    /// The blocking run loop itself reported an error.
    RunLoopFailed,
}

/// Phases of the linear bootstrap state machine. Transitions are
/// one-directional; `Running` is the only non-terminal phase that persists.
#[derive(Clone, Copy, Debug, PartialEq, Eq)]
pub enum Phase {
    Uninitialized,
    Constructed,
    ProvidersRegistered,
    WindowConfigured,
    Running,
    TerminatedSuccess,
    TerminatedFatal(FatalError),
}

/// The order in which the capability providers are registered. Registration
/// order has no observable effect among them; this is simply the order the
/// bootstrap uses.
pub open spec fn provider_order() -> Seq<Capability> {
    seq![
        Capability::Shell,
        Capability::Fs,
        Capability::Dialog,
        Capability::Http,
        Capability::Updater,
        Capability::Process,
    ]
}

/// The effects of registering the six capability providers, in order.
pub open spec fn registration_effects() -> Seq<Effect> {
    seq![
        Effect::Register(Capability::Shell),
        Effect::Register(Capability::Fs),
        Effect::Register(Capability::Dialog),
        Effect::Register(Capability::Http),
        Effect::Register(Capability::Updater),
        Effect::Register(Capability::Process),
    ]
}

/// The effects of configuring the main window: decorations are disabled
/// strictly before the window is shown, so the user never sees decorated
/// chrome flicker away.
pub open spec fn window_setup_effects() -> Seq<Effect> {
    seq![Effect::DisableDecorations, Effect::ShowWindow]
}

/// The logging step's effects: one attachment attempt at informational
/// verbosity in a debug build, nothing at all in a release build.
pub open spec fn logging_effects(profile: BuildProfile) -> Seq<Effect> {
    if profile is Debug {
        seq![Effect::AttachLogging(LogLevel::Info)]
    } else {
        Seq::empty()
    }
}

/// The full effect trace a bootstrap emits, as a function of the build
/// profile and of the two outside outcomes: whether a window named "main"
/// was found, and whether the logging provider attached.
pub open spec fn bootstrap_trace(
    profile: BuildProfile,
    main_window: Option<WindowState>,
    log_attach_ok: bool,
) -> Seq<Effect> {
    if main_window is None {
        registration_effects()
    } else if profile is Debug && !log_attach_ok {
        registration_effects() + window_setup_effects() + logging_effects(profile)
    } else {
        registration_effects() + window_setup_effects() + logging_effects(profile)
            + seq![Effect::EnterRunLoop]
    }
}

/// The phase a bootstrap ends in, before the run loop itself exits.
pub open spec fn bootstrap_outcome(
    profile: BuildProfile,
    main_window: Option<WindowState>,
    log_attach_ok: bool,
) -> Phase {
    if main_window is None {
        Phase::TerminatedFatal(FatalError::MissingMainWindow)
    } else if profile is Debug && !log_attach_ok {
        Phase::TerminatedFatal(FatalError::LogAttachFailed)
    } else {
        Phase::Running
    }
}

/// How many times the provider `c` has been registered in the trace `s`.
pub open spec fn registration_count(s: Seq<Effect>, c: Capability) -> nat
    decreases s.len(),
{
    if s.len() == 0 {
        0
    } else {
        registration_count(s.drop_last(), c)
            + if s.last() == Effect::Register(c) { 1nat } else { 0nat }
    }
}

/// The bootstrap context: the explicit state threaded through every step,
/// in place of ambient process-global state. `effects` is the trace of
/// host-visible actions taken so far, oldest first.
#[derive(Debug)]
pub struct Bootstrap {
    pub phase: Phase,
    pub profile: BuildProfile,
    /// The main window's display state once it has been configured.
    pub window: Option<WindowState>,
    /// Whether the logging provider is attached and active.
    pub log_attached: bool,
    pub effects: Vec<Effect>,
}

impl Bootstrap {
    /// The main window has been configured: decorations off, visible.
    pub open spec fn window_configured(self) -> bool {
        self.window matches Some(w) && !w.decorations && w.visible
    }

    /// Well-formedness: what holds of the context in every phase.
    pub open spec fn inv(self) -> bool {
        &&& (self.log_attached ==> self.profile is Debug)
        &&& ((self.phase is Uninitialized || self.phase is Constructed) ==> {
            &&& self.effects@ == Seq::<Effect>::empty()
            &&& self.window is None
            &&& !self.log_attached
        })
        &&& (self.phase is ProvidersRegistered ==> {
            &&& self.effects@ == registration_effects()
            &&& self.window is None
            &&& !self.log_attached
        })
        &&& ((self.phase is WindowConfigured || self.phase is Running)
            ==> self.window_configured())
    }

    /// A fresh bootstrap context: nothing has happened yet.
    pub fn new(profile: BuildProfile) -> (b: Bootstrap)
        ensures
            b.phase == Phase::Uninitialized,
            b.profile == profile,
            b.window is None,
            !b.log_attached,
            b.effects@ == Seq::<Effect>::empty(),
            b.inv(),
    {
        Bootstrap {
            phase: Phase::Uninitialized,
            profile,
            window: None,
            log_attached: false,
            effects: Vec::new(),
        }
    }

    /// Construct the application instance with its default configuration.
    /// This is the sole construction per process lifetime.
    pub fn construct(&mut self)
        requires
            old(self).phase == Phase::Uninitialized,
            old(self).inv(),
        ensures
            final(self).phase == Phase::Constructed,
            final(self).profile == old(self).profile,
            final(self).window == old(self).window,
            final(self).log_attached == old(self).log_attached,
            final(self).effects@ == old(self).effects@,
            final(self).inv(),
    {
        self.phase = Phase::Constructed;
    }

    /// Register the six capability providers, in `provider_order()`. Each is
    /// independent and stateless until invoked by hosted content; their
    /// mutual order carries no meaning, but every one is registered exactly
    /// once, whatever the build profile.
    pub fn register_providers(&mut self)
        requires
            old(self).phase == Phase::Constructed,
            old(self).inv(),
        ensures
            final(self).phase == Phase::ProvidersRegistered,
            final(self).profile == old(self).profile,
            final(self).window == old(self).window,
            final(self).log_attached == old(self).log_attached,
            final(self).effects@ == old(self).effects@ + registration_effects(),
            final(self).inv(),
    {
        self.effects.push(Effect::Register(Capability::Shell));
        self.effects.push(Effect::Register(Capability::Fs));
        self.effects.push(Effect::Register(Capability::Dialog));
        self.effects.push(Effect::Register(Capability::Http));
        self.effects.push(Effect::Register(Capability::Updater));
        self.effects.push(Effect::Register(Capability::Process));
        self.phase = Phase::ProvidersRegistered;
        proof {
            assert(self.effects@ =~= old(self).effects@ + registration_effects());
            assert(self.effects@ =~= registration_effects());
        }
    }

    /// Configure the main window from the host's lookup result. A missing
    /// window is fatal on the spot: there is no recovery path for an absent
    /// primary surface. When the window exists, its decorations are disabled
    /// first and only then is it shown.
    pub fn configure_window(&mut self, found: Option<WindowState>)
        requires
            old(self).phase == Phase::ProvidersRegistered,
            old(self).inv(),
        ensures
            final(self).profile == old(self).profile,
            final(self).log_attached == old(self).log_attached,
            found is None ==> final(self).phase == Phase::TerminatedFatal(
                FatalError::MissingMainWindow,
            ) && final(self).effects@ == old(self).effects@
                && final(self).window == old(self).window,
            found matches Some(w) ==> final(self).phase == Phase::WindowConfigured
                && final(self).effects@ == old(self).effects@ + window_setup_effects()
                && final(self).window == Some(shown(with_decorations_disabled(w))),
            final(self).inv(),
    {
        match found {
            None => {
                self.phase = Phase::TerminatedFatal(FatalError::MissingMainWindow);
            }
            Some(w) => {
                let mut w = w;
                w.disable_decorations();
                self.effects.push(Effect::DisableDecorations);
                w.show();
                self.effects.push(Effect::ShowWindow);
                self.window = Some(w);
                self.phase = Phase::WindowConfigured;
                proof {
                    assert(self.effects@ =~= old(self).effects@ + window_setup_effects());
                }
            }
        }
    }

    /// Attach the logging provider, a debug-only step, from the host's
    /// attachment result. Failure is propagated as a fatal condition, not
    /// swallowed; the window mutations have already happened by this point.
    pub fn attach_logging(&mut self, level: LogLevel, attach_ok: bool)
        requires
            old(self).phase == Phase::WindowConfigured,
            old(self).profile is Debug,
            old(self).inv(),
        ensures
            final(self).profile == old(self).profile,
            final(self).window == old(self).window,
            final(self).effects@ == old(self).effects@.push(Effect::AttachLogging(level)),
            attach_ok ==> final(self).phase == Phase::WindowConfigured
                && final(self).log_attached,
            !attach_ok ==> final(self).phase == Phase::TerminatedFatal(
                FatalError::LogAttachFailed,
            ) && final(self).log_attached == old(self).log_attached,
            final(self).inv(),
    {
        self.effects.push(Effect::AttachLogging(level));
        if attach_ok {
            self.log_attached = true;
        } else {
            self.phase = Phase::TerminatedFatal(FatalError::LogAttachFailed);
        }
    }

    /// Enter the blocking run loop. From here the host dispatches events
    /// until shutdown; the machine stays in `Running` until the host reports
    /// how the loop exited.
    pub fn enter_run_loop(&mut self)
        requires
            old(self).phase == Phase::WindowConfigured,
            old(self).inv(),
        ensures
            final(self).phase == Phase::Running,
            final(self).profile == old(self).profile,
            final(self).window == old(self).window,
            final(self).log_attached == old(self).log_attached,
            final(self).effects@ == old(self).effects@.push(Effect::EnterRunLoop),
            final(self).inv(),
    {
        self.effects.push(Effect::EnterRunLoop);
        self.phase = Phase::Running;
    }

    /// Record how the run loop exited: an orderly shutdown, or a fatal
    /// run-loop failure.
    pub fn terminate(&mut self, loop_ok: bool)
        requires
            old(self).phase == Phase::Running,
            old(self).inv(),
        ensures
            final(self).profile == old(self).profile,
            final(self).window == old(self).window,
            final(self).log_attached == old(self).log_attached,
            final(self).effects@ == old(self).effects@,
            loop_ok ==> final(self).phase == Phase::TerminatedSuccess,
            !loop_ok ==> final(self).phase == Phase::TerminatedFatal(FatalError::RunLoopFailed),
            final(self).inv(),
    {
        if loop_ok {
            self.phase = Phase::TerminatedSuccess;
        } else {
            self.phase = Phase::TerminatedFatal(FatalError::RunLoopFailed);
        }
    }
}

/// The whole bootstrap sequence, from a fresh context up to the run loop
/// (or up to the fatal condition that preempted it). The two outside
/// outcomes the host must supply are the result of looking up the window
/// named "main" and, in a debug build, whether the logging provider
/// attached; the returned context pins the phase reached, the exact effect
/// trace, and the final window state.
pub fn run(
    profile: BuildProfile,
    main_window: Option<WindowState>,
    log_attach_ok: bool,
) -> (b: Bootstrap)
    ensures
        b.profile == profile,
        b.phase == bootstrap_outcome(profile, main_window, log_attach_ok),
        b.effects@ == bootstrap_trace(profile, main_window, log_attach_ok),
        main_window is None ==> b.window is None,
        main_window matches Some(w) ==> b.window == Some(shown(with_decorations_disabled(w))),
        b.log_attached == (main_window is Some && profile is Debug && log_attach_ok),
        b.inv(),
{
    let mut b = Bootstrap::new(profile);
    b.construct();
    b.register_providers();
    b.configure_window(main_window);
    match main_window {
        None => {
            proof {
                assert(b.effects@ =~= bootstrap_trace(profile, main_window, log_attach_ok));
            }
            return b;
        }
        Some(_) => {}
    }
    match profile {
        BuildProfile::Debug => {
            b.attach_logging(LogLevel::Info, log_attach_ok);
            if !log_attach_ok {
                proof {
                    assert(b.effects@ =~= bootstrap_trace(profile, main_window, log_attach_ok));
                }
                return b;
            }
        }
        BuildProfile::Release => {}
    }
    b.enter_run_loop();
    proof {
        assert(b.effects@ =~= bootstrap_trace(profile, main_window, log_attach_ok));
    }
    b
}

} // verus!
