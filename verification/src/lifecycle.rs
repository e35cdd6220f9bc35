//! Platform Initializer and engine lifecycle: the single Idle → Initialized
//! transition with its per-platform preparation steps, the terminal
//! shutdown, and the event-dispatch interceptor applied on the
//! application-bundle platform.

use vstd::prelude::*;

use crate::BridgeError;
use crate::Platform;

verus! {

/// The phases of the engine within one process lifetime.
#[derive(Clone, Copy, Debug, PartialEq, Eq, Structural)]
pub enum Phase {
    /// Before initialization.
    Idle,
    /// After the one successful initialization.
    Initialized,
    /// After the terminal shutdown call.
    ShutDown,
}

/// The preparation the shell must perform before engine initialization.
#[derive(Clone, Copy, Debug, PartialEq, Eq, Structural)]
pub enum PreInitStep {
    /// Install the X protocol and X input/output error handlers.
    InstallXErrorHandlers,
    /// Apply the event-dispatch interceptor to the application class.
    ApplyDispatchInterceptor,
}

/// The preparation steps of each platform, in order: X11 installs its error
/// handlers, Cocoa applies the dispatch interceptor, Win32 needs nothing.
pub open spec fn pre_init_steps_spec(p: Platform) -> Seq<PreInitStep> {
    match p {
        Platform::X11 => seq![PreInitStep::InstallXErrorHandlers],
        Platform::Cocoa => seq![PreInitStep::ApplyDispatchInterceptor],
        Platform::Win32 => Seq::empty(),
    }
}

/// The engine lifecycle state: enforces one initialization per process and
/// no engine work before it or after shutdown.
pub struct EngineLifecycle {
    /// The current phase.
    pub phase: Phase,
    /// True while one pump tick is running: the pump must never be entered
    /// concurrently with itself.
    pub pumping: bool,
}

impl EngineLifecycle {
    /// A lifecycle that has not initialized yet.
    pub fn new() -> (r: Self)
        ensures
            r.phase is Idle,
            !r.pumping,
    {
        EngineLifecycle { phase: Phase::Idle, pumping: false }
    }

    /// Takes the single Idle → Initialized transition and hands back the
    /// platform's preparation steps, to be performed before the engine
    /// initialization call. Re-initialization is rejected: it is undefined
    /// behaviour in the engine and must never reach it.
    pub fn begin_initialization(&mut self, p: Platform) -> (r: Result<
        Vec<PreInitStep>,
        BridgeError,
    >)
        ensures
            old(self).phase is Idle ==> (r matches Ok(steps) && steps@ == pre_init_steps_spec(p)
                && final(self).phase is Initialized),
            old(self).phase is Initialized ==> r == Err::<Vec<PreInitStep>, BridgeError>(
                BridgeError::AlreadyInitialized,
            ) && final(self).phase == old(self).phase,
            old(self).phase is ShutDown ==> r == Err::<Vec<PreInitStep>, BridgeError>(
                BridgeError::AlreadyShutDown,
            ) && final(self).phase == old(self).phase,
            final(self).pumping == old(self).pumping,
    {
        match self.phase {
            Phase::Idle => {
                self.phase = Phase::Initialized;
                let mut steps: Vec<PreInitStep> = Vec::new();
                match p {
                    Platform::X11 => {
                        steps.push(PreInitStep::InstallXErrorHandlers);
                        proof {
                            assert(steps@ =~= pre_init_steps_spec(p));
                        }
                    },
                    Platform::Cocoa => {
                        steps.push(PreInitStep::ApplyDispatchInterceptor);
                        proof {
                            assert(steps@ =~= pre_init_steps_spec(p));
                        }
                    },
                    Platform::Win32 => {
                        proof {
                            assert(steps@ =~= pre_init_steps_spec(p));
                        }
                    },
                }
                Ok(steps)
            },
            Phase::Initialized => Err(BridgeError::AlreadyInitialized),
            Phase::ShutDown => Err(BridgeError::AlreadyShutDown),
        }
    }

    /// Accepts exactly the initialized phase; every engine operation
    /// (pump, browser work) passes through here before it runs.
    pub fn check_operable(&self) -> (r: Result<(), BridgeError>)
        ensures
            r is Ok <==> self.phase is Initialized,
            self.phase is Idle ==> r == Err::<(), BridgeError>(BridgeError::NotInitialized),
            self.phase is ShutDown ==> r == Err::<(), BridgeError>(BridgeError::AlreadyShutDown),
    {
        match self.phase {
            Phase::Idle => Err(BridgeError::NotInitialized),
            Phase::Initialized => Ok(()),
            Phase::ShutDown => Err(BridgeError::AlreadyShutDown),
        }
    }

    /// Takes the terminal Initialized → ShutDown transition. After it no
    /// engine-related call is valid in the process.
    pub fn shutdown(&mut self) -> (r: Result<(), BridgeError>)
        ensures
            old(self).phase is Initialized ==> r is Ok && final(self).phase is ShutDown,
            old(self).phase is Idle ==> r == Err::<(), BridgeError>(BridgeError::NotInitialized)
                && final(self).phase == old(self).phase,
            old(self).phase is ShutDown ==> r == Err::<(), BridgeError>(
                BridgeError::AlreadyShutDown,
            ) && final(self).phase == old(self).phase,
            final(self).pumping == old(self).pumping,
    {
        match self.phase {
            Phase::Idle => Err(BridgeError::NotInitialized),
            Phase::Initialized => {
                self.phase = Phase::ShutDown;
                Ok(())
            },
            Phase::ShutDown => Err(BridgeError::AlreadyShutDown),
        }
    }

    /// Enters one pump tick. Rejected while another tick is running — the
    /// pump must never be called concurrently with itself — and outside the
    /// initialized phase.
    pub fn begin_pump(&mut self) -> (r: Result<(), BridgeError>)
        ensures
            final(self).phase == old(self).phase,
            r is Ok <==> old(self).phase is Initialized && !old(self).pumping,
            r is Ok ==> final(self).pumping,
            r is Err ==> final(self).pumping == old(self).pumping,
            old(self).phase is Idle ==> r == Err::<(), BridgeError>(BridgeError::NotInitialized),
            old(self).phase is ShutDown ==> r == Err::<(), BridgeError>(
                BridgeError::AlreadyShutDown,
            ),
            old(self).phase is Initialized && old(self).pumping ==> r == Err::<(), BridgeError>(
                BridgeError::ReentrantPump,
            ),
    {
        match self.phase {
            Phase::Idle => Err(BridgeError::NotInitialized),
            Phase::ShutDown => Err(BridgeError::AlreadyShutDown),
            Phase::Initialized => {
                if self.pumping {
                    Err(BridgeError::ReentrantPump)
                } else {
                    self.pumping = true;
                    Ok(())
                }
            },
        }
    }

    /// Leaves the pump tick entered by `begin_pump`.
    pub fn end_pump(&mut self)
        requires
            old(self).pumping,
        ensures
            final(self).phase == old(self).phase,
            !final(self).pumping,
    {
        self.pumping = false;
    }
}

/// The event-dispatch interceptor: the declared form of the method patch
/// the application-bundle platform needs. Applied once to the application
/// class, it wraps event dispatch with an "is currently handling an event"
/// marker so collaborating code can detect reentrant dispatch. The class
/// patch is process-global and irreversible, so a second application is
/// detected and rejected.
pub struct DispatchInterceptor {
    /// Whether the class patch has been applied.
    pub applied: bool,
    /// The reentrancy marker: true while a wrapped dispatch is running.
    pub handling_event: bool,
}

impl DispatchInterceptor {
    /// A fresh interceptor: not applied, marker clear.
    pub fn new() -> (r: Self)
        ensures
            !r.applied,
            !r.handling_event,
    {
        DispatchInterceptor { applied: false, handling_event: false }
    }

    /// Applies the patch once; a second application is rejected without any
    /// state change.
    pub fn apply(&mut self) -> (r: Result<(), BridgeError>)
        ensures
            old(self).applied ==> r == Err::<(), BridgeError>(
                BridgeError::InterceptorAlreadyApplied,
            ) && *final(self) == *old(self),
            !old(self).applied ==> r is Ok && final(self).applied && final(self).handling_event
                == old(self).handling_event,
    {
        if self.applied {
            Err(BridgeError::InterceptorAlreadyApplied)
        } else {
            self.applied = true;
            Ok(())
        }
    }

    /// Enters a wrapped dispatch: sets the marker and returns its prior
    /// value, to be handed back on exit.
    pub fn enter_dispatch(&mut self) -> (prior: bool)
        requires
            old(self).applied,
        ensures
            prior == old(self).handling_event,
            final(self).handling_event,
            final(self).applied,
    {
        let prior = self.handling_event;
        self.handling_event = true;
        prior
    }

    /// Exits a wrapped dispatch: restores the marker to the value
    /// `enter_dispatch` returned, so nested dispatches leave it intact.
    pub fn exit_dispatch(&mut self, prior: bool)
        requires
            old(self).applied,
        ensures
            final(self).handling_event == prior,
            final(self).applied,
    {
        self.handling_event = prior;
    }

    /// Whether a wrapped dispatch is currently running: what collaborating
    /// code reads to avoid double-processing reentrant events.
    pub fn is_handling_event(&self) -> (r: bool)
        ensures
            r == self.handling_event,
    {
        self.handling_event
    }
}

/// The status an X protocol error handler returns: non-fatal, so the
/// process continues after reporting. The handler never terminates the
/// process.
pub fn x_error_status() -> (r: i32)
    ensures
        r == 0,
{
    0
}

/// The status an X input/output error handler returns: likewise non-fatal.
pub fn x_io_error_status() -> (r: i32)
    ensures
        r == 0,
{
    0
}

} // verus!
