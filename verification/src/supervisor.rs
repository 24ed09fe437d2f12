//! The protocol supervisor: one state machine coordinating the two network
//! front ends over the same backing store.
//!
//! The decisions are verified here as a transition function from state and
//! event to next state and action; the runtime loop outside the library
//! performs each action (bind, serve, cancel, exit) and feeds back what
//! happened.  Failing to bind either endpoint is fatal at startup; an
//! unexpected termination of either endpoint while running crashes the
//! whole process with no restart; an external termination signal starts a
//! coordinated shutdown that cancels the legacy endpoint and waits for it
//! to report completion.  In-flight requests on the legacy endpoint are not
//! guaranteed to finish before shutdown proceeds: the cancellation is
//! cooperative and coarse-grained, a deliberately relaxed guarantee.

use vstd::prelude::*;

verus! {

/// The supervisor's lifecycle.
#[derive(Clone, Copy, Debug, PartialEq, Eq, Structural)]
pub enum SupervisorState {
    /// Binding both endpoints; nothing serves yet.
    Starting,
    /// Both endpoints serve concurrently.
    Running,
    /// A termination signal arrived; waiting for the legacy endpoint.
    ShuttingDown,
    /// Terminal.  `clean` records whether shutdown was signal-driven.
    Stopped { clean: bool },
}

/// What the runtime reports to the supervisor.
#[derive(Clone, Copy, Debug, PartialEq, Eq, Structural)]
pub enum SupervisorEvent {
    /// Both endpoints bound their addresses.
    EndpointsBound,
    /// Either endpoint failed to bind its address.
    BindFailed,
    /// The modern endpoint's serve loop returned.
    ModernTerminated,
    /// The legacy endpoint's serve loop returned on its own.
    LegacyTerminated,
    /// An external termination signal arrived.
    ShutdownSignal,
    /// The legacy endpoint reported completion after cancellation.
    LegacyStopped,
}

/// What the runtime must do after a transition.
#[derive(Clone, Copy, Debug, PartialEq, Eq, Structural)]
pub enum SupervisorAction {
    /// Keep serving; nothing to do.
    Ignore,
    /// Send the one-shot cancellation to the legacy endpoint's run loop.
    CancelLegacy,
    /// Exit the process reporting success.
    ExitSuccess,
    /// Exit the process reporting failure.
    ExitFailure,
}

/// The transition function.
pub open spec fn spec_step(s: SupervisorState, e: SupervisorEvent) -> (
    SupervisorState,
    SupervisorAction,
) {
    match (s, e) {
        (SupervisorState::Starting, SupervisorEvent::EndpointsBound) => (
            SupervisorState::Running,
            SupervisorAction::Ignore,
        ),
        (SupervisorState::Starting, SupervisorEvent::BindFailed) => (
            SupervisorState::Stopped { clean: false },
            SupervisorAction::ExitFailure,
        ),
        (SupervisorState::Starting, _) => (SupervisorState::Starting, SupervisorAction::Ignore),
        (SupervisorState::Running, SupervisorEvent::ModernTerminated) => (
            SupervisorState::Stopped { clean: false },
            SupervisorAction::ExitFailure,
        ),
        (SupervisorState::Running, SupervisorEvent::LegacyTerminated) => (
            SupervisorState::Stopped { clean: false },
            SupervisorAction::ExitFailure,
        ),
        (SupervisorState::Running, SupervisorEvent::ShutdownSignal) => (
            SupervisorState::ShuttingDown,
            SupervisorAction::CancelLegacy,
        ),
        (SupervisorState::Running, _) => (SupervisorState::Running, SupervisorAction::Ignore),
        (SupervisorState::ShuttingDown, SupervisorEvent::LegacyStopped) => (
            SupervisorState::Stopped { clean: true },
            SupervisorAction::ExitSuccess,
        ),
        (SupervisorState::ShuttingDown, _) => (
            SupervisorState::ShuttingDown,
            SupervisorAction::Ignore,
        ),
        (SupervisorState::Stopped { clean }, _) => (
            SupervisorState::Stopped { clean },
            SupervisorAction::Ignore,
        ),
    }
}

/// One supervisor step, as the runtime loop calls it.
pub fn supervisor_step(s: SupervisorState, e: SupervisorEvent) -> (r: (
    SupervisorState,
    SupervisorAction,
))
    ensures
        r == spec_step(s, e),
{
    match (s, e) {
        (SupervisorState::Starting, SupervisorEvent::EndpointsBound) => (
            SupervisorState::Running,
            SupervisorAction::Ignore,
        ),
        (SupervisorState::Starting, SupervisorEvent::BindFailed) => (
            SupervisorState::Stopped { clean: false },
            SupervisorAction::ExitFailure,
        ),
        (SupervisorState::Starting, _) => (SupervisorState::Starting, SupervisorAction::Ignore),
        (SupervisorState::Running, SupervisorEvent::ModernTerminated) => (
            SupervisorState::Stopped { clean: false },
            SupervisorAction::ExitFailure,
        ),
        (SupervisorState::Running, SupervisorEvent::LegacyTerminated) => (
            SupervisorState::Stopped { clean: false },
            SupervisorAction::ExitFailure,
        ),
        (SupervisorState::Running, SupervisorEvent::ShutdownSignal) => (
            SupervisorState::ShuttingDown,
            SupervisorAction::CancelLegacy,
        ),
        (SupervisorState::Running, _) => (SupervisorState::Running, SupervisorAction::Ignore),
        (SupervisorState::ShuttingDown, SupervisorEvent::LegacyStopped) => (
            SupervisorState::Stopped { clean: true },
            SupervisorAction::ExitSuccess,
        ),
        (SupervisorState::ShuttingDown, _) => (
            SupervisorState::ShuttingDown,
            SupervisorAction::Ignore,
        ),
        (SupervisorState::Stopped { clean }, _) => (
            SupervisorState::Stopped { clean },
            SupervisorAction::Ignore,
        ),
    }
}

/// The process exit code a stopped supervisor reports: zero exactly when
/// shutdown was signal-driven.
pub fn exit_code(clean: bool) -> (r: i32)
    ensures
        (r == 0) <==> clean,
        !clean ==> r == 1,
{
    if clean {
        0
    } else {
        1
    }
}

/// Running a whole event sequence from a state.
pub open spec fn run_events(s: SupervisorState, es: Seq<SupervisorEvent>) -> SupervisorState
    decreases es.len(),
{
    if es.len() == 0 {
        s
    } else {
        run_events(spec_step(s, es[0]).0, es.skip(1))
    }
}

/// Stopped is terminal: no event moves the supervisor out of it, and no
/// action is taken again.
pub proof fn lemma_stopped_terminal(clean: bool, e: SupervisorEvent)
    ensures
        spec_step(SupervisorState::Stopped { clean }, e) == (
            SupervisorState::Stopped { clean },
            SupervisorAction::Ignore,
        ),
{
}

/// Shutdown is entered only by the termination signal while running, and
/// entering it is what sends the one-shot cancellation to the legacy
/// endpoint.
pub proof fn lemma_shutdown_entered_by_signal(s: SupervisorState, e: SupervisorEvent)
    ensures
        spec_step(s, e).0 is ShuttingDown ==> (s is ShuttingDown || (s is Running && e
            == SupervisorEvent::ShutdownSignal)),
        (s is Running && e == SupervisorEvent::ShutdownSignal) ==> spec_step(s, e) == (
            SupervisorState::ShuttingDown,
            SupervisorAction::CancelLegacy,
        ),
{
}

/// A clean stop arises only when the legacy endpoint reports completion
/// during a signal-driven shutdown.
pub proof fn lemma_clean_stop_single_step(s: SupervisorState, e: SupervisorEvent)
    ensures
        spec_step(s, e).0 == (SupervisorState::Stopped { clean: true }) ==> ((s is ShuttingDown
            && e == SupervisorEvent::LegacyStopped) || s == (SupervisorState::Stopped {
            clean: true,
        })),
{
}

/// Over any whole run that starts before shutdown, a clean stop can only
/// come from a termination signal: the exit code is zero exactly on the
/// signal-driven path.
pub proof fn lemma_clean_stop_needs_signal(s: SupervisorState, es: Seq<SupervisorEvent>)
    requires
        s is Starting || s is Running || s == (SupervisorState::Stopped { clean: false }),
        run_events(s, es) == (SupervisorState::Stopped { clean: true }),
    ensures
        es.contains(SupervisorEvent::ShutdownSignal),
    decreases es.len(),
{
    if es.len() == 0 {
    } else {
        let s1 = spec_step(s, es[0]).0;
        if es[0] == SupervisorEvent::ShutdownSignal {
            assert(es.contains(SupervisorEvent::ShutdownSignal)) by {
                assert(es[0] == SupervisorEvent::ShutdownSignal);
            }
        } else {
            assert(s1 is Starting || s1 is Running || s1 == (SupervisorState::Stopped {
                clean: false,
            }));
            lemma_clean_stop_needs_signal(s1, es.skip(1));
            let i = choose|i: int|
                0 <= i < es.skip(1).len() && es.skip(1)[i] == SupervisorEvent::ShutdownSignal;
            assert(es[i + 1] == SupervisorEvent::ShutdownSignal);
        }
    }
}

} // verus!
