//! Shutting down on interrupts: the first interrupt lets the started
//! requests finish, the next one forces the exit, and so on in turn.

use vstd::prelude::*;

verus! {

/// Where the shutdown stands.
#[derive(Clone, Copy, Debug, PartialEq, Eq)]
pub enum ShutdownPhase {
    /// Waiting for the interrupt that starts a graceful shutdown.
    Running,
    /// A graceful shutdown was asked for; waiting for the interrupt that
    /// forces the exit.
    Draining,
}

/// What to do on an interrupt.
#[derive(Debug)]
pub enum ShutdownAction {
    /// Print the message and cancel the graceful-shutdown token.
    CancelGrace { message: &'static str },
    /// Print the message and cancel the forced-shutdown token.
    CancelForce { message: &'static str },
}

/// The answer to an interrupt in each phase, as a view: the next phase and
/// whether the forced shutdown is the action.
pub open spec fn interrupt_step(p: ShutdownPhase) -> (ShutdownPhase, bool) {
    match p {
        ShutdownPhase::Running => (ShutdownPhase::Draining, false),
        ShutdownPhase::Draining => (ShutdownPhase::Running, true),
    }
}

/// The next phase and the action for an interrupt that arrives in `phase`.
pub fn on_interrupt(phase: ShutdownPhase) -> (r: (ShutdownPhase, ShutdownAction))
    ensures
        r.0 == interrupt_step(phase).0,
        match r.1 {
            ShutdownAction::CancelGrace { message } => !interrupt_step(phase).1
                && message@ == "SIGINT signal received, wait for started tasks"@,
            ShutdownAction::CancelForce { message } => interrupt_step(phase).1
                && message@ == "\nFORCE EXIT\n"@,
        },
{
    match phase {
        ShutdownPhase::Running => (
            ShutdownPhase::Draining,
            ShutdownAction::CancelGrace { message: "SIGINT signal received, wait for started tasks" },
        ),
        ShutdownPhase::Draining => (
            ShutdownPhase::Running,
            ShutdownAction::CancelForce { message: "\nFORCE EXIT\n" },
        ),
    }
}

/// From the start, the first interrupt asks for the graceful shutdown and
/// the second forces the exit; after two interrupts the protocol is where
/// it began, so it repeats.
pub proof fn law_interrupts_alternate(p: ShutdownPhase)
    ensures
        interrupt_step(interrupt_step(p).0).0 == p,
        interrupt_step(p).1 != interrupt_step(interrupt_step(p).0).1,
        !interrupt_step(ShutdownPhase::Running).1,
        interrupt_step(interrupt_step(ShutdownPhase::Running).0).1,
{
}

} // verus!
