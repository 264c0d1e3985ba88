//! What the bridge does when it panics.

use crate::trace::{self, Run};
use vstd::prelude::*;

verus! {

/// The panic handler: whether it has logged the panic.
#[derive(Clone, Copy, Debug, PartialEq, Eq, Structural)]
pub struct PanicHandler {
    pub reported: bool,
}

/// What the panic handler does next.
#[derive(Debug)]
pub enum PanicAction<'a, T> {
    /// Log this, as it displays itself, at the error level.
    LogError(&'a T),
    /// Spin once.
    Spin,
}

impl PanicHandler {
    /// The handler at the moment of the panic.
    pub fn start() -> (started: PanicHandler)
        ensures
            !started.reported,
    {
        PanicHandler { reported: false }
    }
}

/// The handler's state and action after one more step.
pub open spec fn next<'a, T>(state: PanicHandler, panic_info: &'a T) -> (
    PanicHandler,
    PanicAction<'a, T>,
) {
    (
        PanicHandler { reported: true },
        if state.reported {
            PanicAction::Spin
        } else {
            PanicAction::LogError(panic_info)
        },
    )
}

/// One step of the handling of a panic that `panic_info` describes: it is logged,
/// once, and the handler spins from then on.
pub fn panic<'a, T>(handler: &mut PanicHandler, panic_info: &'a T) -> (action: PanicAction<'a, T>)
    ensures
        (*final(handler), action) == next(*old(handler), panic_info),
        final(handler).reported,
{
    if handler.reported {
        PanicAction::Spin
    } else {
        handler.reported = true;
        PanicAction::LogError(panic_info)
    }
}

/// The handler as a machine that takes the same description at every step.
pub open spec fn machine<'a, T>() -> spec_fn(PanicHandler, &'a T) -> Option<
    (PanicHandler, PanicAction<'a, T>),
> {
    |state: PanicHandler, panic_info: &'a T| Some(next(state, panic_info))
}

/// The handler and its actions after `steps` steps.
pub open spec fn run<'a, T>(panic_info: &'a T, steps: nat) -> Option<
    Run<PanicHandler, PanicAction<'a, T>>,
> {
    trace::run(
        machine(),
        Run { state: PanicHandler { reported: false }, requests: seq![] },
        Seq::new(steps, |i: int| panic_info),
    )
}

/// However long the handler runs, its first step logs the panic, every later one
/// spins, and there is always a next step: the panic is logged exactly once, and
/// the handler never returns.
pub proof fn logs_once_then_spins<'a, T>(panic_info: &'a T, steps: nat)
    ensures
        run(panic_info, steps) is Some,
        run(panic_info, steps)->0.state.reported <==> steps > 0,
        run(panic_info, steps)->0.requests == Seq::new(
            steps,
            |i: int|
                if i == 0 {
                    PanicAction::LogError(panic_info)
                } else {
                    PanicAction::Spin
                },
        ),
    decreases steps,
{
    if steps > 0 {
        let before = (steps - 1) as nat;
        logs_once_then_spins(panic_info, before);
        assert(Seq::new(steps, |i: int| panic_info).drop_last() =~= Seq::new(
            before,
            |i: int| panic_info,
        ));
    }
}

} // verus!
