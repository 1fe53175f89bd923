//! The record that travels with a unit of asynchronous work.

use vstd::prelude::*;

use crate::handle::{AsyncWork, Reference};
use crate::protocol::Fault;

verus! {

/// What a unit of asynchronous work carries from the call that queues it, through
/// [`execute`] on the worker, to [`complete`](crate::complete::complete).
#[derive(Clone, Copy, Debug, PartialEq, Eq, Structural)]
pub struct Baton {
    /// Whether the work has been executed.
    pub called: bool,
    /// The script function to call once the work has been executed.
    pub func: Reference,
    /// The work to delete once the function has been called.
    pub task: AsyncWork,
}

impl Baton {
    /// The check that [`execute`] finds broken: the work must not have been executed before, and
    /// there must be a function to call.
    pub open spec fn execute_fault(self) -> Option<Fault> {
        if self.called {
            Some(Fault::AlreadyCalled)
        } else if self.func.is_null() {
            Some(Fault::NullFunction)
        } else {
            None
        }
    }

    /// The baton once its work has been executed.
    pub open spec fn executed(self) -> Baton {
        Baton { called: true, ..self }
    }
}

/// Executes the work: marks the baton called.
///
/// Work that was executed before, or that has no function to call, is refused, and its baton is
/// left as it was.
pub fn execute(baton: &mut Baton) -> (outcome: Result<(), Fault>)
    ensures
        match old(baton).execute_fault() {
            Some(fault) => outcome == Err::<(), Fault>(fault) && *final(baton) == *old(baton),
            None => outcome == Ok::<(), Fault>(()) && *final(baton) == old(baton).executed(),
        },
        outcome is Ok <==> !old(baton).called && old(baton).func.addr != 0,
        final(baton).called == (old(baton).called || outcome is Ok),
        final(baton).func == old(baton).func,
        final(baton).task == old(baton).task,
{
    if baton.called {
        return Err(Fault::AlreadyCalled);
    }
    if baton.func.is_null() {
        return Err(Fault::NullFunction);
    }
    baton.called = true;
    Ok(())
}

} // verus!
