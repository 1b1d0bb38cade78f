//! Interrupt forwarding.  An interrupt delivered to the shell process never
//! terminates the shell itself: while a foreground process is recorded as
//! running, the signal is forwarded to that process; while none is, the
//! signal has no effect at all and is not queued.

use vstd::prelude::*;

use crate::engine::Action;
use crate::state::State;

verus! {

/// The decision half of the signal-listener task: the embedding program
/// waits for the interrupt signal and asks this handler what to do with it.
pub struct SigHandler {
}

impl SigHandler {
    /// A fresh handler.
    pub fn new() -> (r: SigHandler) {
        SigHandler {  }
    }

    /// What one delivered interrupt amounts to: forward it to the recorded
    /// running process, if there is one, and do nothing otherwise — in
    /// particular, never an action against the shell itself, so the shell
    /// stays responsive either way.
    pub fn on_interrupt(&self, state: &State) -> (r: Option<Action>)
        ensures
            match state.running_pid {
                Option::Some(pid) => r == Option::Some(Action::ForwardSignal { pid }),
                Option::None => r is None,
            },
    {
        match state.running_pid {
            Option::Some(pid) => Option::Some(Action::ForwardSignal { pid }),
            Option::None => Option::None,
        }
    }
}

} // verus!
