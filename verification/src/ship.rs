//! The agent code contract and a builtin agent.
//!
//! Each ship is driven by an independently supplied code module whose only
//! externally invoked operation is the zero-argument per-tick entry point
//! here. The module receives its own boundary and nothing else, so it cannot
//! observe or mutate any other agent's state. A module that exceeds its
//! resource budget reports an incomplete tick and the scheduler discards its
//! output for that tick.
use vstd::prelude::*;
use crate::agent::AgentBoundary;
use crate::mathx::SCALE;

verus! {

/// One independently compiled agent code module.
pub trait Agent {
    /// Advances the agent by one tick. The module may read and write only
    /// the boundary it is handed. Returning `false` reports that the module
    /// ran out of its resource budget; the scheduler then treats the tick as
    /// faulted and discards the module's register writes.
    fn tick(&mut self, io: &mut AgentBoundary) -> (completed: bool)
        requires
            old(io).wf(),
        ensures
            final(io).wf(),
            final(io).env == old(io).env,
    ;
}

/// A builtin agent: spins up with full torque and keeps the trigger of its
/// first weapon held.
pub struct Ship {}

impl Ship {
    /// A fresh builtin agent.
    pub fn new() -> (r: Ship)
        ensures
            true,
    {
        Ship {}
    }
}

impl Agent for Ship {
    fn tick(&mut self, io: &mut AgentBoundary) -> (completed: bool) {
        io.torque(SCALE);
        io.fire(0);
        true
    }
}

} // verus!
