//! The state that interrupt handlers and the main loop share, apart from
//! the host interface: one owned value in place of scattered globals.

use crate::critical::CriticalSection;
use crate::offline::BulkCycleData;
use crate::state::ProgramState;
use vstd::prelude::*;

verus! {

/// The shared state as a mathematical value.
pub struct ContextView {
    /// The current program state.
    pub state: ProgramState,
    /// Time of the last accepted wheel rotation, in microseconds since
    /// boot.
    pub last_cycle_time: u64,
    /// The session that the offline aggregator holds, if any.
    pub offline: Option<BulkCycleData>,
}

/// The program state, the debouncer's reference time and the offline
/// session. Each is read and written only through the functions of its
/// module, all of which ask for a `CriticalSection`.
pub struct Context {
    state: ProgramState,
    last_cycle_time: u64,
    current_bulk: Option<BulkCycleData>,
}

impl View for Context {
    type V = ContextView;

    closed spec fn view(&self) -> ContextView {
        ContextView {
            state: self.state,
            last_cycle_time: self.last_cycle_time,
            offline: self.current_bulk,
        }
    }
}

impl Context {
    /// The state at boot: awaiting mode selection, reference time zero, no
    /// offline session.
    pub fn new(_cs: &CriticalSection) -> (ctx: Self)
        ensures
            ctx@ == (ContextView {
                state: ProgramState::AwaitingModeSelect,
                last_cycle_time: 0,
                offline: None,
            }),
    {
        Context { state: ProgramState::AwaitingModeSelect, last_cycle_time: 0, current_bulk: None }
    }

    pub(crate) fn state(&self) -> (state: ProgramState)
        ensures
            state == self@.state,
    {
        self.state
    }

    pub(crate) fn set_state(&mut self, state: ProgramState)
        ensures
            final(self)@ == (ContextView { state, ..old(self)@ }),
    {
        self.state = state;
    }

    pub(crate) fn cycle_time(&self) -> (last_us: u64)
        ensures
            last_us == self@.last_cycle_time,
    {
        self.last_cycle_time
    }

    pub(crate) fn set_cycle_time(&mut self, last_us: u64)
        ensures
            final(self)@ == (ContextView { last_cycle_time: last_us, ..old(self)@ }),
    {
        self.last_cycle_time = last_us;
    }

    pub(crate) fn bulk(&self) -> (bulk: Option<BulkCycleData>)
        ensures
            bulk == self@.offline,
    {
        self.current_bulk
    }

    pub(crate) fn set_bulk(&mut self, bulk: Option<BulkCycleData>)
        ensures
            final(self)@ == (ContextView { offline: bulk, ..old(self)@ }),
    {
        self.current_bulk = bulk;
    }
}

} // verus!
