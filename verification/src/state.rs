//! The coarse mode of the device, which the status indicator renders.

use crate::context::{Context, ContextView};
use crate::critical::CriticalSection;
use vstd::prelude::*;

verus! {

/// What the device is doing, as far as its user can see.
#[derive(Clone, Copy, Debug, PartialEq, Eq, Structural)]
pub enum ProgramState {
    /// No mode has been chosen yet: no host link, no ride.
    AwaitingModeSelect,
    /// The device records a ride, or waits for one beside a host; the hue
    /// tells which.
    Running { status_hue: u8 },
}

/// A copy of the current program state.
pub fn retrieve(ctx: &Context, _cs: &CriticalSection) -> (state: ProgramState)
    ensures
        state == ctx@.state,
{
    ctx.state()
}

/// Replaces the program state; nothing else changes.
pub fn store(ctx: &mut Context, _cs: &CriticalSection, state: ProgramState)
    ensures
        final(ctx)@ == (ContextView { state, ..old(ctx)@ }),
{
    ctx.set_state(state);
}

} // verus!
