//! Wheel rotations: the debouncer that turns raw sensor edges into cycle
//! events.

use crate::context::{Context, ContextView};
use crate::critical::CriticalSection;
use crate::host::HostInterface;
use crate::machine::Model;
use crate::offline;
use vstd::prelude::*;

verus! {

/// Edges closer than this to the last accepted one are bounce, in
/// microseconds.
pub const MIN_CYCLE_DELTA: u64 = 50_000;

/// One wheel rotation: the time since the rotation before it.
#[derive(Clone, Copy, Debug, PartialEq, Eq, Structural)]
pub struct CycleData {
    pub millis: u32,
}

impl Default for CycleData {
    fn default() -> (data: Self)
        ensures
            data.millis == 0,
    {
        CycleData { millis: 0 }
    }
}

/// Whether an edge at `now_us` is a rotation, given the last accepted one:
/// it is one from 50 ms after it. An edge stamped before the reference is
/// none.
pub open spec fn is_cycle(last_us: u64, now_us: u64) -> bool {
    now_us - last_us >= MIN_CYCLE_DELTA
}

/// The event that an accepted edge at `now_us` yields: whole milliseconds
/// since the last accepted edge, reduced modulo 2^32.
pub open spec fn cycle_between(last_us: u64, now_us: u64) -> CycleData {
    CycleData { millis: (((now_us - last_us) / 1000) % 0x1_0000_0000) as u32 }
}

/// The reference time after an edge at `now_us`, and the event the edge
/// yields.
pub open spec fn spec_debounce(last_us: u64, now_us: u64) -> (u64, Option<CycleData>) {
    if is_cycle(last_us, now_us) {
        (now_us, Some(cycle_between(last_us, now_us)))
    } else {
        (last_us, None)
    }
}

/// Of two edges that follow an accepted one, the first 50 ms or more after
/// it: the first yields an event. The second yields none and leaves no
/// trace if it comes less than 50 ms after the first; otherwise it yields
/// an event that carries the time between the two.
pub proof fn lemma_two_edges(last_us: u64, first_us: u64, second_us: u64)
    requires
        first_us - last_us >= MIN_CYCLE_DELTA,
    ensures
        ({
            let (after_first, first) = spec_debounce(last_us, first_us);
            let (after_second, second) = spec_debounce(after_first, second_us);
            &&& first == Some(cycle_between(last_us, first_us))
            &&& second_us - first_us < MIN_CYCLE_DELTA ==> second.is_none() && after_second
                == first_us
            &&& second_us - first_us >= MIN_CYCLE_DELTA ==> second == Some(
                cycle_between(first_us, second_us),
            ) && after_second == second_us
        }),
{
}

/// Takes one raw sensor edge. An edge less than 50 ms after the last
/// accepted one is dropped and changes nothing; any other becomes the new
/// reference and yields one event.
pub fn debounce(ctx: &mut Context, _cs: &CriticalSection, now_us: u64) -> (event: Option<CycleData>)
    ensures
        event == spec_debounce(old(ctx)@.last_cycle_time, now_us).1,
        final(ctx)@ == (ContextView {
            last_cycle_time: spec_debounce(old(ctx)@.last_cycle_time, now_us).0,
            ..old(ctx)@
        }),
{
    let last_us = ctx.cycle_time();
    if now_us < last_us || now_us - last_us < MIN_CYCLE_DELTA {
        return None;
    }
    let delta = now_us - last_us;
    ctx.set_cycle_time(now_us);
    Some(CycleData { millis: ((delta / 1000) % 0x1_0000_0000) as u32 })
}

/// Takes one raw sensor edge and routes the cycle it may yield: to the host
/// interface, as live data, while a session is started on a connection
/// whose link is up; to the offline aggregator in every other state. A
/// cycle that its receiver cannot take is dropped.
pub fn handle_cycle(
    ctx: &mut Context,
    host: &mut HostInterface,
    cs: &CriticalSection,
    now_us: u64,
)
    requires
        old(host).wf(),
    ensures
        final(host).wf(),
        (Model { host: final(host)@, ctx: final(ctx)@ }) == (Model {
            host: old(host)@,
            ctx: old(ctx)@,
        }).cycle(now_us),
{
    if let Some(data) = debounce(ctx, cs, now_us) {
        let live = match host.connection(cs) {
            Some(connection) => connection.session.is_some() && !connection.connection_lost,
            None => false,
        };
        if live {
            let _ = host.push_cycle(cs, data);
        } else {
            let _ = offline::add_cycle(ctx, cs, &data);
        }
    }
}

/// Makes `now_us` the reference time, so that the next rotation does not
/// report time that passed before the ride began.
pub fn reset(ctx: &mut Context, _cs: &CriticalSection, now_us: u64)
    ensures
        final(ctx)@ == (ContextView { last_cycle_time: now_us, ..old(ctx)@ }),
{
    ctx.set_cycle_time(now_us);
}

/// The reference time of the debouncer.
pub fn last_cycle_time(ctx: &Context, _cs: &CriticalSection) -> (last_us: u64)
    ensures
        last_us == ctx@.last_cycle_time,
{
    ctx.cycle_time()
}

} // verus!
