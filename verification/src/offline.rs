//! The offline aggregator: one compact record of a ride, grown cycle by
//! cycle while no host takes live data.

use crate::context::{Context, ContextView};
use crate::critical::CriticalSection;
use crate::cycling::{self, CycleData};
use crate::state::{self, ProgramState};
use vstd::prelude::*;

verus! {

/// Status hue while the device records without a host.
pub const OFFLINE_MODE_HUE: u8 = 190;

/// Why a cycle was not added.
#[derive(Clone, Copy, Debug, PartialEq, Eq)]
pub enum Error {
    /// The record cannot count this cycle without a field wrapping.
    BulkFull,
    /// The aggregator holds no session.
    NotActive,
}

/// One continuous ride: its total duration and its number of cycles.
#[derive(Clone, Copy, Debug, PartialEq, Eq, Structural)]
pub struct BulkCycleData {
    pub millis: u32,
    pub cycle_count: u16,
}

/// Sum of the durations of `cycles`.
pub open spec fn total_millis(cycles: Seq<CycleData>) -> nat
    decreases cycles.len(),
{
    if cycles.len() == 0 {
        0
    } else {
        total_millis(cycles.drop_last()) + cycles.last().millis as nat
    }
}

impl BulkCycleData {
    /// Whether `data` can be added without either field wrapping.
    pub open spec fn fits(self, data: CycleData) -> bool {
        self.cycle_count < u16::MAX && self.millis + data.millis <= u32::MAX
    }

    /// The record with `data` added, where it fits; the record itself where
    /// it does not.
    pub open spec fn spec_add_cycle(self, data: CycleData) -> BulkCycleData {
        if self.fits(data) {
            BulkCycleData {
                millis: (self.millis + data.millis) as u32,
                cycle_count: (self.cycle_count + 1) as u16,
            }
        } else {
            self
        }
    }

    /// The record after offering it each of `cycles` in order.
    pub open spec fn fold(self, cycles: Seq<CycleData>) -> BulkCycleData
        decreases cycles.len(),
    {
        if cycles.len() == 0 {
            self
        } else {
            self.fold(cycles.drop_last()).spec_add_cycle(cycles.last())
        }
    }

    /// An empty record.
    pub fn new() -> (bulk: Self)
        ensures
            bulk.millis == 0,
            bulk.cycle_count == 0,
    {
        Self { millis: 0, cycle_count: 0 }
    }

    /// Adds one cycle. Fails, and changes nothing, where the count or the
    /// duration would wrap.
    pub fn add_cycle(&mut self, data: &CycleData) -> (added: Result<(), Error>)
        ensures
            *final(self) == old(self).spec_add_cycle(*data),
            old(self).fits(*data) ==> added == Ok::<(), Error>(()),
            !old(self).fits(*data) ==> added == Err::<(), Error>(Error::BulkFull),
    {
        if self.cycle_count == u16::MAX || data.millis > u32::MAX - self.millis {
            return Err(Error::BulkFull);
        }
        self.cycle_count = self.cycle_count + 1;
        self.millis = self.millis + data.millis;
        Ok(())
    }

    /// Total duration of the ride, in milliseconds.
    pub fn millis(&self) -> (millis: u32)
        ensures
            millis == self.millis,
    {
        self.millis
    }

    /// Number of cycles of the ride.
    pub fn cycle_count(&self) -> (count: u16)
        ensures
            count == self.cycle_count,
    {
        self.cycle_count
    }
}

/// As long as neither field would wrap, a record that has been offered
/// `cycles` holds, on top of what it held, their number and the sum of
/// their durations.
pub proof fn lemma_fold_sums(bulk: BulkCycleData, cycles: Seq<CycleData>)
    requires
        bulk.millis + total_millis(cycles) <= u32::MAX,
        bulk.cycle_count + cycles.len() <= u16::MAX,
    ensures
        bulk.fold(cycles).millis == bulk.millis + total_millis(cycles),
        bulk.fold(cycles).cycle_count == bulk.cycle_count + cycles.len(),
    decreases cycles.len(),
{
    if cycles.len() > 0 {
        lemma_fold_sums(bulk, cycles.drop_last());
    }
}

/// A cycle that does not fit leaves the record as it was, whatever came
/// before it.
pub proof fn lemma_fold_overflow_keeps(bulk: BulkCycleData, cycles: Seq<CycleData>, data: CycleData)
    requires
        !bulk.fold(cycles).fits(data),
    ensures
        bulk.fold(cycles.push(data)) == bulk.fold(cycles),
{
    assert(cycles.push(data).drop_last() =~= cycles);
}

/// The shared state after the aggregator was offered `data`: the session,
/// where there is one, takes the cycle if it fits.
pub open spec fn spec_add_cycle(ctx: ContextView, data: CycleData) -> ContextView {
    match ctx.offline {
        Some(bulk) => ContextView { offline: Some(bulk.spec_add_cycle(data)), ..ctx },
        None => ctx,
    }
}

/// The shared state after `session` was handed to the aggregator at
/// `now_us`.
pub open spec fn spec_start_with(ctx: ContextView, session: BulkCycleData, now_us: u64) -> ContextView {
    ContextView {
        state: ProgramState::Running { status_hue: OFFLINE_MODE_HUE },
        last_cycle_time: now_us,
        offline: Some(session),
    }
}

/// Adds a cycle to the session that the aggregator holds.
pub fn add_cycle(ctx: &mut Context, _cs: &CriticalSection, data: &CycleData) -> (added: Result<
    (),
    Error,
>)
    ensures
        final(ctx)@ == spec_add_cycle(old(ctx)@, *data),
        added == match old(ctx)@.offline {
            Some(bulk) => if bulk.fits(*data) {
                Ok::<(), Error>(())
            } else {
                Err::<(), Error>(Error::BulkFull)
            },
            None => Err::<(), Error>(Error::NotActive),
        },
{
    match ctx.bulk() {
        Some(mut bulk) => {
            let added = bulk.add_cycle(data);
            ctx.set_bulk(Some(bulk));
            added
        },
        None => Err(Error::NotActive),
    }
}

/// Hands `session` to the aggregator, which replaces whatever it held,
/// restarts the debouncer at `now_us` and shows the offline hue.
pub fn start_with(ctx: &mut Context, cs: &CriticalSection, session: BulkCycleData, now_us: u64)
    ensures
        final(ctx)@ == spec_start_with(old(ctx)@, session, now_us),
{
    ctx.set_bulk(Some(session));
    cycling::reset(ctx, cs, now_us);
    state::store(ctx, cs, ProgramState::Running { status_hue: OFFLINE_MODE_HUE });
}

/// Starts a fresh offline session.
pub fn start(ctx: &mut Context, cs: &CriticalSection, now_us: u64)
    ensures
        final(ctx)@ == spec_start_with(
            old(ctx)@,
            BulkCycleData { millis: 0, cycle_count: 0 },
            now_us,
        ),
{
    start_with(ctx, cs, BulkCycleData::new(), now_us);
}

/// Removes the session from the aggregator and returns it.
pub fn take_session(ctx: &mut Context, _cs: &CriticalSection) -> (session: Option<BulkCycleData>)
    ensures
        session == old(ctx)@.offline,
        final(ctx)@ == (ContextView { offline: None, ..old(ctx)@ }),
{
    let session = ctx.bulk();
    ctx.set_bulk(None);
    session
}

/// A copy of the session that the aggregator holds.
pub fn session(ctx: &Context, _cs: &CriticalSection) -> (session: Option<BulkCycleData>)
    ensures
        session == ctx@.offline,
{
    ctx.bulk()
}

} // verus!
