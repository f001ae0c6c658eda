//! Dispatch of pin interrupts to the debouncer and to the link handler.

use crate::context::Context;
use crate::critical::CriticalSection;
use crate::cycling;
use crate::host::{HostInterface, LinkAction};
use crate::machine::Model;
use vstd::prelude::*;

verus! {

/// The pin of the wheel sensor.
pub const PIN_MAGNET_SENSOR: u32 = 5;

/// The pin that measures the battery.
pub const PIN_BATTERY_LEVEL_IN: u32 = 26;

/// The pin on which the serial module reports the link: low while a host
/// is linked.
pub const PIN_CONNECTION_STATE: u32 = 21;

/// Event bit of a falling edge.
pub const GPIO_IRQ_EDGE_FALL: u32 = 0x4;

/// Event bit of a rising edge.
pub const GPIO_IRQ_EDGE_RISE: u32 = 0x8;

/// Answers the interrupt of pin `pin` with event bits `events`, taken at
/// `now_us`. The result is what the caller is to do to the hardware.
pub fn on_gpio(
    ctx: &mut Context,
    host: &mut HostInterface,
    cs: &CriticalSection,
    pin: u32,
    events: u32,
    now_us: u64,
) -> (action: LinkAction)
    requires
        old(host).wf(),
    ensures
        final(host).wf(),
        ((Model { host: final(host)@, ctx: final(ctx)@ }), action) == (Model {
            host: old(host)@,
            ctx: old(ctx)@,
        }).gpio(pin, events, now_us),
{
    let rising_edge = (events & GPIO_IRQ_EDGE_RISE) != 0;
    let falling_edge = (events & GPIO_IRQ_EDGE_FALL) != 0;
    if pin == PIN_MAGNET_SENSOR {
        cycling::handle_cycle(ctx, host, cs, now_us);
        LinkAction::Nothing
    } else if pin == PIN_CONNECTION_STATE {
        if falling_edge {
            host.connection_changed(cs, ctx, true)
        } else if rising_edge {
            host.connection_changed(cs, ctx, false)
        } else {
            LinkAction::Nothing
        }
    } else {
        LinkAction::Nothing
    }
}

} // verus!
