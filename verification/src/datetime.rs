//! The calendar time that a host may send, packed into 38 bits.

use vstd::prelude::*;

verus! {

/// A calendar time as the real-time clock of the board takes it.
#[allow(non_camel_case_types)]
#[derive(Clone, Copy, Debug, PartialEq, Eq, Structural)]
pub struct datetime_t {
    pub year: i16,
    pub month: i8,
    pub day: i8,
    pub dotw: i8,
    pub hour: i8,
    pub min: i8,
    pub sec: i8,
}

impl datetime_t {
    /// The time packed in `bits`, least significant field first: 12 bits of
    /// year, 4 of month, 5 of day, 5 of hour, 6 of minute, 6 of second.
    /// Higher bits are ignored, and the day of the week is left at zero.
    pub open spec fn spec_from_bits(bits: u64) -> datetime_t {
        datetime_t {
            year: (bits % 0x1000) as i16,
            month: ((bits / 0x1000) % 0x10) as i8,
            day: ((bits / 0x1_0000) % 0x20) as i8,
            dotw: 0,
            hour: ((bits / 0x20_0000) % 0x20) as i8,
            min: ((bits / 0x400_0000) % 0x40) as i8,
            sec: ((bits / 0x1_0000_0000) % 0x40) as i8,
        }
    }

    /// Unpacks a time.
    pub fn from_bits(bits: u64) -> (time: Self)
        ensures
            time == Self::spec_from_bits(bits),
    {
        let year = (bits >> 0) & 0x0FFF;
        let month = (bits >> 12) & 0x000F;
        let day = (bits >> 16) & 0x001F;
        let hour = (bits >> 21) & 0x001F;
        let min = (bits >> 26) & 0x003F;
        let sec = (bits >> 32) & 0x003F;
        assert(year == bits % 0x1000 && month == (bits / 0x1000) % 0x10 && day == (bits / 0x1_0000)
            % 0x20 && hour == (bits / 0x20_0000) % 0x20 && min == (bits / 0x400_0000) % 0x40 && sec
            == (bits / 0x1_0000_0000) % 0x40) by (bit_vector)
            requires
                year == (bits >> 0) & 0x0FFF,
                month == (bits >> 12) & 0x000F,
                day == (bits >> 16) & 0x001F,
                hour == (bits >> 21) & 0x001F,
                min == (bits >> 26) & 0x003F,
                sec == (bits >> 32) & 0x003F,
        ;
        Self {
            year: year as i16,
            month: month as i8,
            day: day as i8,
            dotw: 0,
            hour: hour as i8,
            min: min as i8,
            sec: sec as i8,
        }
    }
}

} // verus!
