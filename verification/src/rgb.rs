//! The colours of the status indicator: from a hue on the rainbow wheel to
//! the three pulse-width levels of a common-anode LED.

use vstd::prelude::*;

verus! {

/// The brightest level that the LED is driven to.
pub const MAX_BRIGHTNESS: u16 = 0x0CFF;

/// A third of the channel range.
pub const CONST_85: u8 = 85;

/// Two thirds of the channel range.
pub const CONST_170: u8 = 170;

/// The level to set on one pin.
#[derive(Clone, Copy, Debug, PartialEq, Eq, Structural)]
pub struct PinLevel {
    pub pin: u32,
    pub level: u16,
}

/// The levels to set on the three pins of an LED.
#[derive(Clone, Copy, Debug, PartialEq, Eq, Structural)]
pub struct PwmLevels {
    pub r: PinLevel,
    pub g: PinLevel,
    pub b: PinLevel,
}

/// `value` scaled by `(1 + scale) / 256`, rounded down.
pub open spec fn spec_scale_u8(value: u8, scale: u8) -> u8 {
    ((value * (1 + scale)) / 256) as u8
}

/// The colour at `hue` on a wheel of eight sections of 32 steps: red,
/// orange, yellow, green, cyan, blue, purple, pink, and back to red.
pub open spec fn spec_hue_to_rgb_rainbow(hue: u8) -> (u8, u8, u8) {
    let section = hue / 32;
    let step = ((hue % 32) * 8) as u8;
    let offset = spec_scale_u8(step, CONST_85);
    let offset_2 = spec_scale_u8(step, CONST_170);
    if section == 0 {
        ((255 - offset) as u8, offset, 0u8)
    } else if section == 1 {
        (CONST_170, (CONST_85 + offset) as u8, 0u8)
    } else if section == 2 {
        ((CONST_170 - offset_2) as u8, (CONST_170 + offset) as u8, 0u8)
    } else if section == 3 {
        (0u8, (255 - offset) as u8, offset)
    } else if section == 4 {
        (0u8, (CONST_170 - offset_2) as u8, (CONST_85 + offset_2) as u8)
    } else if section == 5 {
        (offset, 0u8, (255 - offset) as u8)
    } else if section == 6 {
        ((CONST_85 + offset) as u8, 0u8, (CONST_170 - offset) as u8)
    } else {
        ((CONST_170 + offset) as u8, 0u8, (CONST_85 - offset) as u8)
    }
}

/// A channel value stretched to the brightness range: times thirteen, the
/// whole number of times that 255 goes into the brightest level.
pub open spec fn spec_scale_channel(value: u8) -> u16 {
    (value * 13) as u16
}

/// The pin level for a brightness on a common-anode LED: the brightness,
/// capped at the brightest level, counted down from the top.
pub open spec fn spec_level(brightness: u16) -> u16 {
    if brightness > MAX_BRIGHTNESS {
        (u16::MAX - MAX_BRIGHTNESS) as u16
    } else {
        (u16::MAX - brightness) as u16
    }
}

/// An RGB LED on three pins.
#[derive(Clone, Copy, Debug, PartialEq, Eq, Structural)]
pub struct RgbLed {
    r_pin: u32,
    g_pin: u32,
    b_pin: u32,
}

impl RgbLed {
    /// The red, green and blue pin, in this order.
    pub closed spec fn pins(self) -> (u32, u32, u32) {
        (self.r_pin, self.g_pin, self.b_pin)
    }

    /// The levels that show the brightnesses `r`, `g` and `b` on this LED.
    pub open spec fn spec_put_rgb(self, r: u16, g: u16, b: u16) -> PwmLevels {
        PwmLevels {
            r: PinLevel { pin: self.pins().0, level: spec_level(r) },
            g: PinLevel { pin: self.pins().1, level: spec_level(g) },
            b: PinLevel { pin: self.pins().2, level: spec_level(b) },
        }
    }

    /// An LED on the given pins.
    pub fn new(r_pin: u32, g_pin: u32, b_pin: u32) -> (led: Self)
        ensures
            led.pins() == (r_pin, g_pin, b_pin),
    {
        RgbLed { r_pin, g_pin, b_pin }
    }

    /// The levels that show `hue` of the rainbow wheel.
    pub fn put_rainbow_hue(&self, hue: u8) -> (levels: PwmLevels)
        ensures
            levels == ({
                let (r, g, b) = spec_hue_to_rgb_rainbow(hue);
                self.spec_put_rgb(
                    spec_scale_channel(r),
                    spec_scale_channel(g),
                    spec_scale_channel(b),
                )
            }),
    {
        let (r, g, b) = hue_to_rgb_rainbow(hue);
        let (r, g, b) = scale_rgb(r, g, b);
        self.put_rgb(r, g, b)
    }

    /// The levels that show the brightnesses `r`, `g` and `b`, each capped
    /// at `MAX_BRIGHTNESS`.
    pub fn put_rgb(&self, r: u16, g: u16, b: u16) -> (levels: PwmLevels)
        ensures
            levels == self.spec_put_rgb(r, g, b),
    {
        // limit the max brightness of the led
        let r = if r > MAX_BRIGHTNESS {
            MAX_BRIGHTNESS
        } else {
            r
        };
        let g = if g > MAX_BRIGHTNESS {
            MAX_BRIGHTNESS
        } else {
            g
        };
        let b = if b > MAX_BRIGHTNESS {
            MAX_BRIGHTNESS
        } else {
            b
        };
        // we're using a common anode led, so the level needs to be
        // inverted for current sinking
        PwmLevels {
            r: PinLevel { pin: self.r_pin, level: u16::MAX - r },
            g: PinLevel { pin: self.g_pin, level: u16::MAX - g },
            b: PinLevel { pin: self.b_pin, level: u16::MAX - b },
        }
    }
}

/// The colour at `hue` on the rainbow wheel.
pub fn hue_to_rgb_rainbow(hue: u8) -> (rgb: (u8, u8, u8))
    ensures
        rgb == spec_hue_to_rgb_rainbow(hue),
{
    // Divide the hue range into 8 sections (3 bits)
    let section = (hue & 0xE0) >> 5;
    // The rest of the hue value will be used for the offset into the section
    let section_offset = hue & 0x1F;
    let step = section_offset << 3;
    assert(section == hue / 32 && section_offset == hue % 32 && step == (hue % 32) * 8 && step
        <= 248) by (bit_vector)
        requires
            section == (hue & 0xE0) >> 5,
            section_offset == hue & 0x1F,
            step == section_offset << 3,
    ;
    // Scale the section offset to use it for the channel values
    let offset = scale_u8(step, CONST_85);
    let offset_2 = scale_u8(step, CONST_170);
    assert(offset <= 83 && offset_2 <= 165) by (nonlinear_arith)
        requires
            step <= 248,
            offset == (step * 86) / 256,
            offset_2 == (step * 171) / 256,
    ;
    if section == 0 {
        // red -> orange
        (u8::MAX - offset, offset, 0)
    } else if section == 1 {
        // orange -> yellow
        (CONST_170, CONST_85 + offset, 0)
    } else if section == 2 {
        // yellow -> green
        (CONST_170 - offset_2, CONST_170 + offset, 0)
    } else if section == 3 {
        // green -> cyan
        (0, u8::MAX - offset, offset)
    } else if section == 4 {
        // cyan -> blue
        (0, CONST_170 - offset_2, CONST_85 + offset_2)
    } else if section == 5 {
        // blue -> purple
        (offset, 0, u8::MAX - offset)
    } else if section == 6 {
        // purple -> pink
        (CONST_85 + offset, 0, CONST_170 - offset)
    } else {
        // pink -> red
        (CONST_170 + offset, 0, CONST_85 - offset)
    }
}

/// The three channels stretched to the brightness range.
pub fn scale_rgb(r: u8, g: u8, b: u8) -> (scaled: (u16, u16, u16))
    ensures
        scaled == (spec_scale_channel(r), spec_scale_channel(g), spec_scale_channel(b)),
        scaled.0 <= MAX_BRIGHTNESS && scaled.1 <= MAX_BRIGHTNESS && scaled.2 <= MAX_BRIGHTNESS,
{
    let per_step = MAX_BRIGHTNESS / 255;
    let factor = if per_step < 1 {
        1
    } else {
        per_step
    };
    assert(factor == 13);
    (r as u16 * factor, g as u16 * factor, b as u16 * factor)
}

/// `value` scaled by `(1 + scale) / 256`, rounded down.
pub fn scale_u8(value: u8, scale: u8) -> (scaled: u8)
    ensures
        scaled == spec_scale_u8(value, scale),
        scaled == (value * (1 + scale)) / 256,
        scaled <= value,
{
    assert(value * (1 + scale) <= value * 256 <= 255 * 256) by (nonlinear_arith)
        requires
            scale <= 255,
            0 <= value <= 255,
    ;
    let big = value as u16 * (1 + scale as u16);
    (big / 256) as u8
}

} // verus!
