use gocycling::datetime::datetime_t;
use gocycling::rgb::{
    hue_to_rgb_rainbow, scale_rgb, scale_u8, PinLevel, PwmLevels, RgbLed, MAX_BRIGHTNESS,
};

#[test]
fn scale_u8_examples() {
    assert_eq!(scale_u8(128, 85), 43);
    assert_eq!(scale_u8(248, 85), 83);
    assert_eq!(scale_u8(248, 170), 165);
    assert_eq!(scale_u8(255, 255), 255);
    assert_eq!(scale_u8(0, 255), 0);
    assert_eq!(scale_u8(255, 0), 0);
}

#[test]
fn scale_rgb_multiplies_by_thirteen() {
    assert_eq!(MAX_BRIGHTNESS, 0x0CFF);
    assert_eq!(scale_rgb(0, 1, 255), (0, 13, 3315));
    assert_eq!(scale_rgb(170, 85, 2), (2210, 1105, 26));
}

#[test]
fn rainbow_colours_at_chosen_hues() {
    assert_eq!(hue_to_rgb_rainbow(0), (255, 0, 0));
    assert_eq!(hue_to_rgb_rainbow(16), (212, 43, 0));
    assert_eq!(hue_to_rgb_rainbow(32), (170, 85, 0));
    assert_eq!(hue_to_rgb_rainbow(48), (170, 128, 0));
    assert_eq!(hue_to_rgb_rainbow(64), (170, 170, 0));
    assert_eq!(hue_to_rgb_rainbow(100), (0, 245, 10));
    assert_eq!(hue_to_rgb_rainbow(130), (0, 160, 95));
    assert_eq!(hue_to_rgb_rainbow(160), (0, 0, 255));
    assert_eq!(hue_to_rgb_rainbow(190), (80, 0, 175));
    assert_eq!(hue_to_rgb_rainbow(255), (253, 0, 2));
}

#[test]
fn put_rgb_caps_and_inverts() {
    let led = RgbLed::new(6, 7, 8);
    assert_eq!(
        led.put_rgb(0, 0x0CFF, 0xFFFF),
        PwmLevels {
            r: PinLevel { pin: 6, level: 0xFFFF },
            g: PinLevel { pin: 7, level: 0xF300 },
            b: PinLevel { pin: 8, level: 0xF300 },
        }
    );
    assert_eq!(led.put_rgb(1, 0x0D00, 100).r.level, 0xFFFE);
    assert_eq!(led.put_rgb(1, 0x0D00, 100).g.level, 0xF300);
    assert_eq!(led.put_rgb(1, 0x0D00, 100).b.level, 65435);
}

#[test]
fn put_rainbow_hue_gives_the_levels_of_the_colour() {
    let led = RgbLed::new(2, 3, 4);
    let levels = led.put_rainbow_hue(0);
    assert_eq!(
        levels,
        PwmLevels {
            r: PinLevel { pin: 2, level: 62220 },
            g: PinLevel { pin: 3, level: 65535 },
            b: PinLevel { pin: 4, level: 65535 },
        }
    );
    let levels = led.put_rainbow_hue(190);
    assert_eq!((levels.r.level, levels.g.level, levels.b.level), (64495, 65535, 63260));
    let levels = led.put_rainbow_hue(130);
    assert_eq!((levels.r.level, levels.g.level, levels.b.level), (65535, 63455, 64300));
}

#[test]
fn packed_time_is_unpacked_field_by_field() {
    let time = datetime_t::from_bits(0x2A_95AF_87E5);
    assert_eq!(
        time,
        datetime_t { year: 2021, month: 8, day: 15, dotw: 0, hour: 13, min: 37, sec: 42 }
    );
}

#[test]
fn packed_time_ignores_the_bits_above_the_seconds() {
    let time = datetime_t::from_bits(0xFFFF_FFC0_0000_0000);
    assert_eq!(time, datetime_t { year: 0, month: 0, day: 0, dotw: 0, hour: 0, min: 0, sec: 0 });
    let time = datetime_t::from_bits(u64::MAX);
    assert_eq!(
        time,
        datetime_t { year: 4095, month: 15, day: 31, dotw: 0, hour: 31, min: 63, sec: 63 }
    );
}
