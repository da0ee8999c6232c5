use rs485_node::led::{scale_channel, Color, Intensity, Leds, Mode, RawColor};

fn raw(r: u8, g: u8, b: u8, w: u8) -> RawColor {
    RawColor { r, g, b, w }
}

#[test]
fn colour_table() {
    assert_eq!(RawColor::from(Color::Off), raw(0, 0, 0, 0));
    assert_eq!(RawColor::from(Color::Red), raw(255, 0, 0, 0));
    assert_eq!(RawColor::from(Color::Green), raw(0, 255, 0, 0));
    assert_eq!(RawColor::from(Color::Blue), raw(0, 0, 255, 0));
    assert_eq!(RawColor::from(Color::Cyan), raw(0, 128, 128, 0));
    assert_eq!(RawColor::from(Color::Magenta), raw(138, 0, 90, 0));
    assert_eq!(RawColor::from(Color::Yellow), raw(150, 90, 0, 0));
    assert_eq!(RawColor::from(Color::White), raw(0, 0, 0, 255));
}

#[test]
fn channel_scaling_rounds_down() {
    assert_eq!(scale_channel(255, 5, 10), 127);
    assert_eq!(scale_channel(255, 10, 10), 255);
    assert_eq!(scale_channel(255, 1, 15), 17);
    assert_eq!(scale_channel(90, 3, 10), 27);
    assert_eq!(scale_channel(0, 7, 10), 0);
    assert_eq!(scale_channel(200, 0, 10), 0);
    assert_eq!(scale_channel(1, 9, 10), 0);
}

#[test]
fn channel_scaling_keeps_low_byte() {
    assert_eq!(scale_channel(255, 3, 2), 126);
    assert_eq!(scale_channel(200, 4_000_000_000, 1), 0);
    assert_eq!(scale_channel(255, 4_294_967_295, 1), 1);
}

#[test]
fn colour_scaling_is_per_channel() {
    assert_eq!(raw(150, 90, 0, 255).scale(1, 2), raw(75, 45, 0, 127));
    assert_eq!(raw(138, 0, 90, 0).scale(5, 10), raw(69, 0, 45, 0));
}

#[test]
fn mode_limits() {
    assert_eq!(Mode::Constant(Color::Red).max_ticks(), 1000);
    assert_eq!(Mode::Blink(Color::Red, 100).max_ticks(), 100);
    assert_eq!(Mode::Glow(Color::Red, 30).max_ticks(), 30);
}

#[test]
fn constant_is_written_at_tick_zero_or_on_reset() {
    let mode = Mode::Constant(Color::Cyan);
    assert_eq!(mode.color_for_tick(0, false), Some(raw(0, 128, 128, 0)));
    assert_eq!(mode.color_for_tick(1, false), None);
    assert_eq!(mode.color_for_tick(999, false), None);
    assert_eq!(mode.color_for_tick(17, true), Some(raw(0, 128, 128, 0)));
}

#[test]
fn blink_is_written_at_both_edges() {
    let mode = Mode::Blink(Color::Yellow, 100);
    assert_eq!(mode.color_for_tick(0, false), Some(raw(150, 90, 0, 0)));
    assert_eq!(mode.color_for_tick(1, false), None);
    assert_eq!(mode.color_for_tick(49, false), None);
    assert_eq!(mode.color_for_tick(50, false), Some(raw(0, 0, 0, 0)));
    assert_eq!(mode.color_for_tick(51, false), None);
    assert_eq!(mode.color_for_tick(49, true), Some(raw(150, 90, 0, 0)));
    assert_eq!(mode.color_for_tick(75, true), Some(raw(0, 0, 0, 0)));
}

#[test]
fn glow_fades_in_and_out() {
    let mode = Mode::Glow(Color::Blue, 30);
    assert_eq!(mode.color_for_tick(0, false), Some(raw(0, 0, 0, 0)));
    assert_eq!(mode.color_for_tick(1, false), Some(raw(0, 0, 17, 0)));
    assert_eq!(mode.color_for_tick(15, false), Some(raw(0, 0, 255, 0)));
    assert_eq!(mode.color_for_tick(20, false), Some(raw(0, 0, 170, 0)));
    assert_eq!(mode.color_for_tick(29, false), Some(raw(0, 0, 17, 0)));
    assert_eq!(mode.color_for_tick(30, false), Some(raw(0, 0, 0, 0)));
    let odd = Mode::Glow(Color::Magenta, 7);
    assert_eq!(odd.color_for_tick(3, false), Some(raw(138, 0, 90, 0)));
    assert_eq!(odd.color_for_tick(4, false), Some(raw(138, 0, 90, 0)));
    assert_eq!(odd.color_for_tick(5, false), Some(raw(92, 0, 60, 0)));
}

#[test]
fn new_leds_write_magenta_once() {
    let mut leds = Leds::new();
    assert_eq!(leds.period(), 10);
    assert_eq!(leds.tick(), Some(raw(138, 0, 90, 0)));
    for _ in 2..1000 {
        assert_eq!(leds.tick(), None);
    }
    assert_eq!(leds.tick(), Some(raw(138, 0, 90, 0)));
    assert_eq!(leds.tick(), None);
}

#[test]
fn effect_runs_for_one_period() {
    let mut leds = Leds::new();
    leds.set_mode(Mode::Constant(Color::Green));
    leds.tick();
    leds.show_effect(Mode::Glow(Color::Red, 6));
    assert_eq!(leds.tick(), Some(raw(85, 0, 0, 0)));
    assert_eq!(leds.tick(), Some(raw(170, 0, 0, 0)));
    assert_eq!(leds.tick(), Some(raw(255, 0, 0, 0)));
    assert_eq!(leds.tick(), Some(raw(170, 0, 0, 0)));
    assert_eq!(leds.tick(), Some(raw(85, 0, 0, 0)));
    assert_eq!(leds.tick(), Some(raw(0, 255, 0, 0)));
    assert_eq!(leds.tick(), None);
}

#[test]
fn intensity_scales_what_is_written() {
    let mut leds = Leds::new();
    leds.set_mode(Mode::Constant(Color::White));
    leds.set_intensity(Intensity::new(1).unwrap());
    assert_eq!(leds.tick(), Some(raw(0, 0, 0, 25)));
    leds.set_intensity(Intensity::new(7).unwrap());
    assert_eq!(leds.tick(), Some(raw(0, 0, 0, 178)));
    assert_eq!(leds.board_color(raw(150, 90, 0, 0)), raw(105, 63, 0, 0));
}

#[test]
fn blink_mode_over_two_periods() {
    let mut leds = Leds::new();
    leds.tick();
    leds.set_mode(Mode::Blink(Color::Red, 4));
    assert_eq!(leds.tick(), Some(raw(0, 0, 0, 0)));
    assert_eq!(leds.tick(), None);
    assert_eq!(leds.tick(), Some(raw(255, 0, 0, 0)));
    assert_eq!(leds.tick(), None);
    assert_eq!(leds.tick(), Some(raw(0, 0, 0, 0)));
    assert_eq!(leds.tick(), None);
    assert_eq!(leds.tick(), Some(raw(255, 0, 0, 0)));
}
