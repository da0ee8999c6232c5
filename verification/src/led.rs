//! LED colours, animation modes and the animation state of the board's LEDs.
//!
//! Time is counted in ticks of 10 ms. The state kept here decides which colour
//! the LEDs show at each tick; writing that colour to the LED strip is left to
//! the caller.

use vstd::prelude::*;
use vstd::std_specs::convert::FromSpecImpl;
use crate::units::bounded_level;

verus! {

/// Brightest intensity level.
pub const MAX_INTENSITY: u8 = 10;

/// Ticks for which a constant colour is held before it is written again.
pub const CONSTANT_TICKS: u32 = 1000;

/// Milliseconds between two ticks of the animation.
pub const TICK_MILLIS: u64 = 10;

/// The colours the LEDs can show.
#[derive(Debug, Clone, Copy, PartialEq, Eq, Structural)]
pub enum Color {
    Off,
    Red,
    Green,
    Blue,
    Cyan,
    Magenta,
    Yellow,
    White,
}

/// Channel values as the LEDs take them: red, green, blue and white.
#[derive(Debug, Clone, Copy, PartialEq, Eq, Structural)]
pub struct RawColor {
    pub r: u8,
    pub g: u8,
    pub b: u8,
    pub w: u8,
}

/// One channel value scaled by `num / den`, keeping the low eight bits.
pub open spec fn scaled_channel(value: u8, num: u32, den: u32) -> u8 {
    (((value as int) * (num as int) / (den as int)) % 256) as u8
}

/// Scaling by a ratio of at most one never brightens a channel, so nothing is
/// cut off: the result is the rounded-down quotient itself.
pub proof fn scaling_never_brightens(value: u8, num: u32, den: u32)
    requires
        den > 0,
        num <= den,
    ensures
        scaled_channel(value, num, den) <= value,
        scaled_channel(value, num, den) == (value as int) * (num as int) / (den as int),
{
    let v = value as int;
    let n = num as int;
    let d = den as int;
    assert(v * n <= v * d) by (nonlinear_arith)
        requires
            n <= d,
            v >= 0,
    ;
    assert((v * d) / d == v) by (nonlinear_arith)
        requires
            d > 0,
    ;
    assert((v * n) / d <= (v * d) / d) by (nonlinear_arith)
        requires
            v * n <= v * d,
            d > 0,
    ;
    assert(0 <= (v * n) / d) by (nonlinear_arith)
        requires
            v >= 0,
            n >= 0,
            d > 0,
    ;
}

/// Scales one channel value by `num / den`, keeping the low eight bits.
pub fn scale_channel(value: u8, num: u32, den: u32) -> (r: u8)
    requires
        den > 0,
    ensures
        r == scaled_channel(value, num, den),
{
    let value_wide: u64 = value as u64;
    let num_wide: u64 = num as u64;
    let den_wide: u64 = den as u64;
    assert(value_wide * num_wide <= 255 * 0xffff_ffff) by (nonlinear_arith)
        requires
            value_wide <= 255,
            num_wide <= 0xffff_ffff,
    ;
    let quotient: u64 = value_wide * num_wide / den_wide;
    (quotient % 256) as u8
}

impl RawColor {
    /// Every channel scaled by `num / den`.
    pub open spec fn scaled(self, num: u32, den: u32) -> RawColor {
        RawColor {
            r: scaled_channel(self.r, num, den),
            g: scaled_channel(self.g, num, den),
            b: scaled_channel(self.b, num, den),
            w: scaled_channel(self.w, num, den),
        }
    }

    /// Scales every channel by `num / den`.
    pub fn scale(self, num: u32, den: u32) -> (r: RawColor)
        requires
            den > 0,
        ensures
            r == self.scaled(num, den),
    {
        RawColor {
            r: scale_channel(self.r, num, den),
            g: scale_channel(self.g, num, den),
            b: scale_channel(self.b, num, den),
            w: scale_channel(self.w, num, den),
        }
    }
}

impl Color {
    /// Channel values of the colour at full intensity.
    pub open spec fn raw(self) -> RawColor {
        match self {
            Color::Off => RawColor { r: 0, g: 0, b: 0, w: 0 },
            Color::Red => RawColor { r: 255, g: 0, b: 0, w: 0 },
            Color::Green => RawColor { r: 0, g: 255, b: 0, w: 0 },
            Color::Blue => RawColor { r: 0, g: 0, b: 255, w: 0 },
            Color::Cyan => RawColor { r: 0, g: 128, b: 128, w: 0 },
            Color::Magenta => RawColor { r: 138, g: 0, b: 90, w: 0 },
            Color::Yellow => RawColor { r: 150, g: 90, b: 0, w: 0 },
            Color::White => RawColor { r: 0, g: 0, b: 0, w: 255 },
        }
    }
}

impl From<Color> for RawColor {
    fn from(color: Color) -> (r: RawColor) {
        match color {
            Color::Off => RawColor { r: 0, g: 0, b: 0, w: 0 },
            Color::Red => RawColor { r: 255, g: 0, b: 0, w: 0 },
            Color::Green => RawColor { r: 0, g: 255, b: 0, w: 0 },
            Color::Blue => RawColor { r: 0, g: 0, b: 255, w: 0 },
            Color::Cyan => RawColor { r: 0, g: 128, b: 128, w: 0 },
            Color::Magenta => RawColor { r: 138, g: 0, b: 90, w: 0 },
            Color::Yellow => RawColor { r: 150, g: 90, b: 0, w: 0 },
            Color::White => RawColor { r: 0, g: 0, b: 0, w: 255 },
        }
    }
}

impl FromSpecImpl<Color> for RawColor {
    open spec fn obeys_from_spec() -> bool {
        true
    }

    open spec fn from_spec(color: Color) -> RawColor {
        color.raw()
    }
}

/// Brightness of the LEDs, from 1 (dimmest) to `MAX_INTENSITY`.
#[derive(Debug, Clone, Copy, PartialEq, Eq, Structural)]
pub struct Intensity {
    pub level: u8,
}

impl Intensity {
    /// An intensity is valid when its level lies between 1 and `MAX_INTENSITY`.
    pub open spec fn wf(self) -> bool {
        1 <= self.level <= MAX_INTENSITY
    }

    /// The intensity with the given level, if the level is valid.
    pub open spec fn checked(level: u8) -> Option<Intensity> {
        if 1 <= level <= MAX_INTENSITY {
            Some(Intensity { level })
        } else {
            None
        }
    }

    /// Makes the intensity with the given level, if the level is valid.
    pub fn new(level: u8) -> (r: Option<Intensity>)
        ensures
            r == Intensity::checked(level),
    {
        match bounded_level(level) {
            Some(level) => Some(Intensity { level }),
            None => None,
        }
    }

    /// Whether the level lies between 1 and `MAX_INTENSITY`.
    pub fn is_valid(&self) -> (r: bool)
        ensures
            r == self.wf(),
    {
        1 <= self.level && self.level <= MAX_INTENSITY
    }

    /// Full brightness.
    pub fn max() -> (r: Intensity)
        ensures
            r == (Intensity { level: MAX_INTENSITY }),
    {
        Intensity { level: MAX_INTENSITY }
    }

    /// The level behind the intensity.
    pub fn get(self) -> (r: u8)
        ensures
            r == self.level,
    {
        self.level
    }
}

/// How the LEDs are driven. Periods are in ticks.
#[derive(Debug, Clone, Copy, PartialEq, Eq, Structural)]
pub enum Mode {
    /// One colour, held.
    Constant(Color),
    /// The colour for the first half of each period, dark for the second.
    Blink(Color, u32),
    /// The colour fading in over the first half of each period and out over
    /// the second.
    Glow(Color, u32),
}

impl Mode {
    /// A glow needs a period of at least two ticks, so that its half is not zero.
    pub open spec fn wf(self) -> bool {
        self matches Mode::Glow(_, period) ==> period >= 2
    }

    /// Ticks after which the mode starts over.
    pub open spec fn limit(self) -> u32 {
        match self {
            Mode::Constant(_) => CONSTANT_TICKS,
            Mode::Blink(_, period) => period,
            Mode::Glow(_, period) => period,
        }
    }

    /// The colour to write at `tick`, if one has to be written. `on_reset`
    /// forces a write where the colour would otherwise be left as it is.
    pub open spec fn color_at(self, tick: u32, on_reset: bool) -> Option<RawColor> {
        match self {
            Mode::Constant(color) => {
                if tick == 0 || on_reset {
                    Some(color.raw())
                } else {
                    None
                }
            },
            Mode::Blink(color, period) => {
                if tick == 0 || tick == period / 2 || on_reset {
                    Some(
                        if tick >= period / 2 {
                            Color::Off.raw()
                        } else {
                            color.raw()
                        },
                    )
                } else {
                    None
                }
            },
            Mode::Glow(color, period) => {
                let half = period / 2;
                let level = if tick <= half {
                    tick
                } else {
                    (period - tick) as u32
                };
                Some(color.raw().scaled(level, half))
            },
        }
    }

    /// Whether the mode can be shown.
    pub fn is_valid(&self) -> (r: bool)
        ensures
            r == self.wf(),
    {
        match self {
            Mode::Glow(_, period) => *period >= 2,
            _ => true,
        }
    }

    /// Ticks after which the mode starts over.
    pub fn max_ticks(&self) -> (r: u32)
        ensures
            r == self.limit(),
    {
        match self {
            Mode::Constant(_) => CONSTANT_TICKS,
            Mode::Blink(_, period) => *period,
            Mode::Glow(_, period) => *period,
        }
    }

    /// The colour to write at `tick`, if one has to be written.
    pub fn color_for_tick(&self, tick: u32, on_reset: bool) -> (r: Option<RawColor>)
        requires
            self.wf(),
            self is Glow ==> tick <= self.limit(),
        ensures
            r == self.color_at(tick, on_reset),
    {
        match self {
            Mode::Constant(color) => {
                if tick == 0 || on_reset {
                    Some(RawColor::from(*color))
                } else {
                    None
                }
            },
            Mode::Blink(color, period) => {
                let shown = if tick >= *period / 2 {
                    Color::Off
                } else {
                    *color
                };
                if tick == 0 || tick == *period / 2 || on_reset {
                    Some(RawColor::from(shown))
                } else {
                    None
                }
            },
            Mode::Glow(color, period) => {
                let half: u32 = *period / 2;
                let level: u32 = if tick <= half {
                    tick
                } else {
                    *period - tick
                };
                Some(RawColor::from(*color).scale(level, half))
            },
        }
    }
}

/// What the animation remembers between ticks.
pub struct LedsState {
    /// The colour has to be written again, whatever the tick.
    pub dirty: bool,
    /// The mode the LEDs stay in.
    pub mode: Mode,
    /// A mode shown once, for one period, in place of `mode`.
    pub effect: Option<Mode>,
    /// Ticks since the shown mode started over.
    pub tick: u32,
    /// The brightness every colour is scaled to.
    pub intensity: Intensity,
}

impl LedsState {
    /// Modes and intensity are valid, and the tick can be counted up.
    pub open spec fn wf(self) -> bool {
        &&& self.mode.wf()
        &&& self.effect matches Some(effect) ==> effect.wf()
        &&& self.tick < u32::MAX
        &&& self.intensity.wf()
    }

    /// The mode that is shown: the effect while there is one.
    pub open spec fn shown(self) -> Mode {
        match self.effect {
            Some(effect) => effect,
            None => self.mode,
        }
    }

    /// The state once a mode that has run its ticks is started over: the tick
    /// goes back to zero, and an effect ends.
    pub open spec fn settled(self) -> LedsState {
        if self.tick >= self.shown().limit() {
            LedsState { tick: 0, effect: None, ..self }
        } else {
            self
        }
    }

    /// The state after a refresh.
    pub open spec fn refreshed(self) -> LedsState {
        LedsState { dirty: false, ..self.settled() }
    }

    /// The colour a refresh writes, scaled to the intensity, if it writes one.
    pub open spec fn output(self) -> Option<RawColor> {
        let s = self.settled();
        match s.shown().color_at(s.tick, s.dirty) {
            Some(color) => Some(color.scaled(s.intensity.level as u32, MAX_INTENSITY as u32)),
            None => None,
        }
    }

    /// The state one tick later, before the refresh.
    pub open spec fn advanced(self) -> LedsState {
        LedsState { tick: (self.tick + 1) as u32, ..self }
    }
}

/// The animation of the board's LEDs.
pub struct Leds {
    state: LedsState,
}

impl View for Leds {
    type V = LedsState;

    closed spec fn view(&self) -> LedsState {
        self.state
    }
}

impl Leds {
    /// The LEDs after power-up: constant magenta at full brightness, not yet
    /// written.
    pub fn new() -> (r: Leds)
        ensures
            r@.wf(),
            r@ == (LedsState {
                dirty: true,
                mode: Mode::Constant(Color::Magenta),
                effect: None,
                tick: 0,
                intensity: Intensity { level: MAX_INTENSITY },
            }),
    {
        Leds {
            state: LedsState {
                dirty: true,
                mode: Mode::Constant(Color::Magenta),
                effect: None,
                tick: 0,
                intensity: Intensity::max(),
            },
        }
    }

    /// Milliseconds from one call of `tick` to the next.
    pub fn period(&self) -> (r: u64)
        ensures
            r == TICK_MILLIS,
    {
        TICK_MILLIS
    }

    /// Moves the animation on by one tick and returns the colour to write to
    /// every LED, if the tick changes what they show.
    pub fn tick(&mut self) -> (r: Option<RawColor>)
        requires
            old(self)@.wf(),
        ensures
            final(self)@.wf(),
            final(self)@ == old(self)@.advanced().refreshed(),
            r == old(self)@.advanced().output(),
    {
        self.state.tick = self.state.tick + 1;
        self.refresh()
    }

    /// Changes the mode the LEDs stay in; the colour is written at the next
    /// tick.
    pub fn set_mode(&mut self, mode: Mode)
        requires
            old(self)@.wf(),
            mode.wf(),
        ensures
            final(self)@.wf(),
            final(self)@ == (LedsState { mode, dirty: true, ..old(self)@ }),
    {
        self.state.mode = mode;
        self.state.dirty = true;
    }

    /// Changes the brightness; the colour is written at the next tick.
    pub fn set_intensity(&mut self, intensity: Intensity)
        requires
            old(self)@.wf(),
            intensity.wf(),
        ensures
            final(self)@.wf(),
            final(self)@ == (LedsState { intensity, dirty: true, ..old(self)@ }),
    {
        self.state.intensity = intensity;
        self.state.dirty = true;
    }

    /// Shows `effect` for one period, starting now, in place of the mode.
    pub fn show_effect(&mut self, effect: Mode)
        requires
            old(self)@.wf(),
            effect.wf(),
        ensures
            final(self)@.wf(),
            final(self)@ == (LedsState {
                tick: 0,
                effect: Some(effect),
                dirty: true,
                ..old(self)@
            }),
    {
        self.state.tick = 0;
        self.state.effect = Some(effect);
        self.state.dirty = true;
    }

    /// Starts the shown mode over where it has run its ticks, and returns the
    /// colour to write to every LED, if one has to be written.
    pub fn refresh(&mut self) -> (r: Option<RawColor>)
        requires
            old(self)@.mode.wf(),
            old(self)@.effect matches Some(effect) ==> effect.wf(),
            old(self)@.intensity.wf(),
        ensures
            final(self)@ == old(self)@.refreshed(),
            final(self)@.wf(),
            r == old(self)@.output(),
    {
        let limit = match self.state.effect {
            Some(effect) => effect.max_ticks(),
            None => self.state.mode.max_ticks(),
        };
        if self.state.tick >= limit {
            self.state.tick = 0;
            self.state.effect = None;
        }
        let mode = match self.state.effect {
            Some(effect) => effect,
            None => self.state.mode,
        };
        let color = mode.color_for_tick(self.state.tick, self.state.dirty);
        self.state.dirty = false;
        match color {
            Some(color) => Some(self.board_color(color)),
            None => None,
        }
    }

    /// `color` at the brightness the LEDs are set to.
    pub fn board_color(&self, color: RawColor) -> (r: RawColor)
        requires
            self@.intensity.wf(),
        ensures
            r == color.scaled(self@.intensity.level as u32, MAX_INTENSITY as u32),
    {
        color.scale(self.state.intensity.get() as u32, MAX_INTENSITY as u32)
    }
}

/// A dirty state is written at the next tick whatever the mode, and a second
/// tick right after finds it clean.
pub proof fn dirty_state_is_written(s: LedsState)
    requires
        s.wf(),
        s.dirty,
    ensures
        s.advanced().output().is_some(),
        !s.advanced().refreshed().dirty,
{
}

} // verus!
