//! LED commands: what a message from the bus asks the LEDs to do.

use vstd::prelude::*;
use crate::led::{Color, Intensity, Leds, LedsState, Mode, RawColor};
use crate::message::IncomingMessage;
use crate::units::{ticks_from_millis, ticks_from_secs};

verus! {

/// Period of a glow asked for by letter, in milliseconds.
pub const SLOW_GLOW_MILLIS: u32 = 300;

/// Period of a glow asked for by letter, in ticks.
pub const SLOW_GLOW_TICKS: u32 = 30;

/// Period of the red blink that signals a lost connection, in ticks.
pub const NO_CONNECTION_BLINK_TICKS: u32 = 100;

/// Changes to make to the LEDs. A part that is `None` is left as it is.
#[derive(Debug, Clone, Copy, PartialEq, Eq, Structural)]
pub struct Command {
    pub mode: Option<Mode>,
    pub effect: Option<Mode>,
    pub intensity: Option<Intensity>,
}

/// The colour a capital letter stands for.
pub open spec fn constant_letter(letter: char) -> Option<Color> {
    if letter == 'R' {
        Some(Color::Red)
    } else if letter == 'G' {
        Some(Color::Green)
    } else if letter == 'B' {
        Some(Color::Blue)
    } else if letter == 'W' {
        Some(Color::White)
    } else if letter == 'Y' {
        Some(Color::Yellow)
    } else if letter == 'M' {
        Some(Color::Magenta)
    } else if letter == 'C' {
        Some(Color::Cyan)
    } else {
        None
    }
}

/// The colour a small letter stands for.
pub open spec fn glow_letter(letter: char) -> Option<Color> {
    if letter == 'r' {
        Some(Color::Red)
    } else if letter == 'g' {
        Some(Color::Green)
    } else if letter == 'b' {
        Some(Color::Blue)
    } else if letter == 'w' {
        Some(Color::White)
    } else if letter == 'y' {
        Some(Color::Yellow)
    } else if letter == 'm' {
        Some(Color::Magenta)
    } else if letter == 'c' {
        Some(Color::Cyan)
    } else {
        None
    }
}

/// The mode a letter stands for: a capital letter asks for a constant colour,
/// a small letter for a slow glow in that colour.
pub open spec fn letter_mode(letter: char) -> Option<Mode> {
    if let Some(color) = constant_letter(letter) {
        Some(Mode::Constant(color))
    } else if let Some(color) = glow_letter(letter) {
        Some(Mode::Glow(color, SLOW_GLOW_TICKS))
    } else {
        None
    }
}

/// The mode an optional letter stands for.
pub open spec fn optional_letter_mode(letter: Option<char>) -> Option<Mode> {
    match letter {
        Some(letter) => letter_mode(letter),
        None => None,
    }
}

/// The intensity an optional level stands for.
pub open spec fn optional_intensity(level: Option<u8>) -> Option<Intensity> {
    match level {
        Some(level) => Intensity::checked(level),
        None => None,
    }
}

/// Period of a glow asked for by letter, in ticks.
pub fn slow_glow() -> (r: u32)
    ensures
        r == SLOW_GLOW_TICKS,
{
    ticks_from_millis(SLOW_GLOW_MILLIS)
}

impl Mode {
    /// Reads a mode from its letter on the bus.
    pub fn from_letter(letter: char) -> (r: Option<Mode>)
        ensures
            r == letter_mode(letter),
            r matches Some(mode) ==> mode.wf(),
    {
        match letter {
            'R' => Some(Mode::Constant(Color::Red)),
            'G' => Some(Mode::Constant(Color::Green)),
            'B' => Some(Mode::Constant(Color::Blue)),
            'W' => Some(Mode::Constant(Color::White)),
            'Y' => Some(Mode::Constant(Color::Yellow)),
            'M' => Some(Mode::Constant(Color::Magenta)),
            'C' => Some(Mode::Constant(Color::Cyan)),
            'r' => Some(Mode::Glow(Color::Red, slow_glow())),
            'g' => Some(Mode::Glow(Color::Green, slow_glow())),
            'b' => Some(Mode::Glow(Color::Blue, slow_glow())),
            'w' => Some(Mode::Glow(Color::White, slow_glow())),
            'y' => Some(Mode::Glow(Color::Yellow, slow_glow())),
            'm' => Some(Mode::Glow(Color::Magenta, slow_glow())),
            'c' => Some(Mode::Glow(Color::Cyan, slow_glow())),
            _ => None,
        }
    }
}

impl LedsState {
    /// The state after a command: each part the command names is taken over,
    /// an effect starts at tick zero, and any change marks the state dirty.
    pub open spec fn commanded(self, command: Command) -> LedsState {
        LedsState {
            dirty: self.dirty || command.mode.is_some() || command.effect.is_some()
                || command.intensity.is_some(),
            mode: match command.mode {
                Some(mode) => mode,
                None => self.mode,
            },
            effect: match command.effect {
                Some(effect) => Some(effect),
                None => self.effect,
            },
            tick: if command.effect.is_some() {
                0
            } else {
                self.tick
            },
            intensity: match command.intensity {
                Some(intensity) => intensity,
                None => self.intensity,
            },
        }
    }
}

impl Command {
    /// Every part the command names is valid.
    pub open spec fn wf(self) -> bool {
        &&& self.mode matches Some(mode) ==> mode.wf()
        &&& self.effect matches Some(effect) ==> effect.wf()
        &&& self.intensity matches Some(intensity) ==> intensity.wf()
    }

    /// What a message asks of the LEDs: a command as soon as the message
    /// carries a colour, an effect or an intensity, even one it cannot read;
    /// a part that cannot be read is left out of the command.
    pub open spec fn decoded(message: IncomingMessage) -> Option<Command> {
        if message.color.is_some() || message.effect.is_some() || message.intensity.is_some() {
            Some(
                Command {
                    mode: optional_letter_mode(message.color),
                    effect: optional_letter_mode(message.effect),
                    intensity: optional_intensity(message.intensity),
                },
            )
        } else {
            None
        }
    }

    /// The command raised when the node finds no one else on the bus: blink
    /// red, after one blue glow.
    pub open spec fn fallback() -> Command {
        Command {
            mode: Some(Mode::Blink(Color::Red, NO_CONNECTION_BLINK_TICKS)),
            effect: Some(Mode::Glow(Color::Blue, SLOW_GLOW_TICKS)),
            intensity: None,
        }
    }

    /// Makes the changes to the LEDs that the command names.
    pub fn apply(&self, leds: &mut Leds)
        requires
            self.wf(),
            old(leds)@.wf(),
        ensures
            final(leds)@.wf(),
            final(leds)@ == old(leds)@.commanded(*self),
    {
        if let Some(mode) = self.mode {
            leds.set_mode(mode);
        }
        if let Some(effect) = self.effect {
            leds.show_effect(effect);
        }
        if let Some(intensity) = self.intensity {
            leds.set_intensity(intensity);
        }
    }

    /// Reads the LED command out of a message from the bus.
    pub fn from_rs485(message: IncomingMessage) -> (r: Option<Command>)
        ensures
            r == Command::decoded(message),
            r matches Some(command) ==> command.wf(),
    {
        if message.color.is_some() || message.effect.is_some() || message.intensity.is_some() {
            let mode = match message.color {
                Some(letter) => Mode::from_letter(letter),
                None => None,
            };
            let effect = match message.effect {
                Some(letter) => Mode::from_letter(letter),
                None => None,
            };
            let intensity = match message.intensity {
                Some(level) => Intensity::new(level),
                None => None,
            };
            Some(Command { mode, effect, intensity })
        } else {
            None
        }
    }

    /// The command raised when the node finds no one else on the bus.
    pub fn no_connection() -> (r: Command)
        ensures
            r == Command::fallback(),
            r.wf(),
    {
        Command {
            mode: Some(Mode::Blink(Color::Red, ticks_from_secs(1))),
            effect: Some(Mode::Glow(Color::Blue, slow_glow())),
            intensity: None,
        }
    }
}

/// One turn of the LED task: a waiting command is applied, and takes the
/// place of the tick; without one the animation moves on by a tick. Returns
/// the colour to write to every LED, if there is one to write.
pub fn led_work(leds: &mut Leds, command: Option<Command>) -> (written: Option<RawColor>)
    requires
        old(leds)@.wf(),
        command matches Some(waiting) ==> waiting.wf(),
    ensures
        final(leds)@.wf(),
        command matches Some(waiting) ==> final(leds)@ == old(leds)@.commanded(waiting)
            && written.is_none(),
        command.is_none() ==> final(leds)@ == old(leds)@.advanced().refreshed() && written == old(
            leds,
        )@.advanced().output(),
{
    match command {
        Some(waiting) => {
            waiting.apply(leds);
            None
        },
        None => leds.tick(),
    }
}

} // verus!
