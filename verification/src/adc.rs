//! Button decoding from the resistor ladder on the analog input.
//!
//! Each button pulls the input to a voltage of its own. A sample counts only
//! once it has settled, that is when it lies close to the sample before it.

use vstd::prelude::*;

verus! {

/// Largest difference between two successive samples of a settled input.
pub const TOLERANCE: u32 = 5;

/// Distance from a button's nominal sample within which the button is taken
/// as pressed.
pub const BUTTON_WINDOW: u32 = 100;

/// Smallest sample of an input that no button pulls down.
pub const RELEASED_MIN: u32 = 3963;

/// Largest sample the converter gives.
pub const SAMPLE_MAX: u32 = 4095;

/// The buttons on the ladder.
#[derive(Debug, Clone, Copy, PartialEq, Eq, Structural)]
pub enum Button {
    Button0,
    Button1,
    Button2,
    Button3,
    Button4,
    Button5,
}

/// A settled sample that matches neither a button nor the released input.
#[derive(Debug, Clone, Copy, PartialEq, Eq, Structural)]
pub struct BadButton;

impl Button {
    /// The number under which the button is reported on the bus.
    pub open spec fn number(self) -> u8 {
        match self {
            Button::Button0 => 0,
            Button::Button1 => 1,
            Button::Button2 => 2,
            Button::Button3 => 3,
            Button::Button4 => 4,
            Button::Button5 => 5,
        }
    }

    /// The sample the input gives, nominally, while the button is pressed.
    pub open spec fn nominal(self) -> u32 {
        match self {
            Button::Button0 => 1428,
            Button::Button1 => 1706,
            Button::Button2 => 1973,
            Button::Button3 => 2280,
            Button::Button4 => 2550,
            Button::Button5 => 2830,
        }
    }

    /// Whether `sample` lies in the button's window.
    pub open spec fn matches_sample(self, sample: u32) -> bool {
        self.nominal() - BUTTON_WINDOW <= sample <= self.nominal() + BUTTON_WINDOW
    }

    /// The number under which the button is reported on the bus.
    pub fn code(self) -> (r: u8)
        ensures
            r == self.number(),
    {
        match self {
            Button::Button0 => 0,
            Button::Button1 => 1,
            Button::Button2 => 2,
            Button::Button3 => 3,
            Button::Button4 => 4,
            Button::Button5 => 5,
        }
    }
}

/// What a settled sample means: the button in whose window it lies, no button
/// where the input is released, and an error anywhere else.
pub open spec fn classify(sample: u32) -> Result<Option<Button>, BadButton> {
    if Button::Button0.matches_sample(sample) {
        Ok(Some(Button::Button0))
    } else if Button::Button1.matches_sample(sample) {
        Ok(Some(Button::Button1))
    } else if Button::Button2.matches_sample(sample) {
        Ok(Some(Button::Button2))
    } else if Button::Button3.matches_sample(sample) {
        Ok(Some(Button::Button3))
    } else if Button::Button4.matches_sample(sample) {
        Ok(Some(Button::Button4))
    } else if Button::Button5.matches_sample(sample) {
        Ok(Some(Button::Button5))
    } else if RELEASED_MIN <= sample <= SAMPLE_MAX {
        Ok(None)
    } else {
        Err(BadButton)
    }
}

/// Distance between two samples.
pub open spec fn distance(a: u32, b: u32) -> int {
    if a >= b {
        a - b
    } else {
        b - a
    }
}

/// The button windows do not overlap, so a sample names at most one button.
pub proof fn windows_are_disjoint(a: Button, b: Button, sample: u32)
    requires
        a.matches_sample(sample),
        b.matches_sample(sample),
    ensures
        a == b,
        classify(sample) == Ok::<Option<Button>, BadButton>(Some(a)),
{
}

/// Decoder of the button input. It remembers the last sample it was given.
pub struct AdcReader {
    last_reading: u32,
}

impl View for AdcReader {
    type V = u32;

    closed spec fn view(&self) -> u32 {
        self.last_reading
    }
}

impl AdcReader {
    /// A decoder that has seen no sample yet; its last sample counts as 0.
    pub fn new() -> (r: AdcReader)
        ensures
            r@ == 0,
    {
        AdcReader { last_reading: 0 }
    }

    /// Takes the next sample of the button input and says which button is
    /// pressed. A sample that differs from the one before by more than
    /// `TOLERANCE` has not settled and reports no button.
    pub fn read_button(&mut self, sample: u32) -> (r: Result<Option<Button>, BadButton>)
        ensures
            final(self)@ == sample,
            r == (if distance(sample, old(self)@) > TOLERANCE {
                Ok(None)
            } else {
                classify(sample)
            }),
    {
        let last = self.last_reading;
        self.last_reading = sample;
        let apart = if sample >= last {
            sample - last
        } else {
            last - sample
        };
        if apart > TOLERANCE {
            return Ok(None);
        }
        if 1328 <= sample && sample <= 1528 {
            Ok(Some(Button::Button0))
        } else if 1606 <= sample && sample <= 1806 {
            Ok(Some(Button::Button1))
        } else if 1873 <= sample && sample <= 2073 {
            Ok(Some(Button::Button2))
        } else if 2180 <= sample && sample <= 2380 {
            Ok(Some(Button::Button3))
        } else if 2450 <= sample && sample <= 2650 {
            Ok(Some(Button::Button4))
        } else if 2730 <= sample && sample <= 2930 {
            Ok(Some(Button::Button5))
        } else if RELEASED_MIN <= sample && sample <= SAMPLE_MAX {
            Ok(None)
        } else {
            Err(BadButton)
        }
    }
}

/// One turn of the button task: takes a sample and records the button it
/// shows. A button once recorded stays until it is taken away, so a sample
/// that shows none, or cannot be read, changes nothing.
pub fn adc_work(reader: &mut AdcReader, sample: u32, button: &mut Option<Button>)
    ensures
        final(reader)@ == sample,
        *final(button) == (if distance(sample, old(reader)@) > TOLERANCE {
            *old(button)
        } else {
            match classify(sample) {
                Ok(Some(pressed)) => Some(pressed),
                _ => *old(button),
            }
        }),
{
    if let Ok(Some(pressed)) = reader.read_button(sample) {
        *button = Some(pressed);
    }
}

} // verus!
