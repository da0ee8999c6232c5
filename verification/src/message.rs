//! The messages that travel over the bus, as decoded values.

use vstd::prelude::*;
use crate::adc::Button;
use crate::address::Address;

verus! {

/// A message heard on the bus.
#[derive(Debug, Clone, Copy, PartialEq, Eq, Structural)]
pub struct IncomingMessage {
    pub sender: Address,
    pub button: Option<u8>,
    pub color: Option<char>,
    pub effect: Option<char>,
    pub intensity: Option<u8>,
}

/// A message this node puts on the bus.
#[derive(Debug, Clone, Copy, PartialEq, Eq, Structural)]
pub struct OutgoingMessage {
    pub sender: Address,
    pub button: Option<u8>,
    pub temperature: i16,
    pub voltage: u16,
}

impl OutgoingMessage {
    /// The report a node has to send: one whenever a button was pressed or a
    /// ping is due, carrying the latest supply voltage and temperature.
    pub open spec fn due(
        button: Option<Button>,
        ping: bool,
        voltage: u16,
        temperature: i16,
    ) -> Option<OutgoingMessage> {
        if button.is_some() || ping {
            Some(
                OutgoingMessage {
                    sender: Address { value: crate::DEVICE_ADDRESS },
                    button: match button {
                        Some(pressed) => Some(pressed.number()),
                        None => None,
                    },
                    temperature,
                    voltage,
                },
            )
        } else {
            None
        }
    }

    /// Builds the report this node sends when its turn comes, if it has
    /// anything to say.
    pub fn report(button: Option<Button>, ping: bool, voltage: u16, temperature: i16) -> (r:
        Option<OutgoingMessage>)
        ensures
            r == OutgoingMessage::due(button, ping, voltage, temperature),
    {
        if button.is_some() || ping {
            let code = match button {
                Some(pressed) => Some(pressed.code()),
                None => None,
            };
            Some(
                OutgoingMessage {
                    sender: Address::device(),
                    button: code,
                    temperature,
                    voltage,
                },
            )
        } else {
            None
        }
    }
}

} // verus!
