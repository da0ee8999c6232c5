//! The bus arbiter: who may talk on the shared RS485 line, and when.
//!
//! There is no bus master. Every node keeps a token that names the address
//! whose turn it is, moves it on by one address whenever a slot passes in
//! silence, and sets it to the sender of every message it hears. A node talks
//! only while the token names its own address and the line is idle.
//!
//! The arbiter never touches a peripheral. The interrupt handler that owns
//! the receiver, the slot timer and the transmit channel calls `interrupt`
//! when it is entered, carries out the `Effects` of every `Step` it gets back
//! and answers what the step asks for next, until a step says `Done`. The
//! transmit buffer is handed to the arbiter when a transmission is prepared
//! and when it is started; in between the producer fills it.

use vstd::prelude::*;
use crate::address::Address;
use crate::buffer::{buffer_bytes, buffer_clear, buffer_len};
use crate::command::Command;
use crate::message::IncomingMessage;

verus! {

/// Bits on the line for one byte: start bit, eight data bits, stop bit.
pub const BITS_PER_BYTE: u32 = 10;

/// Bytes one node may send in its slot.
pub const SLOTSIZE: u32 = 32;

/// Length of one slot in microseconds, the period of the slot timer.
pub open spec fn slot_period() -> int {
    1_000_000 * BITS_PER_BYTE * SLOTSIZE / (crate::RS485_BAUD as int)
}

/// Length of one slot in microseconds, the period of the slot timer.
pub fn slot_micros() -> (r: u32)
    ensures
        r == slot_period(),
        r == 2777,
{
    1_000_000 * BITS_PER_BYTE * SLOTSIZE / crate::RS485_BAUD
}

/// Whose turn the node believes it is.
#[derive(Debug, Clone, Copy, PartialEq, Eq, Structural)]
pub enum Token {
    /// Nothing heard yet, for this many slots.
    Unknown(u32),
    /// The turn of the device with this address.
    Addr(Address),
    /// This node is sending.
    Sending,
}

/// What the arbiter believes about the bus.
#[derive(Debug, Clone, Copy, PartialEq, Eq, Structural)]
pub struct BusState {
    /// A byte was seen since the line was last found idle.
    pub bus_busy: bool,
    /// Whose turn it is.
    pub token: Token,
    /// Slots the token has moved through an address since a message was last
    /// heard.
    pub alone_cycles: u32,
}

impl BusState {
    /// The counts are within their limits and the token names a valid
    /// address.
    pub open spec fn wf(self) -> bool {
        &&& self.alone_cycles <= crate::MAX_ALONE_CYCLES + 1
        &&& self.token matches Token::Addr(address) ==> address.wf()
        &&& self.token matches Token::Unknown(cycles) ==> cycles <= crate::MAX_DETECT_CYCLES
    }

    /// The state of a node that has just started.
    pub open spec fn boot() -> BusState {
        BusState { bus_busy: true, token: Token::Unknown(0), alone_cycles: 0 }
    }

    /// The node may send: the line is idle and the token names its address.
    pub open spec fn is_my_turn(self) -> bool {
        !self.bus_busy && self.token == Token::Addr(Address { value: crate::DEVICE_ADDRESS })
    }

    /// The state after a byte arrived.
    pub open spec fn byte_seen(self) -> BusState {
        BusState { bus_busy: true, ..self }
    }

    /// The state after a whole message from `sender` arrived: the token names
    /// the sender, unless this node is sending itself.
    pub open spec fn heard(self, sender: Address) -> BusState {
        if self.token == Token::Sending {
            self
        } else {
            BusState { token: Token::Addr(sender), alone_cycles: 0, ..self }
        }
    }

    /// The state after the line was found idle.
    pub open spec fn quiet(self) -> BusState {
        BusState { bus_busy: false, ..self }
    }

    /// The state after a receive error: everything learnt is forgotten.
    pub open spec fn collided() -> BusState {
        BusState { bus_busy: false, token: Token::Unknown(0), alone_cycles: 0 }
    }

    /// The state after this node started to send.
    pub open spec fn sending(self) -> BusState {
        BusState { token: Token::Sending, ..self }
    }

    /// The count of lonely slots after one more, held at one past the limit.
    pub open spec fn lonelier(self) -> u32 {
        if self.alone_cycles < crate::MAX_ALONE_CYCLES + 1 {
            (self.alone_cycles + 1) as u32
        } else {
            self.alone_cycles
        }
    }

    /// The state after a slot passed in silence.
    pub open spec fn ticked(self) -> BusState {
        match self.token {
            Token::Unknown(cycles) => {
                if cycles < crate::MAX_DETECT_CYCLES {
                    BusState { token: Token::Unknown((cycles + 1) as u32), ..self }
                } else {
                    BusState { token: Token::Addr(Address { value: 0 }), ..self }
                }
            },
            Token::Sending => BusState {
                token: Token::Addr((Address { value: crate::DEVICE_ADDRESS }).successor()),
                ..self
            },
            Token::Addr(address) => BusState {
                token: Token::Addr(address.successor()),
                alone_cycles: self.lonelier(),
                ..self
            },
        }
    }

    /// Whether the slot that passes in silence raises the "no connection"
    /// command: it does when the node gives up waiting for a first message,
    /// and when the count of lonely slots reaches its limit.
    pub open spec fn tick_alarms(self) -> bool {
        match self.token {
            Token::Unknown(cycles) => cycles >= crate::MAX_DETECT_CYCLES,
            Token::Sending => false,
            Token::Addr(_) => self.lonelier() == crate::MAX_ALONE_CYCLES,
        }
    }

    /// The command a silent slot raises, if it raises one.
    pub open spec fn tick_command(self) -> Option<Command> {
        if self.tick_alarms() {
            Some(Command::fallback())
        } else {
            None
        }
    }
}

/// What one poll of the receiver gave.
#[derive(Debug, Clone, Copy, PartialEq, Eq, Structural)]
pub enum RxEvent {
    /// A byte, and the message it completed, if it completed one.
    Byte(Option<IncomingMessage>),
    /// Nothing to read.
    Empty,
    /// A framing, parity or overrun error.
    Fault,
}

impl RxEvent {
    /// The sender of a message is a valid address.
    pub open spec fn wf(self) -> bool {
        self matches RxEvent::Byte(Some(message)) ==> message.sender.wf()
    }
}

/// How the slot timer is to be left.
#[derive(Debug, Clone, Copy, PartialEq, Eq, Structural)]
pub enum TimerMode {
    /// The line is in use: pause, reset, clear the pending expiry.
    Active,
    /// The line is silent: reset, resume, clear the pending expiry.
    Inactive,
}

/// One operation on the slot timer.
#[derive(Debug, Clone, Copy, PartialEq, Eq, Structural)]
pub enum TimerOp {
    /// Stop counting.
    Pause,
    /// Set the count back to zero.
    Reset,
    /// Count on.
    Resume,
    /// Drop an expiry that was not yet handled.
    ClearIrq,
}

/// The slot timer as the arbiter sees it.
pub struct SlotTimer {
    /// The timer counts.
    pub running: bool,
    /// Microseconds counted since the last reset.
    pub elapsed: nat,
    /// An expiry waits to be handled.
    pub expired: bool,
}

impl SlotTimer {
    /// The timer after one operation.
    pub open spec fn after(self, op: TimerOp) -> SlotTimer {
        match op {
            TimerOp::Pause => SlotTimer { running: false, ..self },
            TimerOp::Reset => SlotTimer { elapsed: 0, ..self },
            TimerOp::Resume => SlotTimer { running: true, ..self },
            TimerOp::ClearIrq => SlotTimer { expired: false, ..self },
        }
    }

    /// The timer after a sequence of operations.
    pub open spec fn after_all(self, ops: Seq<TimerOp>) -> SlotTimer
        decreases ops.len(),
    {
        if ops.len() == 0 {
            self
        } else {
            self.after_all(ops.drop_last()).after(ops.last())
        }
    }
}

impl TimerMode {
    /// The operations that leave the timer in this mode, in their order.
    pub open spec fn ops(self) -> Seq<TimerOp> {
        match self {
            TimerMode::Active => seq![TimerOp::Pause, TimerOp::Reset, TimerOp::ClearIrq],
            TimerMode::Inactive => seq![TimerOp::Reset, TimerOp::Resume, TimerOp::ClearIrq],
        }
    }

    /// The operations that leave the timer in this mode, in their order.
    pub fn operations(self) -> (r: [TimerOp; 3])
        ensures
            r@ == self.ops(),
    {
        let r = match self {
            TimerMode::Active => [TimerOp::Pause, TimerOp::Reset, TimerOp::ClearIrq],
            TimerMode::Inactive => [TimerOp::Reset, TimerOp::Resume, TimerOp::ClearIrq],
        };
        assert(r@ =~= self.ops());
        r
    }

    /// Whatever the timer was doing, an active line leaves it stopped at
    /// zero and a silent line leaves it counting from zero, in both cases
    /// with no expiry waiting.
    pub proof fn mode_settles_the_timer(self, timer: SlotTimer)
        ensures
            timer.after_all(self.ops()) == (SlotTimer {
                running: self == TimerMode::Inactive,
                elapsed: 0,
                expired: false,
            }),
    {
        let ops = self.ops();
        let two = ops.drop_last();
        let one = two.drop_last();
        assert(one.drop_last().len() == 0);
        assert(one.last() == ops[0]);
        assert(two.last() == ops[1]);
        assert(ops.last() == ops[2]);
        assert(timer.after_all(one.drop_last()) == timer);
        assert(timer.after_all(one) == timer.after(ops[0]));
        assert(timer.after_all(two) == timer.after(ops[0]).after(ops[1]));
    }
}

/// What the handler has to do to the peripherals, in the order of the fields.
#[derive(Debug, Clone, Copy, PartialEq, Eq, Structural)]
pub struct Effects {
    /// Acknowledge the expiry of the slot timer.
    pub clear_timer_irq: bool,
    /// Stop the transmit channel, and with it any transfer under way.
    pub disable_dma: bool,
    /// Read the receiver once more and throw the result away.
    pub discard_rx: bool,
    /// Make the parser forget the bytes it holds.
    pub reset_parser: bool,
    /// Leave the slot timer in this mode, by the operations of the mode.
    pub timer: Option<TimerMode>,
    /// Acknowledge the idle line.
    pub clear_idle: bool,
    /// Point the transmit channel at the transmit buffer, give it this many
    /// bytes to send, and start it.
    pub start_dma: Option<u16>,
}

impl Effects {
    /// Nothing to do.
    pub open spec fn nothing() -> Effects {
        Effects {
            clear_timer_irq: false,
            disable_dma: false,
            discard_rx: false,
            reset_parser: false,
            timer: None,
            clear_idle: false,
            start_dma: None,
        }
    }

    /// Nothing to do.
    pub fn none() -> (r: Effects)
        ensures
            r == Effects::nothing(),
    {
        Effects {
            clear_timer_irq: false,
            disable_dma: false,
            discard_rx: false,
            reset_parser: false,
            timer: None,
            clear_idle: false,
            start_dma: None,
        }
    }
}

/// What the handler has to hand to the arbiter next.
#[derive(Debug, Clone, Copy, PartialEq, Eq, Structural)]
pub enum Next {
    /// Poll the receiver and call `read`.
    Poll,
    /// Ask the receiver whether the line is idle and call `idle`.
    ProbeIdle,
    /// Hand the transmit buffer to `produce`.
    Produce,
    /// Let the producer fill the transmit buffer and call `transmit`.
    Fill,
    /// Return from the handler, with this command for the LEDs.
    Done(Option<Command>),
}

/// The arbiter's answer to one call.
#[derive(Debug, Clone, Copy, PartialEq, Eq, Structural)]
pub struct Step {
    /// What to do to the peripherals now.
    pub effects: Effects,
    /// What to hand to the arbiter after that.
    pub next: Next,
}

/// The arbiter as a value: its beliefs about the bus, and what it keeps in
/// mind during one run of the handler.
#[derive(Debug, Clone, Copy, PartialEq, Eq, Structural)]
pub struct Arbiter {
    /// What the arbiter believes about the bus.
    pub bus: BusState,
    /// The expiry of the slot timer that the handler reported still stands:
    /// no byte has arrived and the line was not found idle since.
    pub timer_due: bool,
    /// The command found during this run, held back until the run ends.
    pub pending: Option<Command>,
}

impl Arbiter {
    /// The bus state is valid, and so is a command held back.
    pub open spec fn wf(self) -> bool {
        &&& self.bus.wf()
        &&& self.pending matches Some(command) ==> command.wf()
    }

    /// The end of the receiving part of a run: where it is the node's turn, a
    /// transmission is prepared next; elsewhere the run is over.
    pub open spec fn concluded(self, effects: Effects, command: Option<Command>) -> (
        Arbiter,
        Step,
    ) {
        if self.bus.is_my_turn() {
            (
                Arbiter { timer_due: false, pending: command, ..self },
                Step { effects, next: Next::Produce },
            )
        } else {
            (
                Arbiter { timer_due: false, pending: None, ..self },
                Step { effects, next: Next::Done(command) },
            )
        }
    }

    /// Entry of the handler, with the timer's expiry flag.
    pub open spec fn entered(self, timer: bool) -> (Arbiter, Step) {
        (
            Arbiter { timer_due: timer, pending: None, ..self },
            Step {
                effects: Effects { clear_timer_irq: timer, ..Effects::nothing() },
                next: Next::Poll,
            },
        )
    }

    /// One poll of the receiver.
    pub open spec fn received(self, event: RxEvent) -> (Arbiter, Step) {
        match event {
            RxEvent::Byte(None) => (
                Arbiter { bus: self.bus.byte_seen(), timer_due: false, ..self },
                Step {
                    effects: Effects { timer: Some(TimerMode::Active), ..Effects::nothing() },
                    next: Next::Poll,
                },
            ),
            RxEvent::Byte(Some(message)) => {
                let heard = Arbiter {
                    bus: self.bus.byte_seen().heard(message.sender),
                    timer_due: false,
                    ..self
                };
                let effects = Effects {
                    reset_parser: true,
                    timer: Some(TimerMode::Active),
                    ..Effects::nothing()
                };
                match Command::decoded(message) {
                    Some(command) => heard.concluded(effects, Some(command)),
                    None => (heard, Step { effects, next: Next::Poll }),
                }
            },
            RxEvent::Empty => (self, Step { effects: Effects::nothing(), next: Next::ProbeIdle }),
            RxEvent::Fault => (
                Arbiter { bus: BusState::collided(), timer_due: false, pending: None },
                Step {
                    effects: Effects {
                        disable_dma: true,
                        discard_rx: true,
                        reset_parser: true,
                        timer: Some(TimerMode::Inactive),
                        ..Effects::nothing()
                    },
                    next: Next::Done(None),
                },
            ),
        }
    }

    /// The answer of the idle-line probe. An idle line is recorded and makes
    /// the timer's expiry stale; an expiry that still stands moves the token.
    pub open spec fn probed(self, line_idle: bool) -> (Arbiter, Step) {
        if line_idle {
            (Arbiter { bus: self.bus.quiet(), ..self }).concluded(
                Effects {
                    reset_parser: true,
                    timer: Some(TimerMode::Inactive),
                    clear_idle: true,
                    ..Effects::nothing()
                },
                None,
            )
        } else if self.timer_due {
            (Arbiter { bus: self.bus.ticked(), ..self }).concluded(
                Effects::nothing(),
                self.bus.tick_command(),
            )
        } else {
            self.concluded(Effects::nothing(), None)
        }
    }

    /// The preparation of a transmission: where it is the node's turn, the
    /// transmit channel is stopped and the producer asked; elsewhere the run
    /// is over.
    pub open spec fn offered(self) -> (Arbiter, Step) {
        if self.bus.is_my_turn() {
            (
                self,
                Step {
                    effects: Effects { disable_dma: true, ..Effects::nothing() },
                    next: Next::Fill,
                },
            )
        } else {
            (
                Arbiter { timer_due: false, pending: None, ..self },
                Step { effects: Effects::nothing(), next: Next::Done(self.pending) },
            )
        }
    }

    /// The answer of the producer: whether it wrote, and how many bytes the
    /// transmit buffer holds. Nothing is sent unless it is the node's turn.
    pub open spec fn produced(self, written: bool, len: nat) -> (Arbiter, Step) {
        if self.bus.is_my_turn() && written {
            (
                Arbiter { bus: self.bus.sending(), timer_due: false, pending: None },
                Step {
                    effects: Effects { start_dma: Some(len as u16), ..Effects::nothing() },
                    next: Next::Done(self.pending),
                },
            )
        } else {
            (
                Arbiter { timer_due: false, pending: None, ..self },
                Step { effects: Effects::nothing(), next: Next::Done(self.pending) },
            )
        }
    }
}

/// The bus arbiter of one node.
pub struct Rs485 {
    state: Arbiter,
}

impl View for Rs485 {
    type V = Arbiter;

    closed spec fn view(&self) -> Arbiter {
        self.state
    }
}

impl Rs485 {
    /// The arbiter of a node that has just started: the line counts as busy
    /// and nothing is known about the token.
    pub fn new() -> (r: Rs485)
        ensures
            r@ == (Arbiter { bus: BusState::boot(), timer_due: false, pending: None }),
            r@.wf(),
    {
        Rs485 {
            state: Arbiter {
                bus: BusState { bus_busy: true, token: Token::Unknown(0), alone_cycles: 0 },
                timer_due: false,
                pending: None,
            },
        }
    }

    /// Whose turn the arbiter believes it is.
    pub fn token(&self) -> (r: Token)
        ensures
            r == self@.bus.token,
    {
        self.state.bus.token
    }

    /// Whether a byte was seen since the line was last found idle.
    pub fn bus_busy(&self) -> (r: bool)
        ensures
            r == self@.bus.bus_busy,
    {
        self.state.bus.bus_busy
    }

    /// Slots the token has moved through an address since a message was last
    /// heard.
    pub fn alone_cycles(&self) -> (r: u32)
        ensures
            r == self@.bus.alone_cycles,
    {
        self.state.bus.alone_cycles
    }

    /// Whether the node may send now.
    pub fn is_my_turn(&self) -> (r: bool)
        ensures
            r == self@.bus.is_my_turn(),
            r <==> !self@.bus.bus_busy && self@.bus.token == Token::Addr(
                Address { value: crate::DEVICE_ADDRESS },
            ),
    {
        !self.state.bus.bus_busy && self.state.bus.token == Token::Addr(Address::device())
    }

    /// Entry of the interrupt handler. `timer` says whether the slot timer has
    /// expired. The handler carries out the step and goes on as it says.
    pub fn interrupt(&mut self, timer: bool) -> (step: Step)
        requires
            old(self)@.wf(),
        ensures
            final(self)@.wf(),
            (final(self)@, step) == old(self)@.entered(timer),
    {
        self.state.timer_due = timer;
        self.state.pending = None;
        let mut effects = Effects::none();
        effects.clear_timer_irq = timer;
        Step { effects, next: Next::Poll }
    }

    /// Takes what one poll of the receiver gave.
    pub fn read(&mut self, event: RxEvent) -> (step: Step)
        requires
            old(self)@.wf(),
            event.wf(),
        ensures
            final(self)@.wf(),
            (final(self)@, step) == old(self)@.received(event),
    {
        let mut effects = Effects::none();
        match event {
            RxEvent::Byte(parsed) => {
                self.state.bus.bus_busy = true;
                self.state.timer_due = false;
                effects.timer = Some(TimerMode::Active);
                if let Some(message) = parsed {
                    effects.reset_parser = true;
                    if self.state.bus.token != Token::Sending {
                        self.state.bus.alone_cycles = 0;
                        self.state.bus.token = Token::Addr(message.sender);
                    }
                    if let Some(command) = Command::from_rs485(message) {
                        return self.conclude(effects, Some(command));
                    }
                }
                Step { effects, next: Next::Poll }
            },
            RxEvent::Empty => Step { effects, next: Next::ProbeIdle },
            RxEvent::Fault => {
                effects.disable_dma = true;
                effects.discard_rx = true;
                effects.reset_parser = true;
                effects.timer = Some(TimerMode::Inactive);
                self.state.bus.bus_busy = false;
                self.state.bus.token = Token::Unknown(0);
                self.state.bus.alone_cycles = 0;
                self.state.timer_due = false;
                self.state.pending = None;
                Step { effects, next: Next::Done(None) }
            },
        }
    }

    /// Takes the answer of the idle-line probe, and moves the token where the
    /// timer's expiry still stands.
    pub fn idle(&mut self, line_idle: bool) -> (step: Step)
        requires
            old(self)@.wf(),
        ensures
            final(self)@.wf(),
            (final(self)@, step) == old(self)@.probed(line_idle),
    {
        let mut effects = Effects::none();
        let mut command: Option<Command> = None;
        if line_idle {
            effects.reset_parser = true;
            effects.timer = Some(TimerMode::Inactive);
            effects.clear_idle = true;
            self.state.bus.bus_busy = false;
            self.state.timer_due = false;
        }
        if self.state.timer_due {
            command = self.tick();
        }
        self.conclude(effects, command)
    }

    /// Prepares a transmission: where it is the node's turn, the transmit
    /// buffer is emptied for the producer. Out of turn the buffer is left as
    /// it is.
    pub fn produce(&mut self, buf: &mut heapless::String<64>) -> (step: Step)
        requires
            old(self)@.wf(),
        ensures
            final(self)@.wf(),
            (final(self)@, step) == old(self)@.offered(),
            old(self)@.bus.is_my_turn() ==> buffer_bytes(*final(buf)) == Seq::<u8>::empty(),
            !old(self)@.bus.is_my_turn() ==> *final(buf) == *old(buf),
    {
        let mut effects = Effects::none();
        if self.is_my_turn() {
            buffer_clear(buf);
            effects.disable_dma = true;
            Step { effects, next: Next::Fill }
        } else {
            let command = self.state.pending;
            self.state.timer_due = false;
            self.state.pending = None;
            Step { effects, next: Next::Done(command) }
        }
    }

    /// Takes the answer of the producer, and starts the transfer of the bytes
    /// in the transmit buffer where the producer wrote.
    pub fn transmit(&mut self, written: bool, buf: &heapless::String<64>) -> (step: Step)
        requires
            old(self)@.wf(),
        ensures
            final(self)@.wf(),
            (final(self)@, step) == old(self)@.produced(written, buffer_bytes(*buf).len()),
            step.effects.start_dma.is_some() <==> old(self)@.bus.is_my_turn() && written,
            step.effects.start_dma matches Some(len) ==> len == buffer_bytes(*buf).len(),
    {
        let mut effects = Effects::none();
        let command = self.state.pending;
        if self.is_my_turn() && written {
            let len: usize = buffer_len(buf);
            self.state.bus.token = Token::Sending;
            effects.start_dma = Some(len as u16);
        }
        self.state.timer_due = false;
        self.state.pending = None;
        Step { effects, next: Next::Done(command) }
    }

    /// Moves the token on after a slot that passed in silence, and returns the
    /// "no connection" command where the slot raises it.
    fn tick(&mut self) -> (r: Option<Command>)
        requires
            old(self)@.wf(),
        ensures
            final(self)@.wf(),
            final(self)@ == (Arbiter { bus: old(self)@.bus.ticked(), ..old(self)@ }),
            r == old(self)@.bus.tick_command(),
    {
        match self.state.bus.token {
            Token::Unknown(cycles) => {
                if cycles < crate::MAX_DETECT_CYCLES {
                    self.state.bus.token = Token::Unknown(cycles + 1);
                    None
                } else {
                    self.state.bus.token = Token::Addr(Address::first());
                    Some(Command::no_connection())
                }
            },
            Token::Sending => {
                self.state.bus.token = Token::Addr(Address::device().next());
                None
            },
            Token::Addr(address) => {
                if self.state.bus.alone_cycles < crate::MAX_ALONE_CYCLES + 1 {
                    self.state.bus.alone_cycles = self.state.bus.alone_cycles + 1;
                }
                self.state.bus.token = Token::Addr(address.next());
                if self.state.bus.alone_cycles == crate::MAX_ALONE_CYCLES {
                    Some(Command::no_connection())
                } else {
                    None
                }
            },
        }
    }

    /// Ends the receiving part of a run.
    fn conclude(&mut self, effects: Effects, command: Option<Command>) -> (step: Step)
        requires
            old(self)@.wf(),
            command matches Some(found) ==> found.wf(),
        ensures
            final(self)@.wf(),
            (final(self)@, step) == old(self)@.concluded(effects, command),
    {
        self.state.timer_due = false;
        if self.is_my_turn() {
            self.state.pending = command;
            Step { effects, next: Next::Produce }
        } else {
            self.state.pending = None;
            Step { effects, next: Next::Done(command) }
        }
    }
}

} // verus!
