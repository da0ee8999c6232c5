//! The arbiter over whole runs of the handler and over many slots: what
//! follows from its single steps, proved here.

use vstd::prelude::*;
use crate::address::{rotate, Address};
use crate::command::Command;
use crate::message::IncomingMessage;
use crate::rs485::{Arbiter, BusState, Effects, Next, RxEvent, Step, TimerMode, Token};

verus! {

/// The bus state after `slots` slots that passed in silence.
pub open spec fn ticks(bus: BusState, slots: nat) -> BusState
    decreases slots,
{
    if slots == 0 {
        bus
    } else {
        ticks(bus, (slots - 1) as nat).ticked()
    }
}

/// How often the "no connection" command is raised during `slots` slots that
/// pass in silence.
pub open spec fn alarms(bus: BusState, slots: nat) -> nat
    decreases slots,
{
    if slots == 0 {
        0
    } else {
        let before = ticks(bus, (slots - 1) as nat);
        alarms(bus, (slots - 1) as nat) + if before.tick_alarms() {
            1nat
        } else {
            0nat
        }
    }
}

/// The bus state after the messages of `senders` were heard, one after the
/// other.
pub open spec fn heard_all(bus: BusState, senders: Seq<Address>) -> BusState
    decreases senders.len(),
{
    if senders.len() == 0 {
        bus
    } else {
        heard_all(bus, senders.drop_last()).byte_seen().heard(senders.last())
    }
}

/// Every step keeps the bus state well-formed: in particular the count of
/// lonely slots never exceeds its limit by more than one.
pub proof fn steps_keep_the_state_valid(bus: BusState, sender: Address)
    requires
        bus.wf(),
        sender.wf(),
    ensures
        bus.ticked().wf(),
        bus.byte_seen().wf(),
        bus.heard(sender).wf(),
        bus.quiet().wf(),
        bus.sending().wf(),
        BusState::collided().wf(),
        BusState::boot().wf(),
        bus.ticked().alone_cycles <= crate::MAX_ALONE_CYCLES + 1,
{
}

/// A message from `sender`, heard while the node is not sending, makes the
/// token name the sender and clears the count of lonely slots.
pub proof fn message_names_its_sender(arbiter: Arbiter, message: IncomingMessage)
    requires
        arbiter.wf(),
        message.sender.wf(),
        arbiter.bus.token != Token::Sending,
    ensures
        ({
            let after = arbiter.received(RxEvent::Byte(Some(message))).0;
            &&& after.bus.token == Token::Addr(message.sender)
            &&& after.bus.alone_cycles == 0
            &&& after.bus.bus_busy
        }),
{
}

/// After any sequence of messages heard while the node is not sending, the
/// token names the sender of the last one and the count of lonely slots is
/// zero.
pub proof fn last_sender_holds_the_token(bus: BusState, senders: Seq<Address>)
    requires
        bus.token != Token::Sending,
        senders.len() > 0,
    ensures
        heard_all(bus, senders).token == Token::Addr(senders.last()),
        heard_all(bus, senders).alone_cycles == 0,
        heard_all(bus, senders).bus_busy,
    decreases senders.len(),
{
    if senders.len() > 1 {
        last_sender_holds_the_token(bus, senders.drop_last());
    } else {
        assert(heard_all(bus, senders.drop_last()) == bus);
    }
}

/// A slot that passes in silence moves the token to the next address: past
/// the address it names, past this node's own address after a transmission,
/// and to the first address once the wait for a first message is over. Only
/// while that wait lasts does the token stay unknown, one slot older.
pub proof fn silent_slot_moves_the_token(bus: BusState)
    requires
        bus.wf(),
    ensures
        bus.token matches Token::Addr(address) ==> bus.ticked().token == Token::Addr(
            address.successor(),
        ),
        bus.token == Token::Sending ==> bus.ticked().token == Token::Addr(
            (Address { value: crate::DEVICE_ADDRESS }).successor(),
        ),
        bus.token matches Token::Unknown(cycles) ==> bus.ticked().token == (if cycles
            < crate::MAX_DETECT_CYCLES {
            Token::Unknown((cycles + 1) as u32)
        } else {
            Token::Addr(Address { value: 0 })
        }),
        bus.ticked().bus_busy == bus.bus_busy,
{
}

/// A run of the handler in which the timer has expired, no byte is waiting
/// and the line is not reported idle moves the token by exactly one slot and
/// changes nothing else.
pub proof fn timer_only_run_is_one_slot(arbiter: Arbiter)
    requires
        arbiter.wf(),
    ensures
        ({
            let entered = arbiter.entered(true);
            let polled = entered.0.received(RxEvent::Empty);
            let probed = polled.0.probed(false);
            &&& entered.1.next == Next::Poll
            &&& entered.1.effects.clear_timer_irq
            &&& polled.1.next == Next::ProbeIdle
            &&& probed.0.bus == arbiter.bus.ticked()
            &&& probed.1.next == (if arbiter.bus.ticked().is_my_turn() {
                Next::Produce
            } else {
                Next::Done(arbiter.bus.tick_command())
            })
        }),
{
}

/// A byte wins over the timer: in a run in which a byte arrives, an expiry
/// of the timer reported at entry does not move the token, whatever the byte
/// carries and whatever the idle probe says.
pub proof fn byte_makes_the_timer_stale(
    arbiter: Arbiter,
    parsed: Option<IncomingMessage>,
    line_idle: bool,
)
    requires
        arbiter.wf(),
        parsed matches Some(message) ==> Command::decoded(message).is_none(),
    ensures
        ({
            let entered = arbiter.entered(true);
            let first = entered.0.received(RxEvent::Byte(parsed));
            let second = first.0.received(RxEvent::Empty);
            let probed = second.0.probed(line_idle);
            &&& first.1.effects.timer == Some(TimerMode::Active)
            &&& first.1.next == Next::Poll
            &&& probed.0.bus.token == first.0.bus.token
            &&& probed.0.bus.alone_cycles == first.0.bus.alone_cycles
            &&& probed.0.bus.bus_busy == !line_idle
        }),
{
}

/// An idle line alone does not move the token: it clears the busy flag and
/// releases the timer, and makes a timer expiry reported at entry stale.
pub proof fn idle_line_does_not_move_the_token(arbiter: Arbiter)
    requires
        arbiter.wf(),
    ensures
        ({
            let probed = arbiter.probed(true);
            &&& probed.0.bus == arbiter.bus.quiet()
            &&& probed.1.effects.timer == Some(TimerMode::Inactive)
            &&& probed.1.effects.clear_idle
            &&& probed.1.effects.reset_parser
        }),
{
}

/// The producer is asked only when it is the node's turn, and a transfer is
/// started only when it is the node's turn and the producer wrote.
pub proof fn sends_only_on_its_turn(
    arbiter: Arbiter,
    event: RxEvent,
    flag: bool,
    written: bool,
    len: nat,
)
    requires
        arbiter.wf(),
    ensures
        arbiter.entered(flag).1.next != Next::Produce,
        arbiter.offered().1.next == Next::Fill <==> arbiter.bus.is_my_turn(),
        arbiter.offered().1.effects.start_dma.is_none(),
        arbiter.received(event).1.next == Next::Produce ==> arbiter.received(
            event,
        ).0.bus.is_my_turn(),
        arbiter.probed(flag).1.next == Next::Produce <==> arbiter.probed(
            flag,
        ).0.bus.is_my_turn(),
        arbiter.entered(flag).1.effects.start_dma.is_none(),
        arbiter.received(event).1.effects.start_dma.is_none(),
        arbiter.probed(flag).1.effects.start_dma.is_none(),
        arbiter.produced(written, len).1.effects.start_dma == (if arbiter.bus.is_my_turn()
            && written {
            Some(len as u16)
        } else {
            None
        }),
        arbiter.produced(written, len).0.bus.token == Token::Sending <==> arbiter.bus.token
            == Token::Sending || (arbiter.bus.is_my_turn() && written),
{
}

/// A receive error makes the node forget what it knew: the token is unknown
/// again with no slot counted, the line counts as idle, the count of lonely
/// slots is zero, the transmit channel is stopped, and the run ends without a
/// command.
pub proof fn receive_error_restarts_discovery(arbiter: Arbiter)
    ensures
        ({
            let (after, step) = arbiter.received(RxEvent::Fault);
            &&& after.bus.token == Token::Unknown(0)
            &&& !after.bus.bus_busy
            &&& after.bus.alone_cycles == 0
            &&& after.pending.is_none()
            &&& step.effects.disable_dma
            &&& step.effects.discard_rx
            &&& step.effects.reset_parser
            &&& step.effects.timer == Some(TimerMode::Inactive)
            &&& step.effects.start_dma.is_none()
            &&& step.next == Next::Done(None)
        }),
{
}

/// Silent slots add up: `first + second` of them are `first`, then `second`.
pub proof fn ticks_add_up(bus: BusState, first: nat, second: nat)
    ensures
        ticks(bus, first + second) == ticks(ticks(bus, first), second),
        alarms(bus, first + second) == alarms(bus, first) + alarms(ticks(bus, first), second),
    decreases second,
{
    if second > 0 {
        ticks_add_up(bus, first, (second - 1) as nat);
        assert(first + second - 1 == first + (second - 1) as nat);
    }
}

/// While the node waits for a first message, every silent slot is counted and
/// none raises the command.
pub proof fn waiting_counts_slots(bus: BusState, slots: nat)
    requires
        bus.token matches Token::Unknown(cycles) && cycles + slots <= crate::MAX_DETECT_CYCLES,
    ensures
        ticks(bus, slots) == (BusState {
            token: Token::Unknown((bus.token->Unknown_0 + slots) as u32),
            ..bus
        }),
        alarms(bus, slots) == 0,
    decreases slots,
{
    if slots > 0 {
        waiting_counts_slots(bus, (slots - 1) as nat);
    }
}

/// While the token moves from address to address in silence, it follows the
/// rotation, the count of lonely slots grows by one per slot up to one past
/// its limit, and the command is raised exactly once: in the slot in which
/// the count reaches the limit.
pub proof fn lonely_rotation_alarms_once(bus: BusState, slots: nat)
    requires
        bus.wf(),
        bus.token is Addr,
    ensures
        ticks(bus, slots) == (BusState {
            token: Token::Addr(rotate(bus.token->Addr_0, slots)),
            alone_cycles: if bus.alone_cycles + slots <= crate::MAX_ALONE_CYCLES + 1 {
                (bus.alone_cycles + slots) as u32
            } else {
                (crate::MAX_ALONE_CYCLES + 1) as u32
            },
            bus_busy: bus.bus_busy,
        }),
        ticks(bus, slots).wf(),
        alarms(bus, slots) == (if bus.alone_cycles < crate::MAX_ALONE_CYCLES
            && bus.alone_cycles + slots >= crate::MAX_ALONE_CYCLES {
            1nat
        } else {
            0nat
        }),
        slots > 0 ==> (ticks(bus, (slots - 1) as nat).tick_alarms() <==> bus.alone_cycles + slots
            == crate::MAX_ALONE_CYCLES),
    decreases slots,
{
    if slots > 0 {
        lonely_rotation_alarms_once(bus, (slots - 1) as nat);
        crate::address::rotate_is_addition(bus.token->Addr_0, (slots - 1) as nat);
    }
}

/// From boot, with no traffic: the token stays unknown for
/// `MAX_DETECT_CYCLES` silent slots, none of which raises the command; the
/// slot after them puts the token on the first address and raises the
/// command; from then on the token rotates, and the command is raised once
/// more, when the count of lonely slots reaches its limit, and never again.
pub proof fn discovery_from_boot(slots: nat)
    ensures
        slots <= crate::MAX_DETECT_CYCLES ==> ticks(BusState::boot(), slots) == (BusState {
            token: Token::Unknown(slots as u32),
            ..BusState::boot()
        }),
        slots > crate::MAX_DETECT_CYCLES ==> ticks(BusState::boot(), slots).token == Token::Addr(
            rotate(Address { value: 0 }, (slots - crate::MAX_DETECT_CYCLES - 1) as nat),
        ),
        slots > 0 ==> (ticks(BusState::boot(), (slots - 1) as nat).tick_alarms() <==> (slots
            == crate::MAX_DETECT_CYCLES + 1 || slots == crate::MAX_DETECT_CYCLES + 1
            + crate::MAX_ALONE_CYCLES)),
        alarms(BusState::boot(), slots) == (if slots <= crate::MAX_DETECT_CYCLES {
            0nat
        } else if slots < crate::MAX_DETECT_CYCLES + 1 + crate::MAX_ALONE_CYCLES {
            1nat
        } else {
            2nat
        }),
{
    let boot = BusState::boot();
    let limit = crate::MAX_DETECT_CYCLES as nat;
    if slots <= limit {
        waiting_counts_slots(boot, slots);
        if slots > 0 {
            waiting_counts_slots(boot, (slots - 1) as nat);
        }
    } else {
        waiting_counts_slots(boot, limit);
        let waited = ticks(boot, limit);
        assert(ticks(boot, limit + 1) == waited.ticked());
        let seeded = ticks(boot, limit + 1);
        assert(alarms(boot, limit + 1) == 1);
        let rest = (slots - limit - 1) as nat;
        ticks_add_up(boot, limit + 1, rest);
        assert(limit + 1 + rest == slots);
        lonely_rotation_alarms_once(seeded, rest);
        if rest > 0 {
            ticks_add_up(boot, limit + 1, (rest - 1) as nat);
            assert(limit + 1 + (rest - 1) as nat == (slots - 1) as nat);
        }
    }
}

/// After a transmission the node's turn does not come back before the token
/// has gone round the whole address space: for fifteen silent slots it is not
/// the node's turn, and the sixteenth puts the token on its address again.
pub proof fn own_turn_returns_after_a_full_round(bus: BusState, slots: nat)
    requires
        bus.wf(),
        bus.token == Token::Sending,
        slots < crate::address::ADDRESS_SPACE,
    ensures
        !ticks(bus, slots).is_my_turn(),
        ticks(bus, crate::address::ADDRESS_SPACE as nat).token == Token::Addr(
            Address { value: crate::DEVICE_ADDRESS },
        ),
{
    let own = Address { value: crate::DEVICE_ADDRESS };
    let sent = ticks(bus, 1);
    assert(ticks(bus, 0) == bus);
    assert(sent == bus.ticked());
    if slots > 0 {
        ticks_add_up(bus, 1, (slots - 1) as nat);
        lonely_rotation_alarms_once(sent, (slots - 1) as nat);
        crate::address::rotate_is_addition(own.successor(), (slots - 1) as nat);
    }
    let round = (crate::address::ADDRESS_SPACE - 1) as nat;
    ticks_add_up(bus, 1, round);
    lonely_rotation_alarms_once(sent, round);
    crate::address::rotate_is_addition(own.successor(), round);
}

/// While the node is sending, no second transfer is prepared or started:
/// right after a transfer was started, the arbiter answers a further offer
/// of the buffer by ending the run, and starts nothing whatever the producer
/// says.
pub proof fn one_transfer_at_a_time(arbiter: Arbiter, len: nat, written: bool, more: nat)
    requires
        arbiter.wf(),
        arbiter.bus.is_my_turn(),
    ensures
        ({
            let sending = arbiter.produced(true, len).0;
            &&& sending.bus.token == Token::Sending
            &&& !sending.bus.is_my_turn()
            &&& sending.offered().1 == (Step {
                effects: Effects::nothing(),
                next: Next::Done(None),
            })
            &&& sending.produced(written, more).1.effects.start_dma.is_none()
        }),
{
}

/// One call of the arbiter, by the function called and what it is given.
pub enum Input {
    /// `interrupt`, with the timer's expiry flag.
    Enter(bool),
    /// `read`, with what the poll gave.
    Receive(RxEvent),
    /// `idle`, with the answer of the idle-line probe.
    Probe(bool),
    /// `produce`.
    Offer,
    /// `transmit`, with the producer's answer and the bytes in the buffer.
    Answer(bool, nat),
}

impl Input {
    /// A message received comes from a valid address.
    pub open spec fn wf(self) -> bool {
        self matches Input::Receive(event) ==> event.wf()
    }
}

/// The arbiter and its answer after one call.
pub open spec fn stepped(arbiter: Arbiter, input: Input) -> (Arbiter, Step) {
    match input {
        Input::Enter(timer) => arbiter.entered(timer),
        Input::Receive(event) => arbiter.received(event),
        Input::Probe(line_idle) => arbiter.probed(line_idle),
        Input::Offer => arbiter.offered(),
        Input::Answer(written, len) => arbiter.produced(written, len),
    }
}

/// The arbiter after a sequence of calls, in any order.
pub open spec fn run(arbiter: Arbiter, inputs: Seq<Input>) -> Arbiter
    decreases inputs.len(),
{
    if inputs.len() == 0 {
        arbiter
    } else {
        stepped(run(arbiter, inputs.drop_last()), inputs.last()).0
    }
}

/// Whatever is called, in whatever order and with whatever it is given, the
/// arbiter stays valid from boot on: the count of lonely slots never exceeds
/// its limit by more than one, the count of silent slots before a first
/// message never exceeds its limit, and the token never names an address
/// outside the address space.
pub proof fn every_reachable_state_is_valid(inputs: Seq<Input>)
    requires
        forall|i: int| 0 <= i < inputs.len() ==> (#[trigger] inputs[i]).wf(),
    ensures
        run(Arbiter { bus: BusState::boot(), timer_due: false, pending: None }, inputs).wf(),
        run(
            Arbiter { bus: BusState::boot(), timer_due: false, pending: None },
            inputs,
        ).bus.alone_cycles <= crate::MAX_ALONE_CYCLES + 1,
    decreases inputs.len(),
{
    if inputs.len() > 0 {
        every_reachable_state_is_valid(inputs.drop_last());
        assert(inputs.last().wf());
    }
}

/// Whatever is called, a transfer is started by a call only if it was the
/// node's turn before that call, and the token says `Sending` afterwards.
pub proof fn transfers_start_on_own_turn_only(arbiter: Arbiter, input: Input)
    requires
        arbiter.wf(),
        input.wf(),
    ensures
        stepped(arbiter, input).1.effects.start_dma.is_some() ==> arbiter.bus.is_my_turn()
            && stepped(arbiter, input).0.bus.token == Token::Sending,
        stepped(arbiter, input).0.wf(),
{
}

} // verus!
