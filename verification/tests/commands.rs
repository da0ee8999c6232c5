use rs485_node::adc::Button;
use rs485_node::address::Address;
use rs485_node::command::{led_work, slow_glow, Command};
use rs485_node::led::{Color, Intensity, Leds, Mode, RawColor};
use rs485_node::message::{IncomingMessage, OutgoingMessage};

fn message() -> IncomingMessage {
    IncomingMessage {
        sender: Address::new(2).unwrap(),
        button: None,
        color: None,
        effect: None,
        intensity: None,
    }
}

#[test]
fn slow_glow_is_thirty_ticks() {
    assert_eq!(slow_glow(), 30);
}

#[test]
fn capital_letters_are_constant_colours() {
    assert_eq!(Mode::from_letter('R'), Some(Mode::Constant(Color::Red)));
    assert_eq!(Mode::from_letter('G'), Some(Mode::Constant(Color::Green)));
    assert_eq!(Mode::from_letter('B'), Some(Mode::Constant(Color::Blue)));
    assert_eq!(Mode::from_letter('W'), Some(Mode::Constant(Color::White)));
    assert_eq!(Mode::from_letter('Y'), Some(Mode::Constant(Color::Yellow)));
    assert_eq!(Mode::from_letter('M'), Some(Mode::Constant(Color::Magenta)));
    assert_eq!(Mode::from_letter('C'), Some(Mode::Constant(Color::Cyan)));
}

#[test]
fn small_letters_are_slow_glows() {
    assert_eq!(Mode::from_letter('r'), Some(Mode::Glow(Color::Red, 30)));
    assert_eq!(Mode::from_letter('g'), Some(Mode::Glow(Color::Green, 30)));
    assert_eq!(Mode::from_letter('b'), Some(Mode::Glow(Color::Blue, 30)));
    assert_eq!(Mode::from_letter('w'), Some(Mode::Glow(Color::White, 30)));
    assert_eq!(Mode::from_letter('y'), Some(Mode::Glow(Color::Yellow, 30)));
    assert_eq!(Mode::from_letter('m'), Some(Mode::Glow(Color::Magenta, 30)));
    assert_eq!(Mode::from_letter('c'), Some(Mode::Glow(Color::Cyan, 30)));
}

#[test]
fn other_letters_are_no_mode() {
    assert_eq!(Mode::from_letter('x'), None);
    assert_eq!(Mode::from_letter('0'), None);
    assert_eq!(Mode::from_letter(' '), None);
    assert_eq!(Mode::from_letter('O'), None);
}

#[test]
fn message_without_led_fields_is_no_command() {
    assert_eq!(Command::from_rs485(message()), None);
    assert_eq!(Command::from_rs485(IncomingMessage { button: Some(3), ..message() }), None);
}

#[test]
fn message_with_colour_sets_the_mode() {
    let command = Command::from_rs485(IncomingMessage { color: Some('Y'), ..message() });
    assert_eq!(
        command,
        Some(Command { mode: Some(Mode::Constant(Color::Yellow)), effect: None, intensity: None })
    );
}

#[test]
fn message_with_all_fields() {
    let command = Command::from_rs485(IncomingMessage {
        color: Some('b'),
        effect: Some('R'),
        intensity: Some(4),
        ..message()
    });
    assert_eq!(
        command,
        Some(Command {
            mode: Some(Mode::Glow(Color::Blue, 30)),
            effect: Some(Mode::Constant(Color::Red)),
            intensity: Intensity::new(4),
        })
    );
    assert_eq!(command.unwrap().intensity.unwrap().get(), 4);
}

#[test]
fn unreadable_fields_give_an_empty_command() {
    let command = Command::from_rs485(IncomingMessage {
        color: Some('?'),
        effect: Some('z'),
        intensity: Some(0),
        ..message()
    });
    assert_eq!(command, Some(Command { mode: None, effect: None, intensity: None }));
    let command = Command::from_rs485(IncomingMessage { intensity: Some(11), ..message() });
    assert_eq!(command, Some(Command { mode: None, effect: None, intensity: None }));
}

#[test]
fn intensity_is_bounded() {
    assert_eq!(Intensity::new(0), None);
    assert_eq!(Intensity::new(11), None);
    assert_eq!(Intensity::new(255), None);
    for level in 1..=10u8 {
        assert_eq!(Intensity::new(level).unwrap().get(), level);
    }
    assert_eq!(Intensity::max().get(), 10);
}

#[test]
fn no_connection_blinks_red_after_a_blue_glow() {
    assert_eq!(
        Command::no_connection(),
        Command {
            mode: Some(Mode::Blink(Color::Red, 100)),
            effect: Some(Mode::Glow(Color::Blue, 30)),
            intensity: None,
        }
    );
}

#[test]
fn command_is_applied_part_by_part() {
    let mut leds = Leds::new();
    assert!(leds.tick().is_some());
    Command { mode: None, effect: None, intensity: Intensity::new(5) }.apply(&mut leds);
    assert_eq!(leds.tick(), Some(RawColor { r: 69, g: 0, b: 45, w: 0 }));
    Command { mode: Some(Mode::Constant(Color::Green)), effect: None, intensity: None }
        .apply(&mut leds);
    assert_eq!(leds.tick(), Some(RawColor { r: 0, g: 127, b: 0, w: 0 }));
    assert_eq!(leds.tick(), None);
    Command { mode: None, effect: None, intensity: None }.apply(&mut leds);
    assert_eq!(leds.tick(), None);
}

#[test]
fn led_work_applies_or_ticks() {
    let mut leds = Leds::new();
    assert_eq!(led_work(&mut leds, None), Some(RawColor { r: 138, g: 0, b: 90, w: 0 }));
    assert_eq!(led_work(&mut leds, None), None);
    assert_eq!(led_work(&mut leds, Some(Command::no_connection())), None);
    assert_eq!(led_work(&mut leds, None), Some(RawColor { r: 0, g: 0, b: 17, w: 0 }));
}

#[test]
fn report_is_due_on_button_or_ping() {
    assert_eq!(OutgoingMessage::report(None, false, 3300, 250), None);
    assert_eq!(
        OutgoingMessage::report(None, true, 3300, -120),
        Some(OutgoingMessage {
            sender: Address::device(),
            button: None,
            temperature: -120,
            voltage: 3300,
        })
    );
    assert_eq!(
        OutgoingMessage::report(Some(Button::Button4), false, 3291, 215),
        Some(OutgoingMessage {
            sender: Address::new(11).unwrap(),
            button: Some(4),
            temperature: 215,
            voltage: 3291,
        })
    );
}

#[test]
fn buttons_are_numbered_from_zero() {
    assert_eq!(Button::Button0.code(), 0);
    assert_eq!(Button::Button1.code(), 1);
    assert_eq!(Button::Button2.code(), 2);
    assert_eq!(Button::Button3.code(), 3);
    assert_eq!(Button::Button4.code(), 4);
    assert_eq!(Button::Button5.code(), 5);
}
