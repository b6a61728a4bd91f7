use gpiochip::gpio::{io_message, Error, Level, Mode, PullUpDown, Trigger};
use std::io;

#[test]
fn mode_codes_follow_the_function_select_register() {
    assert_eq!(Mode::Input.bits(), 0b000);
    assert_eq!(Mode::Output.bits(), 0b001);
    assert_eq!(Mode::Alt0.bits(), 0b100);
    assert_eq!(Mode::Alt1.bits(), 0b101);
    assert_eq!(Mode::Alt2.bits(), 0b110);
    assert_eq!(Mode::Alt3.bits(), 0b111);
    assert_eq!(Mode::Alt4.bits(), 0b011);
    assert_eq!(Mode::Alt5.bits(), 0b010);
}

#[test]
fn mode_cast_gives_the_code() {
    let modes = [
        Mode::Input,
        Mode::Output,
        Mode::Alt0,
        Mode::Alt1,
        Mode::Alt2,
        Mode::Alt3,
        Mode::Alt4,
        Mode::Alt5,
    ];
    for mode in modes {
        assert_eq!(mode as u8, mode.bits());
    }
    assert_eq!(Mode::Alt0 as u8, 0b100);
    assert_eq!(Mode::Alt4 as u8, 0b011);
    assert_eq!(Mode::Alt5 as u8, 0b010);
}

#[test]
fn mode_names() {
    assert_eq!(Mode::Input.to_string(), "In");
    assert_eq!(Mode::Output.to_string(), "Out");
    assert_eq!(Mode::Alt0.to_string(), "Alt0");
    assert_eq!(Mode::Alt1.to_string(), "Alt1");
    assert_eq!(Mode::Alt2.to_string(), "Alt2");
    assert_eq!(Mode::Alt3.to_string(), "Alt3");
    assert_eq!(Mode::Alt4.to_string(), "Alt4");
    assert_eq!(Mode::Alt5.to_string(), "Alt5");
}

#[test]
fn level_from_bool() {
    assert_eq!(Level::from(true), Level::High);
    assert_eq!(Level::from(false), Level::Low);
}

#[test]
fn level_from_byte() {
    assert_eq!(Level::from(0u8), Level::Low);
    assert_eq!(Level::from(1u8), Level::High);
    for value in 1..=255u8 {
        assert_eq!(Level::from(value), Level::High);
    }
}

#[test]
fn level_inversion() {
    assert_eq!(!Level::Low, Level::High);
    assert_eq!(!Level::High, Level::Low);
    assert_eq!(!!Level::High, Level::High);
    assert_eq!(!!Level::Low, Level::Low);
}

#[test]
fn level_bits_and_names() {
    assert_eq!(Level::Low.bit(), 0);
    assert_eq!(Level::High.bit(), 1);
    assert_eq!(Level::Low.to_string(), "Low");
    assert_eq!(Level::High.to_string(), "High");
    assert_eq!(Level::from(Level::High.bit()), Level::High);
    assert_eq!(Level::from(Level::Low.bit()), Level::Low);
}

#[test]
fn pull_up_down_codes_and_names() {
    assert_eq!(PullUpDown::Off.bits(), 0b00);
    assert_eq!(PullUpDown::PullDown.bits(), 0b01);
    assert_eq!(PullUpDown::PullUp.bits(), 0b10);
    assert_eq!(PullUpDown::Off.to_string(), "Off");
    assert_eq!(PullUpDown::PullDown.to_string(), "PullDown");
    assert_eq!(PullUpDown::PullUp.to_string(), "PullUp");
}

#[test]
fn trigger_codes_and_names() {
    assert_eq!(Trigger::Disabled.bits(), 0);
    assert_eq!(Trigger::RisingEdge.bits(), 1);
    assert_eq!(Trigger::FallingEdge.bits(), 2);
    assert_eq!(Trigger::Both.bits(), 3);
    assert_eq!(Trigger::Disabled.to_string(), "Disabled");
    assert_eq!(Trigger::RisingEdge.to_string(), "RisingEdge");
    assert_eq!(Trigger::FallingEdge.to_string(), "FallingEdge");
    assert_eq!(Trigger::Both.to_string(), "Both");
}

#[test]
fn error_messages() {
    assert_eq!(Error::UnknownModel.to_string(), "Unknown Raspberry Pi model");
    assert_eq!(Error::PinUsed(17).to_string(), "Pin 17 is already in use");
    assert_eq!(Error::PinUsed(0).to_string(), "Pin 0 is already in use");
    assert_eq!(Error::PinNotAvailable(255).to_string(), "Pin 255 is not available");
    assert_eq!(Error::PinNotAvailable(100).to_string(), "Pin 100 is not available");
    assert_eq!(
        Error::PermissionDenied(String::from("/dev/gpiochip0")).to_string(),
        "Permission denied: /dev/gpiochip0"
    );
    assert_eq!(Error::ThreadPanic.to_string(), "Thread panicked");
}

#[test]
fn io_error_message_holds_the_system_text() {
    let inner = io::Error::from_raw_os_error(libc::ENOENT);
    let text = format!("{}", inner);
    let message = Error::Io(inner).to_string();
    assert_eq!(message, format!("I/O error: {}", text));
    assert!(message.len() > "I/O error: ".len());
}

#[test]
fn error_from_io_error_keeps_the_error() {
    let error = Error::from(io::Error::from_raw_os_error(libc::EIO));
    match error {
        Error::Io(inner) => assert_eq!(inner.raw_os_error(), Some(libc::EIO)),
        other => panic!("unexpected error: {:?}", other),
    }
}

#[test]
fn io_message_keeps_the_whole_description() {
    assert_eq!(io_message("No such file or directory (os error 2)"),
        "I/O error: No such file or directory (os error 2)");
    assert_eq!(io_message(""), "I/O error: ");
}
