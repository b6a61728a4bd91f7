//! Value types shared by the GPIO layers: pin modes, logic levels, pull
//! resistor states and interrupt triggers, each with its register code.

use vstd::prelude::*;
use vstd::std_specs::convert::FromSpecImpl;
use vstd::std_specs::ops::NotSpecImpl;
use vstd::string::StringExecFns;
use crate::sys::describe;
use crate::text::{decimal, push_decimal};

verus! {

/// Errors that can occur when accessing the GPIO peripheral.
#[derive(Debug)]
pub enum Error {
    /// The Raspberry Pi model or SoC can't be identified.
    UnknownModel,
    /// The pin is already in use elsewhere in the application.
    PinUsed(u8),
    /// The GPIO peripheral doesn't expose a pin with this BCM number.
    PinNotAvailable(u8),
    /// Permission denied when opening the device at this path for
    /// read/write access.
    PermissionDenied(String),
    /// I/O error.
    Io(std::io::Error),
    /// A worker thread panicked.
    ThreadPanic,
}

impl Error {
    /// Whether `text` is the one-line message of the error. The message of
    /// an I/O error is what `io_message` makes of the error's own
    /// description, which comes from the operating system: of that part
    /// nothing is said here.
    pub open spec fn has_message(self, text: Seq<char>) -> bool {
        match self {
            Error::UnknownModel => text == "Unknown Raspberry Pi model"@,
            Error::PinUsed(pin) => text == "Pin "@ + decimal(pin as nat) + " is already in use"@,
            Error::PinNotAvailable(pin) => text == "Pin "@ + decimal(pin as nat)
                + " is not available"@,
            Error::PermissionDenied(path) => text == "Permission denied: "@ + path@,
            Error::Io(_) => "I/O error: "@.is_prefix_of(text),
            Error::ThreadPanic => text == "Thread panicked"@,
        }
    }

    /// Returns the one-line message of the error.
    pub fn to_string(&self) -> (text: String)
        ensures
            self.has_message(text@),
    {
        match self {
            Error::UnknownModel => String::from_str("Unknown Raspberry Pi model"),
            Error::PinUsed(pin) => {
                let mut text = String::from_str("Pin ");
                push_decimal(&mut text, *pin);
                text.append(" is already in use");
                text
            },
            Error::PinNotAvailable(pin) => {
                let mut text = String::from_str("Pin ");
                push_decimal(&mut text, *pin);
                text.append(" is not available");
                text
            },
            Error::PermissionDenied(path) => {
                let mut text = String::from_str("Permission denied: ");
                text.append(path.as_str());
                text
            },
            Error::Io(err) => {
                let detail = describe(err);
                io_message(detail.as_str())
            },
            Error::ThreadPanic => String::from_str("Thread panicked"),
        }
    }
}

/// Returns the message of an I/O error whose own description is `detail`:
/// the description behind the words "I/O error: ", with nothing left out.
pub fn io_message(detail: &str) -> (text: String)
    ensures
        text@ == "I/O error: "@ + detail@,
{
    let mut text = String::from_str("I/O error: ");
    text.append(detail);
    text
}

impl From<std::io::Error> for Error {
    fn from(err: std::io::Error) -> (error: Error) {
        Error::Io(err)
    }
}

impl FromSpecImpl<std::io::Error> for Error {
    open spec fn obeys_from_spec() -> bool {
        true
    }

    open spec fn from_spec(err: std::io::Error) -> Error {
        Error::Io(err)
    }
}

/// Pin modes.
///
/// The variants stand in the order of their function-select codes, so that
/// the place of a variant in this list is its code: a cast of a mode to an
/// integer gives the same number as `bits`.
#[derive(Debug, PartialEq, Eq, Copy, Clone, Structural)]
pub enum Mode {
    Input,
    Output,
    Alt5,
    Alt4,
    Alt0,
    Alt1,
    Alt2,
    Alt3,
}

impl Mode {
    /// The three-bit function-select code of the mode. The codes of the
    /// alternate functions do not follow their numbering: `Alt4` is `0b011`
    /// and `Alt5` is `0b010`.
    pub open spec fn spec_bits(self) -> u8 {
        match self {
            Mode::Input => 0b000,
            Mode::Output => 0b001,
            Mode::Alt0 => 0b100,
            Mode::Alt1 => 0b101,
            Mode::Alt2 => 0b110,
            Mode::Alt3 => 0b111,
            Mode::Alt4 => 0b011,
            Mode::Alt5 => 0b010,
        }
    }

    /// The short name of the mode.
    pub open spec fn spec_name(self) -> Seq<char> {
        match self {
            Mode::Input => "In"@,
            Mode::Output => "Out"@,
            Mode::Alt0 => "Alt0"@,
            Mode::Alt1 => "Alt1"@,
            Mode::Alt2 => "Alt2"@,
            Mode::Alt3 => "Alt3"@,
            Mode::Alt4 => "Alt4"@,
            Mode::Alt5 => "Alt5"@,
        }
    }

    /// Returns the function-select code of the mode.
    pub fn bits(self) -> (code: u8)
        ensures
            code == self.spec_bits(),
            code < 8,
    {
        match self {
            Mode::Input => 0b000,
            Mode::Output => 0b001,
            Mode::Alt0 => 0b100,
            Mode::Alt1 => 0b101,
            Mode::Alt2 => 0b110,
            Mode::Alt3 => 0b111,
            Mode::Alt4 => 0b011,
            Mode::Alt5 => 0b010,
        }
    }

    /// Returns the short name of the mode: what it is displayed as.
    pub fn to_string(&self) -> (s: String)
        ensures
            s@ == self.spec_name(),
    {
        match self {
            Mode::Input => String::from_str("In"),
            Mode::Output => String::from_str("Out"),
            Mode::Alt0 => String::from_str("Alt0"),
            Mode::Alt1 => String::from_str("Alt1"),
            Mode::Alt2 => String::from_str("Alt2"),
            Mode::Alt3 => String::from_str("Alt3"),
            Mode::Alt4 => String::from_str("Alt4"),
            Mode::Alt5 => String::from_str("Alt5"),
        }
    }
}

/// Pin logic levels.
#[derive(Debug, PartialEq, Eq, Copy, Clone, Structural)]
pub enum Level {
    Low,
    High,
}

impl Level {
    /// The level as a bit: 0 for `Low`, 1 for `High`.
    pub open spec fn spec_bit(self) -> u8 {
        match self {
            Level::Low => 0,
            Level::High => 1,
        }
    }

    /// The opposite level.
    pub open spec fn inverted(self) -> Level {
        match self {
            Level::Low => Level::High,
            Level::High => Level::Low,
        }
    }

    /// The name of the level.
    pub open spec fn spec_name(self) -> Seq<char> {
        match self {
            Level::Low => "Low"@,
            Level::High => "High"@,
        }
    }

    /// Returns the level as a bit.
    pub fn bit(self) -> (b: u8)
        ensures
            b == self.spec_bit(),
    {
        match self {
            Level::Low => 0,
            Level::High => 1,
        }
    }

    /// Returns the name of the level.
    pub fn to_string(&self) -> (s: String)
        ensures
            s@ == self.spec_name(),
    {
        match self {
            Level::Low => String::from_str("Low"),
            Level::High => String::from_str("High"),
        }
    }
}

impl From<bool> for Level {
    fn from(e: bool) -> (level: Level) {
        if e {
            Level::High
        } else {
            Level::Low
        }
    }
}

impl FromSpecImpl<bool> for Level {
    open spec fn obeys_from_spec() -> bool {
        true
    }

    open spec fn from_spec(e: bool) -> Level {
        if e {
            Level::High
        } else {
            Level::Low
        }
    }
}

impl From<u8> for Level {
    fn from(value: u8) -> (level: Level) {
        if value == 0 {
            Level::Low
        } else {
            Level::High
        }
    }
}

impl FromSpecImpl<u8> for Level {
    open spec fn obeys_from_spec() -> bool {
        true
    }

    open spec fn from_spec(value: u8) -> Level {
        if value == 0 {
            Level::Low
        } else {
            Level::High
        }
    }
}

impl core::ops::Not for Level {
    type Output = Level;

    fn not(self) -> (level: Level) {
        match self {
            Level::Low => Level::High,
            Level::High => Level::Low,
        }
    }
}

impl NotSpecImpl for Level {
    open spec fn obeys_not_spec() -> bool {
        true
    }

    open spec fn not_req(self) -> bool {
        true
    }

    open spec fn not_spec(self) -> Level {
        self.inverted()
    }
}

/// Inverting a level twice gives the level back.
pub proof fn lemma_level_double_inversion(level: Level)
    ensures
        level.inverted().inverted() == level,
        level.inverted() != level,
{
}

/// Every byte but zero converts to `High`, zero converts to `Low`, and a
/// level converted to its bit and back is unchanged.
pub proof fn lemma_level_from_byte(value: u8, level: Level)
    ensures
        <Level as vstd::std_specs::convert::FromSpec<u8>>::from_spec(value) == Level::High <==> value != 0,
        <Level as vstd::std_specs::convert::FromSpec<u8>>::from_spec(value) == Level::Low <==> value == 0,
        <Level as vstd::std_specs::convert::FromSpec<u8>>::from_spec(level.spec_bit()) == level,
        <Level as vstd::std_specs::convert::FromSpec<bool>>::from_spec(true) == Level::High,
        <Level as vstd::std_specs::convert::FromSpec<bool>>::from_spec(false) == Level::Low,
{
}

/// Built-in pull-up/pull-down resistor states.
#[derive(Debug, PartialEq, Eq, Copy, Clone, Structural)]
pub enum PullUpDown {
    Off,
    PullDown,
    PullUp,
}

impl PullUpDown {
    /// The two-bit register code of the state.
    pub open spec fn spec_bits(self) -> u8 {
        match self {
            PullUpDown::Off => 0b00,
            PullUpDown::PullDown => 0b01,
            PullUpDown::PullUp => 0b10,
        }
    }

    /// The name of the state.
    pub open spec fn spec_name(self) -> Seq<char> {
        match self {
            PullUpDown::Off => "Off"@,
            PullUpDown::PullDown => "PullDown"@,
            PullUpDown::PullUp => "PullUp"@,
        }
    }

    /// Returns the register code of the state.
    pub fn bits(self) -> (code: u8)
        ensures
            code == self.spec_bits(),
    {
        match self {
            PullUpDown::Off => 0b00,
            PullUpDown::PullDown => 0b01,
            PullUpDown::PullUp => 0b10,
        }
    }

    /// Returns the name of the state.
    pub fn to_string(&self) -> (s: String)
        ensures
            s@ == self.spec_name(),
    {
        match self {
            PullUpDown::Off => String::from_str("Off"),
            PullUpDown::PullDown => String::from_str("PullDown"),
            PullUpDown::PullUp => String::from_str("PullUp"),
        }
    }
}

/// Interrupt trigger conditions.
#[derive(Debug, PartialEq, Eq, Copy, Clone, Structural)]
pub enum Trigger {
    Disabled,
    RisingEdge,
    FallingEdge,
    Both,
}

impl Trigger {
    /// The code of the trigger: bit 0 for the rising edge, bit 1 for the
    /// falling edge.
    pub open spec fn spec_bits(self) -> u8 {
        match self {
            Trigger::Disabled => 0,
            Trigger::RisingEdge => 1,
            Trigger::FallingEdge => 2,
            Trigger::Both => 3,
        }
    }

    /// The name of the trigger.
    pub open spec fn spec_name(self) -> Seq<char> {
        match self {
            Trigger::Disabled => "Disabled"@,
            Trigger::RisingEdge => "RisingEdge"@,
            Trigger::FallingEdge => "FallingEdge"@,
            Trigger::Both => "Both"@,
        }
    }

    /// Returns the code of the trigger.
    pub fn bits(self) -> (code: u8)
        ensures
            code == self.spec_bits(),
    {
        match self {
            Trigger::Disabled => 0,
            Trigger::RisingEdge => 1,
            Trigger::FallingEdge => 2,
            Trigger::Both => 3,
        }
    }

    /// Returns the name of the trigger.
    pub fn to_string(&self) -> (s: String)
        ensures
            s@ == self.spec_name(),
    {
        match self {
            Trigger::Disabled => String::from_str("Disabled"),
            Trigger::RisingEdge => String::from_str("RisingEdge"),
            Trigger::FallingEdge => String::from_str("FallingEdge"),
            Trigger::Both => String::from_str("Both"),
        }
    }
}

} // verus!
