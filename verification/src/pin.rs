//! The vocabulary of pin specifications: microcontroller pins, pins behind
//! an I2C GPIO expander, and the absent-pin marker.

use vstd::prelude::*;
use vstd::string::*;
use crate::backend::Backend;
use crate::error::{ConfigError, ConfigErrorView};
use crate::expander::{has_expander_prefix, resolve_chars, spec_resolve};
use crate::text::{all_digits, is_digit, is_upper, to_chars};

verus! {

/// The supported microcontroller families.
#[derive(Clone, Copy, Debug, PartialEq, Eq, Structural)]
pub enum ChipFamily {
    Stm32,
    Nrf52,
    Rp2040,
    Esp32,
}

/// One of the two 8-pin groups of a 16-pin expander.
#[derive(Clone, Copy, Debug, PartialEq, Eq, Structural)]
pub enum Bank {
    A,
    B,
}

/// A pin of an I2C GPIO expander: the chip's bus address, the bank, and
/// the pin's index within the bank.
#[derive(Clone, Copy, Debug, PartialEq, Eq, Structural)]
pub struct Pin {
    pub addr: u8,
    pub bank: Bank,
    pub pin: u8,
}

/// What a pin is used for.
#[derive(Clone, Copy, Debug, PartialEq, Eq, Structural)]
pub enum PinRole {
    Output,
    Input,
    /// An input that also exposes an edge-triggered wake source.
    InterruptInput,
}

/// One parsed pin entry of a configuration.
#[derive(Clone, Debug, PartialEq, Eq)]
pub enum PinToken {
    /// A pin of the microcontroller itself, by its name.
    McuPin(String),
    /// A pin reached through an I2C GPIO expander: the string as it was
    /// written, and the pin that it resolves to.
    ExpanderPin { raw: String, pin: Pin },
    /// No pin at this place; meaningful only in a direct pin matrix.
    Absent,
}

/// Mathematical form of a [`PinToken`].
pub enum PinTokenView {
    McuPin(Seq<char>),
    ExpanderPin { raw: Seq<char>, pin: Pin },
    Absent,
}

impl View for PinToken {
    type V = PinTokenView;

    open spec fn view(&self) -> PinTokenView {
        match self {
            PinToken::McuPin(name) => PinTokenView::McuPin(name@),
            PinToken::ExpanderPin { raw, pin } => PinTokenView::ExpanderPin { raw: raw@, pin: *pin },
            PinToken::Absent => PinTokenView::Absent,
        }
    }
}

/// Position of a bank's first pin in the expander's 0-15 numbering.
pub open spec fn bank_offset(bank: Bank) -> int {
    match bank {
        Bank::A => 0,
        Bank::B => 8,
    }
}

impl Pin {
    /// The pin at index `pin` of bank `bank` of the expander at bus
    /// address `addr`.
    pub fn new(addr: u8, bank: Bank, pin: u8) -> (p: Pin)
        ensures
            p == (Pin { addr, bank, pin }),
    {
        Pin { addr, bank, pin }
    }

    /// The index lies within the bank, so the pin has a number from 0 to 15.
    pub open spec fn in_range(&self) -> bool {
        self.pin <= 7
    }

    /// The pin's number among the 16 pins of its expander.
    pub open spec fn number(&self) -> int {
        bank_offset(self.bank) + self.pin
    }

    /// Whether the index lies within the bank.
    pub fn is_in_range(&self) -> (b: bool)
        ensures
            b == self.in_range(),
    {
        self.pin <= 7
    }
}

/// The number of a pin as the expander's driver takes it, bank offset plus
/// index, whatever the index; none where the sum does not fit in eight
/// bits.
pub fn checked_pin_number(pin: &Pin) -> (n: Option<u8>)
    ensures
        n is Some <==> pin.number() <= 255,
        n is Some ==> n->0 == pin.number(),
{
    match pin.bank {
        Bank::A => Some(pin.pin),
        Bank::B => pin.pin.checked_add(8),
    }
}

/// The number, from 0 to 15, of a pin among the 16 pins of its expander:
/// bank A holds 0 to 7, bank B holds 8 to 15.
pub fn pin_number(pin: &Pin) -> (n: u8)
    requires
        pin.in_range(),
    ensures
        n == pin.number(),
        n <= 15,
{
    match pin.bank {
        Bank::A => pin.pin,
        Bank::B => pin.pin + 8,
    }
}

/// The text of the absent-pin marker.
pub open spec fn absent_marker() -> Seq<char> {
    seq!['_']
}

/// The text that a token was written as.
pub open spec fn token_text(token: PinTokenView) -> Seq<char> {
    match token {
        PinTokenView::McuPin(name) => name,
        PinTokenView::ExpanderPin { raw, pin } => raw,
        PinTokenView::Absent => absent_marker(),
    }
}

/// The pin names of each family: a port part and a decimal index.
///
/// - STM32: `P`, a port letter, the index (`PA0`, `PD13`);
/// - nRF52: `P`, the port digit, `_`, a two-digit index (`P0_05`);
/// - RP2040: `PIN_` and the index (`PIN_12`);
/// - ESP32: `gpio` and the index (`gpio4`).
pub open spec fn is_mcu_pin_name(chip: ChipFamily, s: Seq<char>) -> bool {
    match chip {
        ChipFamily::Stm32 => {
            &&& s.len() >= 3
            &&& s[0] == 'P'
            &&& is_upper(s[1])
            &&& all_digits(s.skip(2))
        },
        ChipFamily::Nrf52 => {
            &&& s.len() == 5
            &&& s[0] == 'P'
            &&& is_digit(s[1])
            &&& s[2] == '_'
            &&& is_digit(s[3])
            &&& is_digit(s[4])
        },
        ChipFamily::Rp2040 => {
            &&& s.len() >= 5
            &&& s[0] == 'P'
            &&& s[1] == 'I'
            &&& s[2] == 'N'
            &&& s[3] == '_'
            &&& all_digits(s.skip(4))
        },
        ChipFamily::Esp32 => {
            &&& s.len() >= 5
            &&& s[0] == 'g'
            &&& s[1] == 'p'
            &&& s[2] == 'i'
            &&& s[3] == 'o'
            &&& all_digits(s.skip(4))
        },
    }
}

/// What a pin string means for a family.
pub open spec fn spec_parse(chip: ChipFamily, raw: Seq<char>) -> Result<
    PinTokenView,
    ConfigErrorView,
> {
    if raw == absent_marker() {
        Ok(PinTokenView::Absent)
    } else if has_expander_prefix(raw) {
        match spec_resolve(raw) {
            Ok(pin) => Ok(PinTokenView::ExpanderPin { raw, pin }),
            Err(e) => Err(e),
        }
    } else if is_mcu_pin_name(chip, raw) {
        Ok(PinTokenView::McuPin(raw))
    } else {
        Err(ConfigErrorView::UnknownPin(raw))
    }
}

/// Mathematical form of the result of [`parse`].
pub open spec fn parsed_view(r: Result<PinToken, ConfigError>) -> Result<
    PinTokenView,
    ConfigErrorView,
> {
    match r {
        Ok(token) => Ok(token@),
        Err(e) => Err(e@),
    }
}

/// Whether the characters form a pin name of the family.
pub fn check_mcu_pin_name(chip: ChipFamily, s: &Vec<char>) -> (b: bool)
    ensures
        b == is_mcu_pin_name(chip, s@),
{
    chip.is_pin_name(s)
}

/// Parses one pin entry of a configuration for the given family.
///
/// `_` is the absent-pin marker. A string that begins with the expander
/// prefix `MI` must be an expander pin. Any other string must be a pin
/// name of the family.
pub fn parse(chip: ChipFamily, raw: &str) -> (r: Result<PinToken, ConfigError>)
    ensures
        parsed_view(r) == spec_parse(chip, raw@),
{
    let chars = to_chars(raw);
    if chars.len() == 1 && chars[0] == '_' {
        proof {
            assert(raw@ =~= absent_marker());
        }
        Ok(PinToken::Absent)
    } else if chars.len() >= 2 && chars[0] == 'M' && chars[1] == 'I' {
        match resolve_chars(&chars) {
            Some(pin) => Ok(PinToken::ExpanderPin { raw: String::from_str(raw), pin }),
            None => Err(ConfigError::InvalidExpanderPin(String::from_str(raw))),
        }
    } else if check_mcu_pin_name(chip, &chars) {
        Ok(PinToken::McuPin(String::from_str(raw)))
    } else {
        Err(ConfigError::UnknownPin(String::from_str(raw)))
    }
}

} // verus!
