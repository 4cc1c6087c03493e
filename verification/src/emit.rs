//! What every backend emits: for each family, the code that constructs
//! one output or input pin; and the one driver call shared by all
//! families for a pin behind the expander.

use vstd::prelude::*;
use vstd::string::*;
use crate::backend::Backend;
use crate::error::{ConfigError, ConfigErrorView};
use crate::expander::{resolve, spec_resolve};
use crate::fragment::{diagnostic, diagnostic_of, CodeFragment, CodeFragmentView};
use crate::pin::{parse, spec_parse, Bank, ChipFamily, Pin, PinRole, PinToken, PinTokenView};
use crate::text::{all_digits, decimal, push_decimal};

verus! {

/// The idle level of an output: high when the wiring is active-low.
pub open spec fn level_name(active_low: bool) -> Seq<char> {
    if active_low {
        "High"@
    } else {
        "Low"@
    }
}

/// The pull of an input: up when the wiring is active-low.
pub open spec fn pull_name(active_low: bool) -> Seq<char> {
    if active_low {
        "Up"@
    } else {
        "Down"@
    }
}

/// The code of an output, up to the pin's name.
pub open spec fn output_head(chip: ChipFamily) -> Seq<char> {
    match chip {
        ChipFamily::Stm32 => "::embassy_stm32::gpio::Output::new(p."@,
        ChipFamily::Nrf52 => "::embassy_nrf::gpio::Output::new(::embassy_nrf::gpio::AnyPin::from(p."@,
        ChipFamily::Rp2040 => "::embassy_rp::gpio::Output::new(::embassy_rp::gpio::AnyPin::from(p."@,
        ChipFamily::Esp32 => "{ let mut pin = ::esp_idf_svc::hal::gpio::PinDriver::output(p.pins."@,
    }
}

/// The code of an output, after the pin's name.
pub open spec fn output_tail(chip: ChipFamily, active_low: bool) -> Seq<char> {
    match chip {
        ChipFamily::Stm32 => ", ::embassy_stm32::gpio::Level::"@ + level_name(active_low)
            + ", ::embassy_stm32::gpio::Speed::VeryHigh).degrade()"@,
        ChipFamily::Nrf52 => "), ::embassy_nrf::gpio::Level::"@ + level_name(active_low)
            + ", ::embassy_nrf::gpio::OutputDrive::Standard)"@,
        ChipFamily::Rp2040 => "), ::embassy_rp::gpio::Level::"@ + level_name(active_low) + ")"@,
        ChipFamily::Esp32 =>
            ".downgrade_output()).unwrap(); pin.set_level(::esp_idf_svc::hal::gpio::Level::"@
            + level_name(active_low) + ").unwrap(); pin }"@,
    }
}

/// The code of a plain input, up to the pin's name.
pub open spec fn input_head(chip: ChipFamily) -> Seq<char> {
    match chip {
        ChipFamily::Stm32 => "::embassy_stm32::gpio::Input::new(p."@,
        ChipFamily::Nrf52 => "::embassy_nrf::gpio::Input::new(::embassy_nrf::gpio::AnyPin::from(p."@,
        ChipFamily::Rp2040 => "::embassy_rp::gpio::Input::new(::embassy_rp::gpio::AnyPin::from(p."@,
        ChipFamily::Esp32 => "{ let mut pin = ::esp_idf_svc::hal::gpio::PinDriver::input(p.pins."@,
    }
}

/// The code of a plain input, after the pin's name.
pub open spec fn input_tail(chip: ChipFamily, active_low: bool) -> Seq<char> {
    match chip {
        ChipFamily::Stm32 => ", ::embassy_stm32::gpio::Pull::"@ + pull_name(active_low)
            + ").degrade()"@,
        ChipFamily::Nrf52 => "), ::embassy_nrf::gpio::Pull::"@ + pull_name(active_low) + ")"@,
        ChipFamily::Rp2040 => "), ::embassy_rp::gpio::Pull::"@ + pull_name(active_low) + ")"@,
        ChipFamily::Esp32 =>
            ".downgrade_input()).unwrap(); pin.set_pull(::esp_idf_svc::hal::gpio::Pull::"@
            + pull_name(active_low) + ").unwrap(); pin }"@,
    }
}

/// The code that constructs an output on a pin of the microcontroller.
pub open spec fn mcu_output_text(chip: ChipFamily, name: Seq<char>, active_low: bool) -> Seq<
    char,
> {
    output_head(chip) + name + output_tail(chip, active_low)
}

/// The code that constructs a plain input on a pin of the microcontroller.
pub open spec fn mcu_input_text(chip: ChipFamily, name: Seq<char>, active_low: bool) -> Seq<
    char,
> {
    input_head(chip) + name + input_tail(chip, active_low)
}

/// Whether the family has an input type of its own for edge-triggered
/// wake sources.
pub open spec fn has_wake_sources(chip: ChipFamily) -> bool {
    chip == ChipFamily::Stm32
}

/// The wake source of an STM32 pin: the line whose number is the pin's
/// numeric suffix, after the two characters of port prefix.
pub open spec fn wake_source(name: Seq<char>) -> Option<Seq<char>> {
    if name.len() >= 3 && all_digits(name.skip(2)) {
        Some(name.skip(2))
    } else {
        None
    }
}

/// The code that constructs an STM32 input together with its wake source.
pub open spec fn exti_input_text(name: Seq<char>, line: Seq<char>, active_low: bool) -> Seq<
    char,
> {
    "::embassy_stm32::exti::ExtiInput::new("@ + mcu_input_text(
        ChipFamily::Stm32,
        name,
        active_low,
    ) + ", p.EXTI"@ + line + ".degrade())"@
}

/// The letter of a bank.
pub open spec fn bank_name(bank: Bank) -> Seq<char> {
    match bank {
        Bank::A => "A"@,
        Bank::B => "B"@,
    }
}

/// The code that constructs the description of an expander pin from its
/// address, bank and index.
pub open spec fn expander_pin_text(pin: Pin) -> Seq<char> {
    "rmk::gpio::mcp230xx::Pin::new("@ + decimal(pin.addr as nat)
        + "u8, rmk::gpio::mcp230xx::Bank::"@ + bank_name(pin.bank) + ", "@ + decimal(
        pin.pin as nat,
    ) + "u8)"@
}

/// The driver call for a pin behind the expander. It is the same for
/// every family and every role.
pub open spec fn expander_text(pin: Pin) -> Seq<char> {
    "rmk::gpio::mcp230xx::Input::new(i2c, "@ + expander_pin_text(pin) + ").degrade()"@
}

/// The description of the expander pin that a string denotes, as code.
pub open spec fn spec_convert_mcp230xx_pin(raw: Seq<char>) -> Result<Seq<char>, ConfigErrorView> {
    match spec_resolve(raw) {
        Ok(pin) => Ok(expander_pin_text(pin)),
        Err(e) => Err(e),
    }
}

/// The error of a pin that cannot have the capability its role asks
/// for: an interrupt-capable input, on a family with wake sources, on a
/// pin that has none.
pub open spec fn capability_error(chip: ChipFamily, token: PinTokenView, role: PinRole) -> Option<
    ConfigErrorView,
> {
    match token {
        PinTokenView::McuPin(name) => if role == PinRole::InterruptInput && has_wake_sources(chip)
            && wake_source(name) is None {
            Some(ConfigErrorView::UnsupportedCapability(name))
        } else {
            None
        },
        _ => None,
    }
}

/// Why no code can be emitted for a single pin in a role, if so: the
/// absent marker stands for no pin, and a pin may lack the capability.
pub open spec fn pin_error(chip: ChipFamily, token: PinTokenView, role: PinRole) -> Option<
    ConfigErrorView,
> {
    if token is Absent {
        Some(ConfigErrorView::InvalidPlacement)
    } else {
        capability_error(chip, token, role)
    }
}

/// The code that constructs a pin in a role, where there is no
/// [`pin_error`].
pub open spec fn pin_text(
    chip: ChipFamily,
    token: PinTokenView,
    role: PinRole,
    active_low: bool,
) -> Seq<char> {
    match token {
        PinTokenView::Absent => Seq::empty(),
        PinTokenView::ExpanderPin { raw, pin } => expander_text(pin),
        PinTokenView::McuPin(name) => match role {
            PinRole::Output => mcu_output_text(chip, name, active_low),
            PinRole::Input => mcu_input_text(chip, name, active_low),
            PinRole::InterruptInput => if has_wake_sources(chip) {
                exti_input_text(name, name.skip(2), active_low)
            } else {
                mcu_input_text(chip, name, active_low)
            },
        },
    }
}

/// The initializer of a pin in a role, or the error that forbids it.
pub open spec fn spec_pin_initializer(
    chip: ChipFamily,
    token: PinTokenView,
    role: PinRole,
    active_low: bool,
) -> Result<Seq<char>, ConfigErrorView> {
    match pin_error(chip, token, role) {
        Some(e) => Err(e),
        None => Ok(pin_text(chip, token, role, active_low)),
    }
}

/// The fragment for a pin in a role: its initializer, or the diagnostic of
/// the error that forbids it.
pub open spec fn pin_fragment(
    chip: ChipFamily,
    token: PinTokenView,
    role: PinRole,
    active_low: bool,
) -> CodeFragmentView {
    match spec_pin_initializer(chip, token, role, active_low) {
        Ok(text) => CodeFragmentView::Code(text),
        Err(e) => diagnostic_of(e),
    }
}

/// The fragment for a pin string in a role: that of the token it parses
/// to, or the diagnostic of the parse error.
pub open spec fn gpio_str_fragment(
    chip: ChipFamily,
    raw: Seq<char>,
    role: PinRole,
    active_low: bool,
) -> CodeFragmentView {
    match spec_parse(chip, raw) {
        Ok(token) => pin_fragment(chip, token, role, active_low),
        Err(e) => diagnostic_of(e),
    }
}

/// Mathematical form of the result of [`pin_initializer`].
pub open spec fn initializer_view(r: Result<String, ConfigError>) -> Result<
    Seq<char>,
    ConfigErrorView,
> {
    match r {
        Ok(text) => Ok(text@),
        Err(e) => Err(e@),
    }
}

pub(crate) fn level_str(active_low: bool) -> (s: &'static str)
    ensures
        s@ == level_name(active_low),
{
    if active_low {
        "High"
    } else {
        "Low"
    }
}

pub(crate) fn pull_str(active_low: bool) -> (s: &'static str)
    ensures
        s@ == pull_name(active_low),
{
    if active_low {
        "Up"
    } else {
        "Down"
    }
}

fn bank_str(bank: Bank) -> (s: &'static str)
    ensures
        s@ == bank_name(bank),
{
    match bank {
        Bank::A => "A",
        Bank::B => "B",
    }
}

/// Emits the code that constructs the description of an expander pin.
pub fn emit_expander_pin(pin: &Pin) -> (s: String)
    ensures
        s@ == expander_pin_text(*pin),
{
    let mut s = String::from_str("rmk::gpio::mcp230xx::Pin::new(");
    push_decimal(&mut s, pin.addr as u64);
    s.append("u8, rmk::gpio::mcp230xx::Bank::");
    s.append(bank_str(pin.bank));
    s.append(", ");
    push_decimal(&mut s, pin.pin as u64);
    s.append("u8)");
    s
}

/// Emits the driver call for a pin behind the expander.
pub fn emit_expander(pin: &Pin) -> (s: String)
    ensures
        s@ == expander_text(*pin),
{
    let mut s = String::from_str("rmk::gpio::mcp230xx::Input::new(i2c, ");
    s.append(emit_expander_pin(pin).as_str());
    s.append(").degrade()");
    s
}

/// Resolves an expander pin string such as `MI20_A2` and emits the code
/// that constructs the pin's description.
pub fn convert_gpio_str_to_mcp230xx_pin(gpio_name: &str) -> (r: Result<String, ConfigError>)
    ensures
        initializer_view(r) == spec_convert_mcp230xx_pin(gpio_name@),
{
    match resolve(gpio_name) {
        Ok(pin) => Ok(emit_expander_pin(&pin)),
        Err(e) => Err(e),
    }
}

/// The initializer of a pin in a role, from the backend of a family.
///
/// An expander pin gets the shared driver call, whatever the family. An
/// interrupt-capable input gets the family's wake-source input where the
/// family has one, and its only input type where it has none. The absent
/// marker, and an interrupt-capable input on a pin without a wake source,
/// are errors.
pub fn pin_initializer_with<B: Backend>(
    backend: &B,
    pin: &PinToken,
    role: PinRole,
    active_low: bool,
) -> (r: Result<String, ConfigError>)
    ensures
        initializer_view(r) == spec_pin_initializer(backend.family(), pin@, role, active_low),
{
    match pin {
        PinToken::Absent => Err(ConfigError::InvalidPlacement),
        PinToken::ExpanderPin { raw, pin: expander_pin } => Ok(emit_expander(expander_pin)),
        PinToken::McuPin(name) => match role {
            PinRole::Output => Ok(backend.output(name.as_str(), active_low)),
            PinRole::Input => Ok(backend.input(name.as_str(), active_low)),
            PinRole::InterruptInput => backend.interrupt_input(name.as_str(), active_low),
        },
    }
}

/// The initializer of a pin in a role, for the given family.
pub fn pin_initializer(chip: ChipFamily, pin: &PinToken, role: PinRole, active_low: bool) -> (r:
    Result<String, ConfigError>)
    ensures
        initializer_view(r) == spec_pin_initializer(chip, pin@, role, active_low),
{
    pin_initializer_with(&chip, pin, role, active_low)
}

fn to_fragment(r: Result<String, ConfigError>) -> (f: CodeFragment)
    ensures
        f@ == match initializer_view(r) {
            Ok(text) => CodeFragmentView::Code(text),
            Err(e) => diagnostic_of(e),
        },
{
    match r {
        Ok(text) => CodeFragment::Code(text),
        Err(e) => diagnostic(&e),
    }
}

/// Emits the code that constructs an output pin. The idle level is high
/// when `active_low` is set and low otherwise.
pub fn emit_output(chip: ChipFamily, pin: &PinToken, active_low: bool) -> (f: CodeFragment)
    ensures
        f@ == pin_fragment(chip, pin@, PinRole::Output, active_low),
{
    to_fragment(pin_initializer(chip, pin, PinRole::Output, active_low))
}

/// Emits the code that constructs a pin in the given role; for the two
/// input roles the pull is up when `active_low` is set and down otherwise.
pub fn emit_input(chip: ChipFamily, pin: &PinToken, role: PinRole, active_low: bool) -> (f:
    CodeFragment)
    ensures
        f@ == pin_fragment(chip, pin@, role, active_low),
{
    to_fragment(pin_initializer(chip, pin, role, active_low))
}

/// Parses a pin string and emits the code of an output on it.
pub fn convert_gpio_str_to_output_pin(chip: ChipFamily, gpio_name: &str, low_active: bool) -> (f:
    CodeFragment)
    ensures
        f@ == gpio_str_fragment(chip, gpio_name@, PinRole::Output, low_active),
{
    match parse(chip, gpio_name) {
        Ok(token) => emit_output(chip, &token, low_active),
        Err(e) => diagnostic(&e),
    }
}

/// Parses a pin string and emits the code of an input on it, with a wake
/// source if `async_matrix` is set.
pub fn convert_gpio_str_to_input_pin(
    chip: ChipFamily,
    gpio_name: &str,
    async_matrix: bool,
    low_active: bool,
) -> (f: CodeFragment)
    ensures
        f@ == gpio_str_fragment(chip, gpio_name@, input_role(async_matrix), low_active),
{
    match parse(chip, gpio_name) {
        Ok(token) => emit_input(chip, &token, role_of_input(async_matrix), low_active),
        Err(e) => diagnostic(&e),
    }
}

/// The role of an input pin of a matrix.
pub open spec fn input_role(interrupt_capable: bool) -> PinRole {
    if interrupt_capable {
        PinRole::InterruptInput
    } else {
        PinRole::Input
    }
}

/// The role of an input pin of a matrix.
pub fn role_of_input(interrupt_capable: bool) -> (role: PinRole)
    ensures
        role == input_role(interrupt_capable),
{
    if interrupt_capable {
        PinRole::InterruptInput
    } else {
        PinRole::Input
    }
}

} // verus!
