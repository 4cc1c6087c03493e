//! The I2C bus: its configuration, the frequencies each family accepts,
//! and the code that brings up the bus and the expander behind it.

use vstd::prelude::*;
use vstd::string::*;
use crate::backend::Backend;
use crate::error::{ConfigError, ConfigErrorView};
use crate::fragment::{CodeFragment, CodeFragmentView};
use crate::matrix::emitted_view;
use crate::pin::{is_mcu_pin_name, ChipFamily};
use crate::text::{decimal, to_chars};

verus! {

/// The I2C bus of a board.
#[derive(Clone, Debug, PartialEq, Eq)]
pub struct BusConfig {
    /// Whether the board uses the bus at all.
    pub enabled: bool,
    /// The clock frequency in kilohertz; the family's default if absent.
    pub freq_khz: Option<u32>,
    /// Whether a GPIO expander is attached to the bus.
    pub expander: bool,
    /// The data pin.
    pub sda: String,
    /// The clock pin.
    pub scl: String,
}

/// Mathematical form of a [`BusConfig`].
pub struct BusConfigView {
    pub enabled: bool,
    pub freq_khz: Option<u32>,
    pub expander: bool,
    pub sda: Seq<char>,
    pub scl: Seq<char>,
}

impl View for BusConfig {
    type V = BusConfigView;

    open spec fn view(&self) -> BusConfigView {
        BusConfigView {
            enabled: self.enabled,
            freq_khz: self.freq_khz,
            expander: self.expander,
            sda: self.sda@,
            scl: self.scl@,
        }
    }
}

/// Whether the family has an I2C bus that this library can set up.
pub open spec fn supports_bus(chip: ChipFamily) -> bool {
    chip != ChipFamily::Esp32
}

/// The frequency, in kilohertz, used where the configuration names none.
pub open spec fn default_khz() -> u32 {
    100
}

/// The frequencies, in kilohertz, that a family accepts: 100, 250 and 400
/// on nRF52; on STM32 and RP2040 every value whose thousandfold, the
/// frequency in hertz, fits in 32 bits.
pub open spec fn frequency_accepted(chip: ChipFamily, khz: u32) -> bool {
    match chip {
        ChipFamily::Nrf52 => khz == 100 || khz == 250 || khz == 400,
        ChipFamily::Stm32 | ChipFamily::Rp2040 => khz * 1000 <= u32::MAX,
        ChipFamily::Esp32 => false,
    }
}

/// The frequency that the bus will run at.
pub open spec fn effective_khz(config: BusConfigView) -> u32 {
    match config.freq_khz {
        Some(khz) => khz,
        None => default_khz(),
    }
}

/// Why an enabled bus on a family that has one cannot be set up, if so.
/// The frequency is looked at first: if one is given, the family must
/// accept it. After it the data pin, then the clock pin, must be pins of
/// the family.
pub open spec fn bus_error(chip: ChipFamily, config: BusConfigView) -> Option<ConfigErrorView> {
    if config.freq_khz is Some && !frequency_accepted(chip, config.freq_khz->0) {
        Some(ConfigErrorView::InvalidFrequency(config.freq_khz->0))
    } else if !is_mcu_pin_name(chip, config.sda) {
        Some(ConfigErrorView::UnknownPin(config.sda))
    } else if !is_mcu_pin_name(chip, config.scl) {
        Some(ConfigErrorView::UnknownPin(config.scl))
    } else {
        None
    }
}

/// The code that binds the bus handle `i2c`.
pub open spec fn bus_text(chip: ChipFamily, sda: Seq<char>, scl: Seq<char>, khz: u32) -> Seq<char> {
    match chip {
        ChipFamily::Nrf52 =>
            "let mut i2c = {\n    let mut config = ::embassy_nrf::twim::Config::default();\n    config.frequency = ::embassy_nrf::twim::Frequency::K"@
            + decimal(khz as nat)
            + ";\n    ::defmt::info!(\"I2C initialized\");\n    ::embassy_nrf::twim::Twim::new(p.TWISPI0, Irqs, p."@
            + sda + ", p."@ + scl
            + ", config)\n};\n::embassy_nrf::interrupt::SPIM0_SPIS0_TWIM0_TWIS0_SPI0_TWI0.set_priority(::embassy_nrf::interrupt::Priority::P2);\n"@,
        ChipFamily::Rp2040 =>
            "let mut i2c = {\n    let mut config = ::embassy_rp::i2c::Config::default();\n    config.frequency = "@
            + decimal(khz as nat)
            + "u32 * 1000;\n    ::embassy_rp::i2c::I2c::new_blocking(p.I2C0, p."@ + sda + ", p."@
            + scl + ", config)\n};\n"@,
        ChipFamily::Stm32 => "let mut i2c = ::embassy_stm32::i2c::I2c::new_blocking(p.I2C1, p."@
            + sda + ", p."@ + scl + ", ::embassy_stm32::time::Hertz("@ + decimal(khz as nat)
            + "u32 * 1000), ::embassy_stm32::i2c::Config::default());\n"@,
        ChipFamily::Esp32 => Seq::empty(),
    }
}

/// The code that brings up the expander on the bus `i2c`.
pub open spec fn expander_bringup_text() -> Seq<char> {
    "let mut mcp23x17 = port_expander::Mcp23x17::new_mcp23017(i2c, false, false, false);\nlet ge = mcp23x17.split();\n::defmt::info!(\"MCP23017 initialized\");\n"@
}

/// The bus setup alone: nothing for a disabled bus, the "unsupported"
/// fragment on a family without the bus, else the bus handle or the error
/// that forbids it.
pub open spec fn spec_build_i2c_config(chip: ChipFamily, config: BusConfigView) -> Result<
    CodeFragmentView,
    ConfigErrorView,
> {
    if !config.enabled {
        Ok(CodeFragmentView::Code(Seq::empty()))
    } else if !supports_bus(chip) {
        Ok(CodeFragmentView::Unsupported)
    } else {
        match bus_error(chip, config) {
            Some(e) => Err(e),
            None => Ok(
                CodeFragmentView::Code(
                    bus_text(chip, config.sda, config.scl, effective_khz(config)),
                ),
            ),
        }
    }
}

/// The expander bring-up: code only where the bus is enabled and an
/// expander is attached.
pub open spec fn spec_i2c_gpio_expander(config: BusConfigView) -> Seq<char> {
    if config.enabled && config.expander {
        expander_bringup_text()
    } else {
        Seq::empty()
    }
}

/// The whole bus fragment: the bus setup, and after it the expander
/// bring-up where there is a bus handle to bring it up on.
pub open spec fn spec_build(chip: ChipFamily, config: BusConfigView) -> Result<
    CodeFragmentView,
    ConfigErrorView,
> {
    match spec_build_i2c_config(chip, config) {
        Ok(CodeFragmentView::Code(bus)) => Ok(
            CodeFragmentView::Code(bus + spec_i2c_gpio_expander(config)),
        ),
        other => other,
    }
}

/// Whether the family accepts the frequency, in kilohertz.
pub fn check_frequency(chip: ChipFamily, khz: u32) -> (b: bool)
    ensures
        b == frequency_accepted(chip, khz),
{
    chip.accepts_frequency(khz)
}

fn check_bus<B: Backend>(backend: &B, config: &BusConfig) -> (r: Result<(), ConfigError>)
    ensures
        match r {
            Ok(_) => bus_error(backend.family(), config@) is None,
            Err(e) => bus_error(backend.family(), config@) == Some(e@),
        },
{
    match config.freq_khz {
        Some(khz) => if !backend.accepts_frequency(khz) {
            return Err(ConfigError::InvalidFrequency(khz));
        },
        None => {},
    }
    if !backend.is_pin_name(&to_chars(config.sda.as_str())) {
        return Err(ConfigError::UnknownPin(config.sda.clone()));
    }
    if !backend.is_pin_name(&to_chars(config.scl.as_str())) {
        return Err(ConfigError::UnknownPin(config.scl.clone()));
    }
    Ok(())
}

/// Builds the setup of the I2C bus alone, from the backend of a family.
///
/// A disabled bus gives the empty fragment. A family without the bus
/// gives the "unsupported" fragment. Otherwise the frequency must be one
/// that the family accepts, and the data and clock pins must be pins of
/// the family; where the configuration names no frequency, the bus runs
/// at the default.
pub fn build_i2c_config_with<B: Backend>(backend: &B, gpio_config: &BusConfig) -> (r: Result<
    CodeFragment,
    ConfigError,
>)
    ensures
        emitted_view(r) == spec_build_i2c_config(backend.family(), gpio_config@),
{
    if !gpio_config.enabled {
        return Ok(CodeFragment::empty());
    }
    let khz: u32 = match gpio_config.freq_khz {
        Some(khz) => khz,
        None => 100,
    };
    match backend.bus(gpio_config.sda.as_str(), gpio_config.scl.as_str(), khz) {
        None => Ok(CodeFragment::Unsupported),
        Some(code) => match check_bus(backend, gpio_config) {
            Err(e) => Err(e),
            Ok(_) => Ok(CodeFragment::Code(code)),
        },
    }
}

/// Builds the setup of the I2C bus alone, for the given family.
pub fn build_i2c_config(chip: ChipFamily, gpio_config: &BusConfig) -> (r: Result<
    CodeFragment,
    ConfigError,
>)
    ensures
        emitted_view(r) == spec_build_i2c_config(chip, gpio_config@),
{
    build_i2c_config_with(&chip, gpio_config)
}

/// Emits the bring-up of the GPIO expander, where the bus is enabled and
/// an expander is attached to it; else nothing.
pub fn i2c_gpio_expander(gpio_config: &BusConfig) -> (text: String)
    ensures
        text@ == spec_i2c_gpio_expander(gpio_config@),
{
    if gpio_config.enabled && gpio_config.expander {
        String::from_str(
            "let mut mcp23x17 = port_expander::Mcp23x17::new_mcp23017(i2c, false, false, false);\nlet ge = mcp23x17.split();\n::defmt::info!(\"MCP23017 initialized\");\n",
        )
    } else {
        String::new()
    }
}

/// Builds the bus fragment of a board: the bus setup and, after it, the
/// bring-up of the expander that depends on it.
pub fn build(chip: ChipFamily, config: &BusConfig) -> (r: Result<CodeFragment, ConfigError>)
    ensures
        emitted_view(r) == spec_build(chip, config@),
{
    match build_i2c_config(chip, config) {
        Ok(CodeFragment::Code(bus)) => {
            let mut text = bus;
            text.append(i2c_gpio_expander(config).as_str());
            Ok(CodeFragment::Code(text))
        },
        other => other,
    }
}

} // verus!
