//! The backend for nRF52, on the embassy HAL.

use vstd::prelude::*;
use vstd::string::*;
use crate::backend::Backend;
use crate::emit::{level_str, mcu_input_text, mcu_output_text, pull_str};
use crate::error::ConfigError;
use crate::pin::ChipFamily;
use crate::text::{is_digit, push_decimal};

verus! {

/// The nRF52 backend.
#[derive(Clone, Copy, Debug)]
pub struct Nrf52;

fn is_ascii_digit(c: char) -> (b: bool)
    ensures
        b == is_digit(c),
{
    '0' <= c && c <= '9'
}

impl Backend for Nrf52 {
    open spec fn family(&self) -> ChipFamily {
        ChipFamily::Nrf52
    }

    fn chip(&self) -> (chip: ChipFamily) {
        ChipFamily::Nrf52
    }

    fn is_pin_name(&self, name: &Vec<char>) -> (b: bool) {
        name.len() == 5 && name[0] == 'P' && is_ascii_digit(name[1]) && name[2] == '_'
            && is_ascii_digit(name[3]) && is_ascii_digit(name[4])
    }

    fn output(&self, name: &str, active_low: bool) -> (code: String) {
        let mut code = String::from_str(
            "::embassy_nrf::gpio::Output::new(::embassy_nrf::gpio::AnyPin::from(p.",
        );
        code.append(name);
        code.append("), ::embassy_nrf::gpio::Level::");
        code.append(level_str(active_low));
        code.append(", ::embassy_nrf::gpio::OutputDrive::Standard)");
        proof {
            assert(code@ =~= mcu_output_text(ChipFamily::Nrf52, name@, active_low));
        }
        code
    }

    fn input(&self, name: &str, active_low: bool) -> (code: String) {
        let mut code = String::from_str(
            "::embassy_nrf::gpio::Input::new(::embassy_nrf::gpio::AnyPin::from(p.",
        );
        code.append(name);
        code.append("), ::embassy_nrf::gpio::Pull::");
        code.append(pull_str(active_low));
        code.append(")");
        proof {
            assert(code@ =~= mcu_input_text(ChipFamily::Nrf52, name@, active_low));
        }
        code
    }

    fn interrupt_input(&self, name: &str, active_low: bool) -> (r: Result<String, ConfigError>) {
        Ok(self.input(name, active_low))
    }

    fn accepts_frequency(&self, khz: u32) -> (b: bool) {
        khz == 100 || khz == 250 || khz == 400
    }

    fn bus(&self, sda: &str, scl: &str, khz: u32) -> (code: Option<String>) {
        let mut code = String::from_str(
            "let mut i2c = {\n    let mut config = ::embassy_nrf::twim::Config::default();\n    config.frequency = ::embassy_nrf::twim::Frequency::K",
        );
        push_decimal(&mut code, khz as u64);
        code.append(
            ";\n    ::defmt::info!(\"I2C initialized\");\n    ::embassy_nrf::twim::Twim::new(p.TWISPI0, Irqs, p.",
        );
        code.append(sda);
        code.append(", p.");
        code.append(scl);
        code.append(
            ", config)\n};\n::embassy_nrf::interrupt::SPIM0_SPIS0_TWIM0_TWIS0_SPI0_TWI0.set_priority(::embassy_nrf::interrupt::Priority::P2);\n",
        );
        Some(code)
    }
}

} // verus!
