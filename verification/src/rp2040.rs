//! The backend for RP2040, on the embassy HAL.

use vstd::prelude::*;
use vstd::string::*;
use crate::backend::Backend;
use crate::emit::{level_str, mcu_input_text, mcu_output_text, pull_str};
use crate::error::ConfigError;
use crate::pin::ChipFamily;
use crate::text::{all_digits_from, push_decimal};

verus! {

/// The RP2040 backend.
#[derive(Clone, Copy, Debug)]
pub struct Rp2040;

impl Backend for Rp2040 {
    open spec fn family(&self) -> ChipFamily {
        ChipFamily::Rp2040
    }

    fn chip(&self) -> (chip: ChipFamily) {
        ChipFamily::Rp2040
    }

    fn is_pin_name(&self, name: &Vec<char>) -> (b: bool) {
        name.len() >= 5 && name[0] == 'P' && name[1] == 'I' && name[2] == 'N' && name[3] == '_'
            && all_digits_from(name, 4)
    }

    fn output(&self, name: &str, active_low: bool) -> (code: String) {
        let mut code = String::from_str(
            "::embassy_rp::gpio::Output::new(::embassy_rp::gpio::AnyPin::from(p.",
        );
        code.append(name);
        code.append("), ::embassy_rp::gpio::Level::");
        code.append(level_str(active_low));
        code.append(")");
        proof {
            assert(code@ =~= mcu_output_text(ChipFamily::Rp2040, name@, active_low));
        }
        code
    }

    fn input(&self, name: &str, active_low: bool) -> (code: String) {
        let mut code = String::from_str(
            "::embassy_rp::gpio::Input::new(::embassy_rp::gpio::AnyPin::from(p.",
        );
        code.append(name);
        code.append("), ::embassy_rp::gpio::Pull::");
        code.append(pull_str(active_low));
        code.append(")");
        proof {
            assert(code@ =~= mcu_input_text(ChipFamily::Rp2040, name@, active_low));
        }
        code
    }

    fn interrupt_input(&self, name: &str, active_low: bool) -> (r: Result<String, ConfigError>) {
        Ok(self.input(name, active_low))
    }

    fn accepts_frequency(&self, khz: u32) -> (b: bool) {
        khz <= 4_294_967
    }

    fn bus(&self, sda: &str, scl: &str, khz: u32) -> (code: Option<String>) {
        let mut code = String::from_str(
            "let mut i2c = {\n    let mut config = ::embassy_rp::i2c::Config::default();\n    config.frequency = ",
        );
        push_decimal(&mut code, khz as u64);
        code.append("u32 * 1000;\n    ::embassy_rp::i2c::I2c::new_blocking(p.I2C0, p.");
        code.append(sda);
        code.append(", p.");
        code.append(scl);
        code.append(", config)\n};\n");
        Some(code)
    }
}

} // verus!
