//! The backend for ESP32, on the ESP-IDF HAL. The family has one input
//! type and no I2C bus that this library sets up. Its pin drivers take no
//! level or pull at construction, so each pin is constructed in a block
//! that sets the idle level, or the pull, before it hands the pin on.

use vstd::prelude::*;
use vstd::string::*;
use crate::backend::Backend;
use crate::emit::{level_str, mcu_input_text, mcu_output_text, pull_str};
use crate::error::ConfigError;
use crate::pin::ChipFamily;
use crate::text::all_digits_from;

verus! {

/// The ESP32 backend.
#[derive(Clone, Copy, Debug)]
pub struct Esp32;

impl Backend for Esp32 {
    open spec fn family(&self) -> ChipFamily {
        ChipFamily::Esp32
    }

    fn chip(&self) -> (chip: ChipFamily) {
        ChipFamily::Esp32
    }

    fn is_pin_name(&self, name: &Vec<char>) -> (b: bool) {
        name.len() >= 5 && name[0] == 'g' && name[1] == 'p' && name[2] == 'i' && name[3] == 'o'
            && all_digits_from(name, 4)
    }

    fn output(&self, name: &str, active_low: bool) -> (code: String) {
        let mut code = String::from_str(
            "{ let mut pin = ::esp_idf_svc::hal::gpio::PinDriver::output(p.pins.",
        );
        code.append(name);
        code.append(
            ".downgrade_output()).unwrap(); pin.set_level(::esp_idf_svc::hal::gpio::Level::",
        );
        code.append(level_str(active_low));
        code.append(").unwrap(); pin }");
        proof {
            assert(code@ =~= mcu_output_text(ChipFamily::Esp32, name@, active_low));
        }
        code
    }

    fn input(&self, name: &str, active_low: bool) -> (code: String) {
        let mut code = String::from_str(
            "{ let mut pin = ::esp_idf_svc::hal::gpio::PinDriver::input(p.pins.",
        );
        code.append(name);
        code.append(
            ".downgrade_input()).unwrap(); pin.set_pull(::esp_idf_svc::hal::gpio::Pull::",
        );
        code.append(pull_str(active_low));
        code.append(").unwrap(); pin }");
        proof {
            assert(code@ =~= mcu_input_text(ChipFamily::Esp32, name@, active_low));
        }
        code
    }

    fn interrupt_input(&self, name: &str, active_low: bool) -> (r: Result<String, ConfigError>) {
        Ok(self.input(name, active_low))
    }

    fn accepts_frequency(&self, khz: u32) -> (b: bool) {
        false
    }

    fn bus(&self, sda: &str, scl: &str, khz: u32) -> (code: Option<String>) {
        None
    }
}

} // verus!
