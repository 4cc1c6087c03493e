//! The backend for STM32, on the embassy HAL.

use vstd::prelude::*;
use vstd::string::*;
use crate::backend::Backend;
use crate::emit::{
    exti_input_text, level_str, mcu_input_text, mcu_output_text, pull_str, wake_source,
};
use crate::error::ConfigError;
use crate::pin::ChipFamily;
use crate::text::{all_digits_from, push_decimal, to_chars};

verus! {

/// The STM32 backend.
#[derive(Clone, Copy, Debug)]
pub struct Stm32;

/// The number of the wake source line of an STM32 pin: for `PD13` it is
/// `13`. A name without a numeric suffix after its first two characters
/// has none.
pub fn get_pin_num_stm32(gpio_name: &str) -> (r: Option<String>)
    ensures
        match r {
            Some(line) => wake_source(gpio_name@) == Some(line@),
            None => wake_source(gpio_name@) is None,
        },
{
    let chars = to_chars(gpio_name);
    if chars.len() >= 3 && all_digits_from(&chars, 2) {
        let line = gpio_name.substring_char(2, chars.len());
        proof {
            assert(gpio_name@.subrange(2, chars@.len() as int) =~= gpio_name@.skip(2));
        }
        Some(String::from_str(line))
    } else {
        None
    }
}

impl Backend for Stm32 {
    open spec fn family(&self) -> ChipFamily {
        ChipFamily::Stm32
    }

    fn chip(&self) -> (chip: ChipFamily) {
        ChipFamily::Stm32
    }

    fn is_pin_name(&self, name: &Vec<char>) -> (b: bool) {
        name.len() >= 3 && name[0] == 'P' && 'A' <= name[1] && name[1] <= 'Z' && all_digits_from(
            name,
            2,
        )
    }

    fn output(&self, name: &str, active_low: bool) -> (code: String) {
        let mut code = String::from_str("::embassy_stm32::gpio::Output::new(p.");
        code.append(name);
        code.append(", ::embassy_stm32::gpio::Level::");
        code.append(level_str(active_low));
        code.append(", ::embassy_stm32::gpio::Speed::VeryHigh).degrade()");
        proof {
            assert(code@ =~= mcu_output_text(ChipFamily::Stm32, name@, active_low));
        }
        code
    }

    fn input(&self, name: &str, active_low: bool) -> (code: String) {
        let mut code = String::from_str("::embassy_stm32::gpio::Input::new(p.");
        code.append(name);
        code.append(", ::embassy_stm32::gpio::Pull::");
        code.append(pull_str(active_low));
        code.append(").degrade()");
        proof {
            assert(code@ =~= mcu_input_text(ChipFamily::Stm32, name@, active_low));
        }
        code
    }

    fn interrupt_input(&self, name: &str, active_low: bool) -> (r: Result<String, ConfigError>) {
        match get_pin_num_stm32(name) {
            Some(line) => {
                let mut code = String::from_str("::embassy_stm32::exti::ExtiInput::new(");
                code.append(self.input(name, active_low).as_str());
                code.append(", p.EXTI");
                code.append(line.as_str());
                code.append(".degrade())");
                proof {
                    assert(code@ == exti_input_text(name@, line@, active_low));
                }
                Ok(code)
            },
            None => Err(ConfigError::UnsupportedCapability(String::from_str(name))),
        }
    }

    fn accepts_frequency(&self, khz: u32) -> (b: bool) {
        khz <= 4_294_967
    }

    fn bus(&self, sda: &str, scl: &str, khz: u32) -> (code: Option<String>) {
        let mut code = String::from_str(
            "let mut i2c = ::embassy_stm32::i2c::I2c::new_blocking(p.I2C1, p.",
        );
        code.append(sda);
        code.append(", p.");
        code.append(scl);
        code.append(", ::embassy_stm32::time::Hertz(");
        push_decimal(&mut code, khz as u64);
        code.append("u32 * 1000), ::embassy_stm32::i2c::Config::default());\n");
        Some(code)
    }
}

} // verus!
