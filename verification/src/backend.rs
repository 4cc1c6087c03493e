//! The interface between the shared logic and the families: what a
//! backend must know of its family, and the contract that it meets.

use vstd::prelude::*;
use crate::bus::{bus_text, frequency_accepted, supports_bus};
use crate::emit::{initializer_view, mcu_input_text, mcu_output_text, spec_pin_initializer};
use crate::error::ConfigError;
use crate::esp32::Esp32;
use crate::nrf52::Nrf52;
use crate::pin::{is_mcu_pin_name, ChipFamily, PinRole, PinTokenView};
use crate::rp2040::Rp2040;
use crate::stm32::Stm32;

verus! {

/// The code generator of one family. Every family has one; the shared
/// logic reaches the family's code through this interface alone.
pub trait Backend {
    /// The family that the backend emits code for.
    spec fn family(&self) -> ChipFamily;

    /// The family that the backend emits code for.
    fn chip(&self) -> (chip: ChipFamily)
        ensures
            chip == self.family(),
    ;

    /// Whether the characters form a pin name of the family.
    fn is_pin_name(&self, name: &Vec<char>) -> (b: bool)
        ensures
            b == is_mcu_pin_name(self.family(), name@),
    ;

    /// The code that constructs an output on the named pin.
    fn output(&self, name: &str, active_low: bool) -> (code: String)
        ensures
            code@ == mcu_output_text(self.family(), name@, active_low),
    ;

    /// The code that constructs a plain input on the named pin.
    fn input(&self, name: &str, active_low: bool) -> (code: String)
        ensures
            code@ == mcu_input_text(self.family(), name@, active_low),
    ;

    /// The code that constructs an interrupt-capable input on the named
    /// pin, or the error of a pin without a wake source.
    fn interrupt_input(&self, name: &str, active_low: bool) -> (r: Result<String, ConfigError>)
        ensures
            initializer_view(r) == spec_pin_initializer(
                self.family(),
                PinTokenView::McuPin(name@),
                PinRole::InterruptInput,
                active_low,
            ),
    ;

    /// Whether the family accepts the bus frequency, in kilohertz.
    fn accepts_frequency(&self, khz: u32) -> (b: bool)
        ensures
            b == frequency_accepted(self.family(), khz),
    ;

    /// The code that binds the bus handle, if the family has the bus.
    fn bus(&self, sda: &str, scl: &str, khz: u32) -> (code: Option<String>)
        ensures
            code is Some <==> supports_bus(self.family()),
            code is Some ==> code->0@ == bus_text(self.family(), sda@, scl@, khz),
    ;
}

/// A family stands for its own backend. This is the one place where a
/// family is told from the others: a new family has to be given its
/// backend here, for every kind of code.
impl Backend for ChipFamily {
    open spec fn family(&self) -> ChipFamily {
        *self
    }

    fn chip(&self) -> (chip: ChipFamily) {
        *self
    }

    fn is_pin_name(&self, name: &Vec<char>) -> (b: bool) {
        match self {
            ChipFamily::Stm32 => Stm32.is_pin_name(name),
            ChipFamily::Nrf52 => Nrf52.is_pin_name(name),
            ChipFamily::Rp2040 => Rp2040.is_pin_name(name),
            ChipFamily::Esp32 => Esp32.is_pin_name(name),
        }
    }

    fn output(&self, name: &str, active_low: bool) -> (code: String) {
        match self {
            ChipFamily::Stm32 => Stm32.output(name, active_low),
            ChipFamily::Nrf52 => Nrf52.output(name, active_low),
            ChipFamily::Rp2040 => Rp2040.output(name, active_low),
            ChipFamily::Esp32 => Esp32.output(name, active_low),
        }
    }

    fn input(&self, name: &str, active_low: bool) -> (code: String) {
        match self {
            ChipFamily::Stm32 => Stm32.input(name, active_low),
            ChipFamily::Nrf52 => Nrf52.input(name, active_low),
            ChipFamily::Rp2040 => Rp2040.input(name, active_low),
            ChipFamily::Esp32 => Esp32.input(name, active_low),
        }
    }

    fn interrupt_input(&self, name: &str, active_low: bool) -> (r: Result<String, ConfigError>) {
        match self {
            ChipFamily::Stm32 => Stm32.interrupt_input(name, active_low),
            ChipFamily::Nrf52 => Nrf52.interrupt_input(name, active_low),
            ChipFamily::Rp2040 => Rp2040.interrupt_input(name, active_low),
            ChipFamily::Esp32 => Esp32.interrupt_input(name, active_low),
        }
    }

    fn accepts_frequency(&self, khz: u32) -> (b: bool) {
        match self {
            ChipFamily::Stm32 => Stm32.accepts_frequency(khz),
            ChipFamily::Nrf52 => Nrf52.accepts_frequency(khz),
            ChipFamily::Rp2040 => Rp2040.accepts_frequency(khz),
            ChipFamily::Esp32 => Esp32.accepts_frequency(khz),
        }
    }

    fn bus(&self, sda: &str, scl: &str, khz: u32) -> (code: Option<String>) {
        match self {
            ChipFamily::Stm32 => Stm32.bus(sda, scl, khz),
            ChipFamily::Nrf52 => Nrf52.bus(sda, scl, khz),
            ChipFamily::Rp2040 => Rp2040.bus(sda, scl, khz),
            ChipFamily::Esp32 => Esp32.bus(sda, scl, khz),
        }
    }
}

} // verus!
