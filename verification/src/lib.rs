//! Board configuration compiler: turns a chip-agnostic description of a
//! board's pins and I2C bus into the initialization code of one
//! microcontroller family.
//!
//! - [`pin`] and [`expander`] parse pin strings into tokens;
//! - [`backend`] is the interface of a family's code generator, with one
//!   implementation each in [`stm32`], [`nrf52`], [`rp2040`] and
//!   [`esp32`];
//! - [`emit`], [`matrix`] and [`direct`] emit single pins, row/column
//!   matrices and direct pin matrices;
//! - [`bus`] sets up the I2C bus and the expander behind it;
//! - [`unit`] generates the whole unit of a board, and [`fragment`] and
//!   [`error`] say how a failure is reported at the firmware's build;
//! - [`laws`] proves what holds of all of them together.

pub mod text;
pub mod error;
pub mod fragment;
pub mod pin;
pub mod expander;
pub mod backend;
pub mod stm32;
pub mod nrf52;
pub mod rp2040;
pub mod esp32;
pub mod emit;
pub mod matrix;
pub mod direct;
pub mod bus;
pub mod unit;
pub mod laws;
