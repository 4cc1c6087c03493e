//! Configuration errors and the messages they are reported with.

use vstd::prelude::*;
use vstd::string::*;
use crate::text::{decimal, push_decimal};

verus! {

/// Why a configuration was refused. Every error ends the generation run.
#[derive(Clone, Debug, PartialEq, Eq)]
pub enum ConfigError {
    /// The string is no pin name of the target family.
    UnknownPin(String),
    /// The absent-pin marker was used outside a direct pin matrix.
    InvalidPlacement,
    /// The string has the expander prefix but not the expander pin form.
    InvalidExpanderPin(String),
    /// The bus frequency, in kilohertz, is not one the family accepts.
    InvalidFrequency(u32),
    /// An interrupt-capable input was asked for on a pin without a wake source.
    UnsupportedCapability(String),
}

/// Mathematical form of a [`ConfigError`].
pub enum ConfigErrorView {
    UnknownPin(Seq<char>),
    InvalidPlacement,
    InvalidExpanderPin(Seq<char>),
    InvalidFrequency(u32),
    UnsupportedCapability(Seq<char>),
}

impl View for ConfigError {
    type V = ConfigErrorView;

    open spec fn view(&self) -> ConfigErrorView {
        match self {
            ConfigError::UnknownPin(raw) => ConfigErrorView::UnknownPin(raw@),
            ConfigError::InvalidPlacement => ConfigErrorView::InvalidPlacement,
            ConfigError::InvalidExpanderPin(raw) => ConfigErrorView::InvalidExpanderPin(raw@),
            ConfigError::InvalidFrequency(khz) => ConfigErrorView::InvalidFrequency(*khz),
            ConfigError::UnsupportedCapability(raw) => ConfigErrorView::UnsupportedCapability(raw@),
        }
    }
}

/// The human-readable message of an error. Every message ends with the
/// offending input: the pin string as it was written, the absent-pin
/// marker `_` for a placement error, or the frequency.
pub open spec fn message_text(e: ConfigErrorView) -> Seq<char> {
    match e {
        ConfigErrorView::UnknownPin(raw) => "Invalid pin definition: "@ + raw,
        ConfigErrorView::InvalidPlacement => "Invalid pin definition: "@ + "_"@,
        ConfigErrorView::InvalidExpanderPin(raw) => "Invalid expander pin definition: "@ + raw,
        ConfigErrorView::InvalidFrequency(khz) => "Invalid I2C frequency "@ + decimal(khz as nat),
        ConfigErrorView::UnsupportedCapability(raw) => "Invalid pin definition: "@ + raw,
    }
}

impl ConfigError {
    /// The message this error is reported with.
    pub fn message(&self) -> (text: String)
        ensures
            text@ == message_text(self@),
    {
        match self {
            ConfigError::UnknownPin(raw) => {
                let mut text = String::from_str("Invalid pin definition: ");
                text.append(raw.as_str());
                text
            },
            ConfigError::InvalidPlacement => {
                let mut text = String::from_str("Invalid pin definition: ");
                text.append("_");
                text
            },
            ConfigError::InvalidExpanderPin(raw) => {
                let mut text = String::from_str("Invalid expander pin definition: ");
                text.append(raw.as_str());
                text
            },
            ConfigError::InvalidFrequency(khz) => {
                let mut text = String::from_str("Invalid I2C frequency ");
                push_decimal(&mut text, *khz as u64);
                text
            },
            ConfigError::UnsupportedCapability(raw) => {
                let mut text = String::from_str("Invalid pin definition: ");
                text.append(raw.as_str());
                text
            },
        }
    }
}

} // verus!
