//! Decoding of expander pin strings such as `MI20_A2` into bus address,
//! bank and index.

use vstd::prelude::*;
use vstd::string::*;
use crate::error::{ConfigError, ConfigErrorView};
use crate::pin::{Bank, Pin};
use crate::text::{
    all_digits, decimal_value, hex_digit, hex_value, is_hex_digit, parse_decimal_u8, to_chars,
};

verus! {

/// Whether the string begins with the prefix reserved for expander pins.
pub open spec fn has_expander_prefix(raw: Seq<char>) -> bool {
    raw.len() >= 2 && raw[0] == 'M' && raw[1] == 'I'
}

/// The decimal index at the end of an expander pin string. The separator
/// between the bank letter and the index may be left out.
pub open spec fn index_part(raw: Seq<char>) -> Seq<char> {
    if raw.len() > 6 && raw[6] == '_' {
        raw.skip(7)
    } else {
        raw.skip(6)
    }
}

/// The form of an expander pin: `MI`, two hexadecimal digits of address,
/// `_`, the bank letter `A` or `B`, an optional `_`, and a decimal index
/// that fits in eight bits.
pub open spec fn is_expander_pin(raw: Seq<char>) -> bool {
    &&& raw.len() >= 7
    &&& has_expander_prefix(raw)
    &&& is_hex_digit(raw[2])
    &&& is_hex_digit(raw[3])
    &&& raw[4] == '_'
    &&& (raw[5] == 'A' || raw[5] == 'B')
    &&& index_part(raw).len() >= 1
    &&& all_digits(index_part(raw))
    &&& decimal_value(index_part(raw)) <= 255
}

/// The pin that a well-formed expander pin string denotes.
pub open spec fn resolved_pin(raw: Seq<char>) -> Pin
    recommends
        is_expander_pin(raw),
{
    Pin {
        addr: (16 * hex_value(raw[2]) + hex_value(raw[3])) as u8,
        bank: if raw[5] == 'A' {
            Bank::A
        } else {
            Bank::B
        },
        pin: decimal_value(index_part(raw)) as u8,
    }
}

/// What an expander pin string resolves to.
pub open spec fn spec_resolve(raw: Seq<char>) -> Result<Pin, ConfigErrorView> {
    if is_expander_pin(raw) {
        Ok(resolved_pin(raw))
    } else {
        Err(ConfigErrorView::InvalidExpanderPin(raw))
    }
}

/// Mathematical form of the result of [`resolve`].
pub open spec fn resolved_view(r: Result<Pin, ConfigError>) -> Result<Pin, ConfigErrorView> {
    match r {
        Ok(pin) => Ok(pin),
        Err(e) => Err(e@),
    }
}

/// Decodes the characters of an expander pin string.
pub fn resolve_chars(raw: &Vec<char>) -> (r: Option<Pin>)
    ensures
        r is Some <==> is_expander_pin(raw@),
        r is Some ==> r->0 == resolved_pin(raw@),
{
    if raw.len() < 7 || raw[0] != 'M' || raw[1] != 'I' || raw[4] != '_' {
        return None;
    }
    let high = match hex_digit(raw[2]) {
        Some(v) => v,
        None => { return None; },
    };
    let low = match hex_digit(raw[3]) {
        Some(v) => v,
        None => { return None; },
    };
    let bank = if raw[5] == 'A' {
        Bank::A
    } else if raw[5] == 'B' {
        Bank::B
    } else {
        return None;
    };
    let start: usize = if raw[6] == '_' {
        7
    } else {
        6
    };
    match parse_decimal_u8(raw, start) {
        Some(index) => Some(Pin::new(16 * high + low, bank, index)),
        None => None,
    }
}

/// Decodes an expander pin string into address, bank and index.
///
/// The index is not held to the bank's eight pins here; see
/// [`Pin::in_range`].
pub fn resolve(raw: &str) -> (r: Result<Pin, ConfigError>)
    ensures
        resolved_view(r) == spec_resolve(raw@),
{
    let chars = to_chars(raw);
    match resolve_chars(&chars) {
        Some(pin) => Ok(pin),
        None => Err(ConfigError::InvalidExpanderPin(String::from_str(raw))),
    }
}

} // verus!
