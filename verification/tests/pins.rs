use boardgen::error::ConfigError;
use boardgen::expander::resolve;
use boardgen::pin::{
    check_mcu_pin_name, checked_pin_number, parse, pin_number, Bank, ChipFamily, Pin, PinToken,
};

fn mcu(name: &str) -> Result<PinToken, ConfigError> {
    Ok(PinToken::McuPin(name.to_string()))
}

fn unknown(raw: &str) -> Result<PinToken, ConfigError> {
    Err(ConfigError::UnknownPin(raw.to_string()))
}

fn bad_expander(raw: &str) -> Result<Pin, ConfigError> {
    Err(ConfigError::InvalidExpanderPin(raw.to_string()))
}

#[test]
fn pin_new_keeps_its_arguments() {
    let pin = Pin::new(0x27, Bank::B, 5);
    assert_eq!(pin.addr, 0x27);
    assert_eq!(pin.bank, Bank::B);
    assert_eq!(pin.pin, 5);
}

#[test]
fn pin_number_adds_bank_offset() {
    assert_eq!(pin_number(&Pin::new(0x20, Bank::A, 0)), 0);
    assert_eq!(pin_number(&Pin::new(0x20, Bank::A, 3)), 3);
    assert_eq!(pin_number(&Pin::new(0x20, Bank::A, 7)), 7);
    assert_eq!(pin_number(&Pin::new(0x20, Bank::B, 0)), 8);
    assert_eq!(pin_number(&Pin::new(0x20, Bank::B, 3)), 11);
    assert_eq!(pin_number(&Pin::new(0x20, Bank::B, 7)), 15);
}

#[test]
fn pin_numbers_of_one_expander_are_distinct() {
    let mut seen = [false; 16];
    for bank in [Bank::A, Bank::B] {
        for index in 0u8..8 {
            let n = pin_number(&Pin::new(0x20, bank, index)) as usize;
            assert!(!seen[n]);
            seen[n] = true;
            assert_eq!(n < 8, bank == Bank::A);
        }
    }
    assert!(seen.iter().all(|s| *s));
}

#[test]
fn resolved_number_is_eight_times_bank_plus_index() {
    for address in [0x00u8, 0x20, 0x27, 0xff] {
        for (letter, bank, times) in [('A', Bank::A, 0u8), ('B', Bank::B, 1u8)] {
            for index in 0u8..8 {
                let raw = format!("MI{address:02x}_{letter}{index}");
                let pin = resolve(&raw).unwrap();
                assert_eq!(pin, Pin::new(address, bank, index), "{raw}");
                assert!(pin.is_in_range());
                assert_eq!(pin_number(&pin), 8 * times + index, "{raw}");
            }
        }
    }
}

#[test]
fn checked_pin_number_takes_any_index_that_fits() {
    assert_eq!(checked_pin_number(&Pin::new(0x20, Bank::A, 3)), Some(3));
    assert_eq!(checked_pin_number(&Pin::new(0x20, Bank::B, 3)), Some(11));
    assert_eq!(checked_pin_number(&Pin::new(0x20, Bank::A, 9)), Some(9));
    assert_eq!(checked_pin_number(&Pin::new(0x20, Bank::A, 255)), Some(255));
    assert_eq!(checked_pin_number(&Pin::new(0x20, Bank::B, 9)), Some(17));
    assert_eq!(checked_pin_number(&Pin::new(0x20, Bank::B, 247)), Some(255));
    assert_eq!(checked_pin_number(&Pin::new(0x20, Bank::B, 248)), None);
    assert_eq!(checked_pin_number(&Pin::new(0x20, Bank::B, 255)), None);
}

#[test]
fn two_spellings_of_an_expander_pin_are_two_tokens() {
    let short = parse(ChipFamily::Stm32, "MI20_A7").unwrap();
    let long = parse(ChipFamily::Stm32, "MI20_A07").unwrap();
    assert_ne!(short, long);
    assert_eq!(long, PinToken::ExpanderPin { raw: "MI20_A07".to_string(), pin: Pin::new(0x20, Bank::A, 7) });
}

#[test]
fn pin_in_range_up_to_seven() {
    assert!(Pin::new(0x20, Bank::A, 7).is_in_range());
    assert!(!Pin::new(0x20, Bank::A, 8).is_in_range());
    assert!(!Pin::new(0x20, Bank::B, 255).is_in_range());
}

#[test]
fn resolve_documented_example() {
    assert_eq!(resolve("MI20_A2"), Ok(Pin::new(0x20, Bank::A, 2)));
}

#[test]
fn resolve_reads_address_as_hexadecimal() {
    assert_eq!(resolve("MI00_A0"), Ok(Pin::new(0x00, Bank::A, 0)));
    assert_eq!(resolve("MI2f_B1"), Ok(Pin::new(0x2f, Bank::B, 1)));
    assert_eq!(resolve("MI2F_B1"), Ok(Pin::new(0x2f, Bank::B, 1)));
    assert_eq!(resolve("MIfF_B7"), Ok(Pin::new(0xff, Bank::B, 7)));
    assert_eq!(resolve("MI10_A7"), Ok(Pin::new(16, Bank::A, 7)));
}

#[test]
fn resolve_takes_separator_before_index() {
    assert_eq!(resolve("MI20_A_2"), Ok(Pin::new(0x20, Bank::A, 2)));
    assert_eq!(resolve("MI20_B_15"), Ok(Pin::new(0x20, Bank::B, 15)));
    assert_eq!(resolve("MI20_A_"), bad_expander("MI20_A_"));
    assert_eq!(resolve("MI20_A__2"), bad_expander("MI20_A__2"));
}

#[test]
fn resolve_does_not_hold_index_to_the_bank() {
    assert_eq!(resolve("MI20_A8"), Ok(Pin::new(0x20, Bank::A, 8)));
    assert_eq!(resolve("MI20_B255"), Ok(Pin::new(0x20, Bank::B, 255)));
    assert_eq!(resolve("MI20_A007"), Ok(Pin::new(0x20, Bank::A, 7)));
    assert_eq!(resolve("MI20_A0000000000000000000255"), Ok(Pin::new(0x20, Bank::A, 255)));
}

#[test]
fn resolve_rejects_index_beyond_eight_bits() {
    assert_eq!(resolve("MI20_A256"), bad_expander("MI20_A256"));
    assert_eq!(resolve("MI20_A1000"), bad_expander("MI20_A1000"));
    assert_eq!(
        resolve("MI20_A99999999999999999999999999"),
        bad_expander("MI20_A99999999999999999999999999")
    );
}

#[test]
fn resolve_rejects_malformed_strings() {
    for raw in [
        "", "M", "MI", "MI20", "MI20_", "MI20_A", "MI2G_A1", "MIG0_A1", "MI20_C1", "MI20_a1",
        "MI20-A1", "MI20xA1", "MI20A1", "MI20_A+2", "MI20_A-2", "MI20_A2 ", "MI20_A2x", "MI20_Ax",
        "mi20_A2", "Mi20_A2", "XX20_A2", "MI２0_A2", "MI20_A２",
    ] {
        assert_eq!(resolve(raw), bad_expander(raw), "{raw}");
    }
}

#[test]
fn parse_absent_marker() {
    for chip in [ChipFamily::Stm32, ChipFamily::Nrf52, ChipFamily::Rp2040, ChipFamily::Esp32] {
        assert_eq!(parse(chip, "_"), Ok(PinToken::Absent));
        assert_eq!(parse(chip, "__"), unknown("__"));
    }
}

#[test]
fn parse_routes_expander_prefix_to_resolver() {
    for chip in [ChipFamily::Stm32, ChipFamily::Nrf52, ChipFamily::Rp2040, ChipFamily::Esp32] {
        assert_eq!(
            parse(chip, "MI20_A2"),
            Ok(PinToken::ExpanderPin { raw: "MI20_A2".to_string(), pin: Pin::new(0x20, Bank::A, 2) })
        );
        assert_eq!(
            parse(chip, "MI27_B7"),
            Ok(PinToken::ExpanderPin { raw: "MI27_B7".to_string(), pin: Pin::new(0x27, Bank::B, 7) })
        );
        assert_eq!(
            parse(chip, "MI20_C2"),
            Err(ConfigError::InvalidExpanderPin("MI20_C2".to_string()))
        );
        assert_eq!(parse(chip, "MI"), Err(ConfigError::InvalidExpanderPin("MI".to_string())));
        assert_eq!(
            parse(chip, "MISO"),
            Err(ConfigError::InvalidExpanderPin("MISO".to_string()))
        );
    }
}

#[test]
fn parse_stm32_names() {
    let chip = ChipFamily::Stm32;
    for name in ["PA0", "PD13", "PE15", "PZ9", "PB007"] {
        assert_eq!(parse(chip, name), mcu(name), "{name}");
    }
    for raw in ["", "P", "PA", "pa0", "Pa0", "PA0 ", " PA0", "PAx", "PA1x", "P00", "QA0", "PIN_1", "gpio1", "P0_01", "PA-1"] {
        assert_eq!(parse(chip, raw), unknown(raw), "{raw}");
    }
}

#[test]
fn parse_nrf52_names() {
    let chip = ChipFamily::Nrf52;
    for name in ["P0_00", "P0_31", "P1_15"] {
        assert_eq!(parse(chip, name), mcu(name), "{name}");
    }
    for raw in ["", "P0_0", "P0_001", "P0-00", "PA_00", "p0_00", "P0_0a", "PA0", "PIN_1", "gpio1"] {
        assert_eq!(parse(chip, raw), unknown(raw), "{raw}");
    }
}

#[test]
fn parse_rp2040_names() {
    let chip = ChipFamily::Rp2040;
    for name in ["PIN_0", "PIN_12", "PIN_29"] {
        assert_eq!(parse(chip, name), mcu(name), "{name}");
    }
    for raw in ["", "PIN_", "PIN0", "pin_0", "PIN_A", "PIN_1a", "PA0", "P0_00", "gpio1"] {
        assert_eq!(parse(chip, raw), unknown(raw), "{raw}");
    }
}

#[test]
fn parse_esp32_names() {
    let chip = ChipFamily::Esp32;
    for name in ["gpio0", "gpio4", "gpio48"] {
        assert_eq!(parse(chip, name), mcu(name), "{name}");
    }
    for raw in ["", "gpio", "GPIO4", "gpio_4", "gpio4a", "PA0", "P0_00", "PIN_1"] {
        assert_eq!(parse(chip, raw), unknown(raw), "{raw}");
    }
}

#[test]
fn check_mcu_pin_name_agrees_with_parse() {
    let chars: Vec<char> = "PD13".chars().collect();
    assert!(check_mcu_pin_name(ChipFamily::Stm32, &chars));
    assert!(!check_mcu_pin_name(ChipFamily::Nrf52, &chars));
    assert!(!check_mcu_pin_name(ChipFamily::Rp2040, &chars));
    assert!(!check_mcu_pin_name(ChipFamily::Esp32, &chars));
    let marker: Vec<char> = "_".chars().collect();
    assert!(!check_mcu_pin_name(ChipFamily::Stm32, &marker));
}
