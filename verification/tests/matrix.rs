use boardgen::error::ConfigError;
use boardgen::fragment::CodeFragment;
use boardgen::matrix::{
    binding_name_of, convert_input_pins_to_initializers, convert_output_pins_to_initializers,
    emit_input_pins, emit_matrix, emit_output_pins, emit_pin_list, has_absent, has_marker,
    parse_matrix_pins, parse_pins,
};
use boardgen::pin::{Bank, ChipFamily, Pin, PinRole, PinToken};

fn names(items: &[&str]) -> Vec<String> {
    items.iter().map(|s| s.to_string()).collect()
}

fn mcu(name: &str) -> PinToken {
    PinToken::McuPin(name.to_string())
}

fn expander(raw: &str, addr: u8, bank: Bank, index: u8) -> PinToken {
    PinToken::ExpanderPin { raw: raw.to_string(), pin: Pin::new(addr, bank, index) }
}

fn code(text: &str) -> Result<CodeFragment, ConfigError> {
    Ok(CodeFragment::Code(text.to_string()))
}

#[test]
fn binding_names() {
    assert_eq!(binding_name_of(&mcu("PD13")), "pd13");
    assert_eq!(binding_name_of(&mcu("PIN_12")), "pin_12");
    assert_eq!(binding_name_of(&mcu("gpio4")), "gpio4");
    assert_eq!(binding_name_of(&expander("MI20_A2", 0x20, Bank::A, 2)), "mi20_a2");
    assert_eq!(binding_name_of(&expander("MI2F_B15", 0x2F, Bank::B, 15)), "mi2f_b15");
    assert_eq!(binding_name_of(&expander("MI20_A07", 0x20, Bank::A, 7)), "mi20_a07");
    assert_eq!(binding_name_of(&expander("MI20_A_7", 0x20, Bank::A, 7)), "mi20_a_7");
    assert_eq!(binding_name_of(&PinToken::Absent), "_");
}

#[test]
fn binding_name_of_a_parsed_pin_is_its_lower_case() {
    for (chip, name) in [
        (ChipFamily::Stm32, "PD13"),
        (ChipFamily::Stm32, "PZ0"),
        (ChipFamily::Nrf52, "P1_09"),
        (ChipFamily::Rp2040, "PIN_29"),
        (ChipFamily::Esp32, "gpio33"),
        (ChipFamily::Esp32, "MI2F_B7"),
        (ChipFamily::Stm32, "MI20_A07"),
        (ChipFamily::Stm32, "MI20_A_7"),
        (ChipFamily::Stm32, "_"),
    ] {
        let token = boardgen::pin::parse(chip, name).unwrap();
        assert_eq!(binding_name_of(&token), name.to_lowercase());
    }
}

#[test]
fn output_pins_of_a_matrix() {
    let expected = "let pe13 = ::embassy_stm32::gpio::Output::new(p.PE13, ::embassy_stm32::gpio::Level::Low, ::embassy_stm32::gpio::Speed::VeryHigh).degrade();\n\
let pe14 = ::embassy_stm32::gpio::Output::new(p.PE14, ::embassy_stm32::gpio::Level::Low, ::embassy_stm32::gpio::Speed::VeryHigh).degrade();\n\
let pe15 = ::embassy_stm32::gpio::Output::new(p.PE15, ::embassy_stm32::gpio::Level::Low, ::embassy_stm32::gpio::Speed::VeryHigh).degrade();\n\
let output_pins = [pe13, pe14, pe15];\n";
    assert_eq!(
        convert_output_pins_to_initializers(ChipFamily::Stm32, &names(&["PE13", "PE14", "PE15"])),
        code(expected)
    );
    assert_eq!(
        emit_output_pins(ChipFamily::Stm32, &vec![mcu("PE13"), mcu("PE14"), mcu("PE15")]),
        code(expected)
    );
}

#[test]
fn input_pins_of_a_matrix() {
    let expected = "let pd9 = ::embassy_stm32::gpio::Input::new(p.PD9, ::embassy_stm32::gpio::Pull::Down).degrade();\n\
let pb13 = ::embassy_stm32::gpio::Input::new(p.PB13, ::embassy_stm32::gpio::Pull::Down).degrade();\n\
let input_pins = [pd9, pb13];\n";
    assert_eq!(
        convert_input_pins_to_initializers(ChipFamily::Stm32, &names(&["PD9", "PB13"]), false),
        code(expected)
    );
    assert_eq!(emit_input_pins(ChipFamily::Stm32, &vec![mcu("PD9"), mcu("PB13")], false), code(expected));
}

#[test]
fn input_pins_with_wake_sources() {
    let expected = "let pd9 = ::embassy_stm32::exti::ExtiInput::new(::embassy_stm32::gpio::Input::new(p.PD9, ::embassy_stm32::gpio::Pull::Down).degrade(), p.EXTI9.degrade());\n\
let input_pins = [pd9];\n";
    assert_eq!(
        convert_input_pins_to_initializers(ChipFamily::Stm32, &names(&["PD9"]), true),
        code(expected)
    );
}

#[test]
fn single_and_empty_lists() {
    assert_eq!(
        convert_output_pins_to_initializers(ChipFamily::Rp2040, &names(&[])),
        code("let output_pins = [];\n")
    );
    assert_eq!(
        convert_input_pins_to_initializers(ChipFamily::Esp32, &names(&[]), true),
        code("let input_pins = [];\n")
    );
    assert_eq!(
        convert_output_pins_to_initializers(ChipFamily::Esp32, &names(&["gpio1"])),
        code("let gpio1 = { let mut pin = ::esp_idf_svc::hal::gpio::PinDriver::output(p.pins.gpio1.downgrade_output()).unwrap(); pin.set_level(::esp_idf_svc::hal::gpio::Level::Low).unwrap(); pin };\nlet output_pins = [gpio1];\n")
    );
}

#[test]
fn expander_pins_in_a_list() {
    assert_eq!(
        convert_input_pins_to_initializers(ChipFamily::Rp2040, &names(&["PIN_1", "MI20_B3"]), true),
        code("let pin_1 = ::embassy_rp::gpio::Input::new(::embassy_rp::gpio::AnyPin::from(p.PIN_1), ::embassy_rp::gpio::Pull::Down);\n\
let mi20_b3 = rmk::gpio::mcp230xx::Input::new(i2c, rmk::gpio::mcp230xx::Pin::new(32u8, rmk::gpio::mcp230xx::Bank::B, 3u8)).degrade();\n\
let input_pins = [pin_1, mi20_b3];\n")
    );
}

#[test]
fn two_spellings_of_an_expander_pin_get_two_names() {
    assert_eq!(
        convert_input_pins_to_initializers(ChipFamily::Stm32, &names(&["MI20_A7", "MI20_A07"]), false),
        code("let mi20_a7 = rmk::gpio::mcp230xx::Input::new(i2c, rmk::gpio::mcp230xx::Pin::new(32u8, rmk::gpio::mcp230xx::Bank::A, 7u8)).degrade();\n\
let mi20_a07 = rmk::gpio::mcp230xx::Input::new(i2c, rmk::gpio::mcp230xx::Pin::new(32u8, rmk::gpio::mcp230xx::Bank::A, 7u8)).degrade();\n\
let input_pins = [mi20_a7, mi20_a07];\n")
    );
    let text = match convert_output_pins_to_initializers(
        ChipFamily::Stm32,
        &names(&["PE13", "MI20_A07", "MI2F_B1"]),
    ) {
        Ok(CodeFragment::Code(text)) => text,
        other => panic!("{other:?}"),
    };
    assert!(text.ends_with("let output_pins = [pe13, mi20_a07, mi2f_b1];\n"));
    assert_eq!(text.matches("let ").count(), 4);
}

#[test]
fn every_output_of_a_matrix_idles_low() {
    for (chip, pins) in [
        (ChipFamily::Stm32, ["PE13", "PE14"]),
        (ChipFamily::Nrf52, ["P0_01", "P0_02"]),
        (ChipFamily::Rp2040, ["PIN_1", "PIN_2"]),
        (ChipFamily::Esp32, ["gpio1", "gpio2"]),
    ] {
        let text = match convert_output_pins_to_initializers(chip, &names(&pins)) {
            Ok(CodeFragment::Code(text)) => text,
            other => panic!("{other:?}"),
        };
        assert_eq!(text.matches("Level::Low").count(), 2);
        assert_eq!(text.matches("Level::High").count(), 0);
    }
}

#[test]
fn emit_pin_list_threads_the_level_through_every_pin() {
    let pins = vec![mcu("P0_01"), mcu("P0_02")];
    let text = emit_pin_list(ChipFamily::Nrf52, &pins, PinRole::Output, true, "leds").unwrap();
    assert_eq!(text.matches("Level::High").count(), 2);
    assert_eq!(text.matches("Level::Low").count(), 0);
    assert!(text.ends_with("let leds = [p0_01, p0_02];\n"));
    let text = emit_pin_list(ChipFamily::Nrf52, &pins, PinRole::Input, true, "keys").unwrap();
    assert_eq!(text.matches("Pull::Up").count(), 2);
    assert_eq!(text.matches("Pull::Down").count(), 0);
}

#[test]
fn matrix_is_inputs_then_outputs() {
    let rows = vec![mcu("PD9"), mcu("PD8")];
    let cols = vec![mcu("PE13")];
    let inputs = match emit_input_pins(ChipFamily::Stm32, &rows, true).unwrap() {
        CodeFragment::Code(text) => text,
        other => panic!("{other:?}"),
    };
    let outputs = match emit_output_pins(ChipFamily::Stm32, &cols).unwrap() {
        CodeFragment::Code(text) => text,
        other => panic!("{other:?}"),
    };
    assert_eq!(
        emit_matrix(ChipFamily::Stm32, &rows, &cols, true),
        Ok(CodeFragment::Code(format!("{inputs}{outputs}")))
    );
    assert!(inputs.contains("ExtiInput"));
}

#[test]
fn absent_marker_in_a_matrix_is_a_placement_error() {
    let with_marker = vec![mcu("PD9"), PinToken::Absent];
    let without = vec![mcu("PE13")];
    for chip in [ChipFamily::Stm32, ChipFamily::Nrf52, ChipFamily::Rp2040, ChipFamily::Esp32] {
        for interrupt_capable in [false, true] {
            assert_eq!(
                emit_matrix(chip, &with_marker, &without, interrupt_capable),
                Err(ConfigError::InvalidPlacement)
            );
            assert_eq!(
                emit_matrix(chip, &without, &with_marker, interrupt_capable),
                Err(ConfigError::InvalidPlacement)
            );
            assert_eq!(
                emit_input_pins(chip, &with_marker, interrupt_capable),
                Err(ConfigError::InvalidPlacement)
            );
        }
        assert_eq!(emit_output_pins(chip, &with_marker), Err(ConfigError::InvalidPlacement));
    }
    assert_eq!(
        convert_input_pins_to_initializers(ChipFamily::Stm32, &names(&["PD9", "_"]), false),
        Err(ConfigError::InvalidPlacement)
    );
    assert_eq!(
        convert_output_pins_to_initializers(ChipFamily::Stm32, &names(&["_"])),
        Err(ConfigError::InvalidPlacement)
    );
}

#[test]
fn placement_error_comes_before_capability_error() {
    let rows = vec![mcu("PA"), PinToken::Absent];
    assert_eq!(
        emit_matrix(ChipFamily::Stm32, &rows, &vec![], true),
        Err(ConfigError::InvalidPlacement)
    );
    assert_eq!(
        emit_matrix(ChipFamily::Stm32, &vec![mcu("PA")], &vec![PinToken::Absent], true),
        Err(ConfigError::InvalidPlacement)
    );
}

#[test]
fn first_capability_error_is_reported() {
    let rows = vec![mcu("PD9"), mcu("PB"), mcu("PC")];
    assert_eq!(
        emit_matrix(ChipFamily::Stm32, &rows, &vec![mcu("PE13")], true),
        Err(ConfigError::UnsupportedCapability("PB".to_string()))
    );
    assert!(emit_matrix(ChipFamily::Stm32, &rows, &vec![mcu("PE13")], false).is_ok());
    assert!(emit_matrix(ChipFamily::Nrf52, &rows, &vec![mcu("PE13")], true).is_ok());
    assert!(emit_matrix(ChipFamily::Stm32, &vec![mcu("PE13")], &rows, true).is_ok());
}

#[test]
fn has_absent_finds_the_marker() {
    assert!(!has_absent(&vec![]));
    assert!(!has_absent(&vec![mcu("PA0"), expander("MI01_A1", 1, Bank::A, 1)]));
    assert!(has_absent(&vec![PinToken::Absent]));
    assert!(has_absent(&vec![mcu("PA0"), mcu("PA1"), PinToken::Absent]));
}

#[test]
fn parse_pins_stops_at_the_first_error() {
    assert_eq!(
        parse_pins(ChipFamily::Stm32, &names(&["PA0", "_", "MI20_A2"])),
        Ok(vec![mcu("PA0"), PinToken::Absent, expander("MI20_A2", 0x20, Bank::A, 2)])
    );
    assert_eq!(parse_pins(ChipFamily::Stm32, &names(&[])), Ok(vec![]));
    assert_eq!(
        parse_pins(ChipFamily::Stm32, &names(&["PA0", "nope", "MI20_C2"])),
        Err(ConfigError::UnknownPin("nope".to_string()))
    );
    assert_eq!(
        parse_pins(ChipFamily::Stm32, &names(&["MI20_C2", "nope"])),
        Err(ConfigError::InvalidExpanderPin("MI20_C2".to_string()))
    );
}

#[test]
fn placement_error_comes_before_parse_error() {
    for pins in [["_", "nope"], ["nope", "_"], ["MI20_C1", "_"], ["PA0", "_"]] {
        assert_eq!(
            convert_input_pins_to_initializers(ChipFamily::Stm32, &names(&pins), false),
            Err(ConfigError::InvalidPlacement)
        );
        assert_eq!(
            convert_input_pins_to_initializers(ChipFamily::Stm32, &names(&pins), true),
            Err(ConfigError::InvalidPlacement)
        );
        assert_eq!(
            convert_output_pins_to_initializers(ChipFamily::Esp32, &names(&pins)),
            Err(ConfigError::InvalidPlacement)
        );
        assert_eq!(
            parse_matrix_pins(ChipFamily::Stm32, &names(&pins)),
            Err(ConfigError::InvalidPlacement)
        );
    }
    assert_eq!(
        parse_matrix_pins(ChipFamily::Stm32, &names(&["PA0", "nope"])),
        Err(ConfigError::UnknownPin("nope".to_string()))
    );
    assert_eq!(
        parse_matrix_pins(ChipFamily::Stm32, &names(&["PA0", "PA1"])),
        Ok(vec![mcu("PA0"), mcu("PA1")])
    );
}

#[test]
fn has_marker_finds_the_marker_string() {
    assert!(!has_marker(&names(&[])));
    assert!(!has_marker(&names(&["PA0", "__", "", " _", "_ "])));
    assert!(has_marker(&names(&["_"])));
    assert!(has_marker(&names(&["PA0", "nope", "_"])));
}

#[test]
fn matrix_code_is_the_expected_token_sequence() {
    let emitted = match convert_input_pins_to_initializers(
        ChipFamily::Stm32,
        &names(&["PD9", "PD8"]),
        false,
    ) {
        Ok(CodeFragment::Code(text)) => text,
        other => panic!("{other:?}"),
    };
    let expected = "let pd9 = ::embassy_stm32::gpio::Input::new(p.PD9, ::embassy_stm32::gpio::Pull::Down).degrade();
        let pd8 = ::embassy_stm32::gpio::Input::new(p.PD8, ::embassy_stm32::gpio::Pull::Down).degrade();
        let input_pins = [pd9, pd8];";
    let emitted: proc_macro2::TokenStream = emitted.parse().unwrap();
    let expected: proc_macro2::TokenStream = expected.parse().unwrap();
    assert_eq!(emitted.to_string(), expected.to_string());
}
