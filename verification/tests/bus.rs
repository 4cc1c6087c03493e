use boardgen::bus::{build, build_i2c_config, check_frequency, i2c_gpio_expander, BusConfig};
use boardgen::error::ConfigError;
use boardgen::fragment::CodeFragment;
use boardgen::pin::ChipFamily;

fn bus(sda: &str, scl: &str, freq_khz: Option<u32>, expander: bool) -> BusConfig {
    BusConfig { enabled: true, freq_khz, expander, sda: sda.to_string(), scl: scl.to_string() }
}

fn code(text: &str) -> Result<CodeFragment, ConfigError> {
    Ok(CodeFragment::Code(text.to_string()))
}

const BRINGUP: &str = "let mut mcp23x17 = port_expander::Mcp23x17::new_mcp23017(i2c, false, false, false);\nlet ge = mcp23x17.split();\n::defmt::info!(\"MCP23017 initialized\");\n";

fn nrf(freq: &str) -> String {
    format!("let mut i2c = {{\n    let mut config = ::embassy_nrf::twim::Config::default();\n    config.frequency = ::embassy_nrf::twim::Frequency::K{freq};\n    ::defmt::info!(\"I2C initialized\");\n    ::embassy_nrf::twim::Twim::new(p.TWISPI0, Irqs, p.P0_26, p.P0_27, config)\n}};\n::embassy_nrf::interrupt::SPIM0_SPIS0_TWIM0_TWIS0_SPI0_TWI0.set_priority(::embassy_nrf::interrupt::Priority::P2);\n")
}

fn rp(freq: &str) -> String {
    format!("let mut i2c = {{\n    let mut config = ::embassy_rp::i2c::Config::default();\n    config.frequency = {freq}u32 * 1000;\n    ::embassy_rp::i2c::I2c::new_blocking(p.I2C0, p.PIN_4, p.PIN_5, config)\n}};\n")
}

fn stm(freq: &str) -> String {
    format!("let mut i2c = ::embassy_stm32::i2c::I2c::new_blocking(p.I2C1, p.PB7, p.PB6, ::embassy_stm32::time::Hertz({freq}u32 * 1000), ::embassy_stm32::i2c::Config::default());\n")
}

#[test]
fn disabled_bus_is_empty_not_an_error() {
    for chip in [ChipFamily::Stm32, ChipFamily::Nrf52, ChipFamily::Rp2040, ChipFamily::Esp32] {
        let config = BusConfig {
            enabled: false,
            freq_khz: Some(333),
            expander: true,
            sda: "nonsense".to_string(),
            scl: String::new(),
        };
        assert_eq!(build(chip, &config), code(""));
        assert_eq!(build_i2c_config(chip, &config), code(""));
        assert_eq!(i2c_gpio_expander(&config), "");
    }
}

#[test]
fn family_without_bus_is_unsupported() {
    for expander in [false, true] {
        for freq in [None, Some(100), Some(333)] {
            let config = bus("gpio21", "gpio22", freq, expander);
            assert_eq!(build(ChipFamily::Esp32, &config), Ok(CodeFragment::Unsupported));
            assert_eq!(build_i2c_config(ChipFamily::Esp32, &config), Ok(CodeFragment::Unsupported));
        }
    }
    assert_ne!(Ok(CodeFragment::Unsupported), code(""));
    assert_eq!(CodeFragment::Unsupported.render(), "None");
}

#[test]
fn nrf52_accepts_three_frequencies() {
    for (khz, name) in [(100, "100"), (250, "250"), (400, "400")] {
        assert_eq!(
            build(ChipFamily::Nrf52, &bus("P0_26", "P0_27", Some(khz), false)),
            code(&nrf(name))
        );
    }
    assert_eq!(build(ChipFamily::Nrf52, &bus("P0_26", "P0_27", None, false)), code(&nrf("100")));
}

#[test]
fn invalid_frequency_is_refused_not_rounded() {
    for khz in [0, 1, 99, 101, 249, 251, 333, 399, 401, 1000, u32::MAX] {
        assert_eq!(
            build(ChipFamily::Nrf52, &bus("P0_26", "P0_27", Some(khz), false)),
            Err(ConfigError::InvalidFrequency(khz))
        );
        assert_eq!(
            build_i2c_config(ChipFamily::Nrf52, &bus("P0_26", "P0_27", Some(khz), true)),
            Err(ConfigError::InvalidFrequency(khz))
        );
    }
}

#[test]
fn rp2040_takes_any_frequency_that_fits_in_hertz() {
    assert_eq!(build(ChipFamily::Rp2040, &bus("PIN_4", "PIN_5", None, false)), code(&rp("100")));
    assert_eq!(build(ChipFamily::Rp2040, &bus("PIN_4", "PIN_5", Some(333), false)), code(&rp("333")));
    assert_eq!(build(ChipFamily::Rp2040, &bus("PIN_4", "PIN_5", Some(0), false)), code(&rp("0")));
    assert_eq!(
        build(ChipFamily::Rp2040, &bus("PIN_4", "PIN_5", Some(4_294_967), false)),
        code(&rp("4294967"))
    );
    assert_eq!(
        build(ChipFamily::Rp2040, &bus("PIN_4", "PIN_5", Some(4_294_968), false)),
        Err(ConfigError::InvalidFrequency(4_294_968))
    );
    assert_eq!(
        build(ChipFamily::Rp2040, &bus("PIN_4", "PIN_5", Some(u32::MAX), false)),
        Err(ConfigError::InvalidFrequency(u32::MAX))
    );
}

#[test]
fn stm32_takes_any_frequency_that_fits_in_hertz() {
    assert_eq!(build(ChipFamily::Stm32, &bus("PB7", "PB6", None, false)), code(&stm("100")));
    assert_eq!(build(ChipFamily::Stm32, &bus("PB7", "PB6", Some(400), false)), code(&stm("400")));
    assert_eq!(
        build(ChipFamily::Stm32, &bus("PB7", "PB6", Some(4_294_968), false)),
        Err(ConfigError::InvalidFrequency(4_294_968))
    );
}

#[test]
fn check_frequency_per_family() {
    assert!(check_frequency(ChipFamily::Nrf52, 250));
    assert!(!check_frequency(ChipFamily::Nrf52, 333));
    assert!(check_frequency(ChipFamily::Stm32, 333));
    assert!(check_frequency(ChipFamily::Rp2040, 4_294_967));
    assert!(!check_frequency(ChipFamily::Rp2040, 4_294_968));
    assert!(!check_frequency(ChipFamily::Esp32, 100));
}

#[test]
fn expander_comes_after_the_bus() {
    assert_eq!(
        build(ChipFamily::Stm32, &bus("PB7", "PB6", Some(400), true)),
        code(&format!("{}{}", stm("400"), BRINGUP))
    );
    assert_eq!(
        build(ChipFamily::Nrf52, &bus("P0_26", "P0_27", None, true)),
        code(&format!("{}{}", nrf("100"), BRINGUP))
    );
    assert_eq!(
        build(ChipFamily::Rp2040, &bus("PIN_4", "PIN_5", None, true)),
        code(&format!("{}{}", rp("100"), BRINGUP))
    );
    assert_eq!(
        build_i2c_config(ChipFamily::Rp2040, &bus("PIN_4", "PIN_5", None, true)),
        code(&rp("100"))
    );
}

#[test]
fn expander_bringup_alone() {
    assert_eq!(i2c_gpio_expander(&bus("PB7", "PB6", None, true)), BRINGUP);
    assert_eq!(i2c_gpio_expander(&bus("PB7", "PB6", None, false)), "");
}

#[test]
fn bus_pins_must_be_pins_of_the_family() {
    assert_eq!(
        build(ChipFamily::Stm32, &bus("PIN_4", "PB6", None, false)),
        Err(ConfigError::UnknownPin("PIN_4".to_string()))
    );
    assert_eq!(
        build(ChipFamily::Stm32, &bus("PB7", "", None, false)),
        Err(ConfigError::UnknownPin(String::new()))
    );
    assert_eq!(
        build(ChipFamily::Stm32, &bus("_", "MI20_A1", Some(400), false)),
        Err(ConfigError::UnknownPin("_".to_string()))
    );
    assert_eq!(
        build(ChipFamily::Nrf52, &bus("P0_26", "MI20_A1", Some(250), false)),
        Err(ConfigError::UnknownPin("MI20_A1".to_string()))
    );
}

#[test]
fn frequency_is_tested_before_the_bus_pins() {
    for (sda, scl) in [("foo", "P0_27"), ("P0_26", "bar"), ("foo", "bar"), ("", ""), ("_", "_")] {
        for expander in [false, true] {
            assert_eq!(
                build(ChipFamily::Nrf52, &bus(sda, scl, Some(333), expander)),
                Err(ConfigError::InvalidFrequency(333))
            );
            assert_eq!(
                build_i2c_config(ChipFamily::Nrf52, &bus(sda, scl, Some(333), expander)),
                Err(ConfigError::InvalidFrequency(333))
            );
        }
    }
    assert_eq!(
        build(ChipFamily::Stm32, &bus("_", "MI20_A1", Some(u32::MAX), false)),
        Err(ConfigError::InvalidFrequency(u32::MAX))
    );
    assert_eq!(
        build(ChipFamily::Rp2040, &bus("foo", "PIN_5", Some(4_294_968), false)),
        Err(ConfigError::InvalidFrequency(4_294_968))
    );
}

#[test]
fn refused_frequency_names_no_accepted_one() {
    for khz in [99, 101, 249, 251, 333, 399, 401] {
        let f = boardgen::fragment::diagnostic(
            &build(ChipFamily::Nrf52, &bus("P0_26", "P0_27", Some(khz), false)).unwrap_err(),
        );
        let text = f.render();
        assert!(text.contains(&khz.to_string()));
        assert!(!text.contains("Frequency::K"));
    }
}

#[test]
fn bus_code_lexes() {
    for text in [nrf("400"), rp("100"), stm("100"), BRINGUP.to_string()] {
        assert!(text.parse::<proc_macro2::TokenStream>().is_ok(), "{text}");
    }
    let emitted: proc_macro2::TokenStream = stm("100").parse().unwrap();
    let expected: proc_macro2::TokenStream = "let mut i2c = ::embassy_stm32::i2c::I2c::new_blocking(
                    p.I2C1,
                    p.PB7,
                    p.PB6,
                    ::embassy_stm32::time::Hertz(100u32 * 1000),
                    ::embassy_stm32::i2c::Config::default()
                );".parse().unwrap();
    assert_eq!(emitted.to_string(), expected.to_string());
}
