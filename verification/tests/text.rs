use boardgen::error::ConfigError;
use boardgen::fragment::{diagnostic, push_escaped, CodeFragment};
use boardgen::text::{
    all_digits_from, hex_digit, lower, parse_decimal_u8, push_decimal, push_lowercase, to_chars,
};

fn chars(s: &str) -> Vec<char> {
    s.chars().collect()
}

#[test]
fn to_chars_keeps_every_character() {
    assert_eq!(to_chars(""), Vec::<char>::new());
    assert_eq!(to_chars("PA0"), vec!['P', 'A', '0']);
    assert_eq!(to_chars("aé２"), vec!['a', 'é', '２']);
}

#[test]
fn push_decimal_writes_plain_decimal() {
    for (n, expected) in [
        (0u64, "0"),
        (7, "7"),
        (10, "10"),
        (100, "100"),
        (255, "255"),
        (4_294_967, "4294967"),
        (u64::MAX, "18446744073709551615"),
    ] {
        let mut out = String::from("x");
        push_decimal(&mut out, n);
        assert_eq!(out, format!("x{expected}"));
    }
}

#[test]
fn lower_changes_ascii_capitals_only() {
    assert_eq!(lower('A'), 'a');
    assert_eq!(lower('Z'), 'z');
    assert_eq!(lower('a'), 'a');
    assert_eq!(lower('0'), '0');
    assert_eq!(lower('_'), '_');
    assert_eq!(lower('@'), '@');
    assert_eq!(lower('['), '[');
    assert_eq!(lower('É'), 'É');
}

#[test]
fn push_lowercase_appends() {
    let mut out = String::from("let ");
    push_lowercase(&mut out, "PIN_12");
    assert_eq!(out, "let pin_12");
    push_lowercase(&mut out, "");
    assert_eq!(out, "let pin_12");
}

#[test]
fn hex_digit_values() {
    assert_eq!(hex_digit('0'), Some(0));
    assert_eq!(hex_digit('9'), Some(9));
    assert_eq!(hex_digit('a'), Some(10));
    assert_eq!(hex_digit('f'), Some(15));
    assert_eq!(hex_digit('A'), Some(10));
    assert_eq!(hex_digit('F'), Some(15));
    assert_eq!(hex_digit('g'), None);
    assert_eq!(hex_digit('G'), None);
    assert_eq!(hex_digit('_'), None);
    assert_eq!(hex_digit('/'), None);
    assert_eq!(hex_digit(':'), None);
}

#[test]
fn all_digits_from_position() {
    assert!(all_digits_from(&chars("PD13"), 2));
    assert!(!all_digits_from(&chars("PD13"), 1));
    assert!(all_digits_from(&chars("PD"), 2));
    assert!(!all_digits_from(&chars("PD1x"), 2));
    assert!(!all_digits_from(&chars("PD"), 3));
}

#[test]
fn parse_decimal_u8_bounds() {
    assert_eq!(parse_decimal_u8(&chars("A0"), 1), Some(0));
    assert_eq!(parse_decimal_u8(&chars("A255"), 1), Some(255));
    assert_eq!(parse_decimal_u8(&chars("A256"), 1), None);
    assert_eq!(parse_decimal_u8(&chars("A"), 1), None);
    assert_eq!(parse_decimal_u8(&chars("A1b"), 1), None);
    assert_eq!(parse_decimal_u8(&chars("00042"), 0), Some(42));
    assert_eq!(parse_decimal_u8(&chars("12"), 2), None);
    assert_eq!(parse_decimal_u8(&chars("12"), 3), None);
}

#[test]
fn error_messages_name_the_offending_input() {
    assert_eq!(ConfigError::UnknownPin("PX".to_string()).message(), "Invalid pin definition: PX");
    assert_eq!(ConfigError::InvalidPlacement.message(), "Invalid pin definition: _");
    assert_eq!(
        ConfigError::InvalidExpanderPin("MI20_C1".to_string()).message(),
        "Invalid expander pin definition: MI20_C1"
    );
    assert_eq!(ConfigError::InvalidFrequency(333).message(), "Invalid I2C frequency 333");
    assert_eq!(
        ConfigError::UnsupportedCapability("PA".to_string()).message(),
        "Invalid pin definition: PA"
    );
}

#[test]
fn every_message_ends_with_the_offending_input() {
    for raw in ["PA", "", "MI20_C1", "a b", "_"] {
        assert!(ConfigError::UnknownPin(raw.to_string()).message().ends_with(raw));
        assert!(ConfigError::InvalidExpanderPin(raw.to_string()).message().ends_with(raw));
        assert!(ConfigError::UnsupportedCapability(raw.to_string()).message().ends_with(raw));
    }
    assert!(ConfigError::InvalidPlacement.message().ends_with("_"));
    assert!(ConfigError::InvalidFrequency(4_294_967_295).message().ends_with("4294967295"));
}

#[test]
fn push_escaped_escapes_for_a_string_literal() {
    let mut out = String::new();
    push_escaped(&mut out, "a\"b\\c\nd\re\tf");
    assert_eq!(out, "a\\\"b\\\\c\\nd\\re\\tf");
}

#[test]
fn render_of_each_kind() {
    assert_eq!(CodeFragment::Code("let a = 1;".to_string()).render(), "let a = 1;");
    assert_eq!(CodeFragment::empty().render(), "");
    assert_eq!(CodeFragment::Unsupported.render(), "None");
    assert_eq!(
        CodeFragment::Diagnostic("bad \"pin\"".to_string()).render(),
        "compile_error!(\"bad \\\"pin\\\"\");"
    );
}

#[test]
fn diagnostic_carries_the_message() {
    let f = diagnostic(&ConfigError::InvalidFrequency(333));
    assert_eq!(f, CodeFragment::Diagnostic("Invalid I2C frequency 333".to_string()));
    assert!(f.is_diagnostic());
    assert!(!CodeFragment::Unsupported.is_diagnostic());
    assert!(!CodeFragment::empty().is_diagnostic());
    assert_eq!(f.render(), "compile_error!(\"Invalid I2C frequency 333\");");
}

#[test]
fn rendered_diagnostic_is_one_macro_call() {
    let f = diagnostic(&ConfigError::UnknownPin("a\"); evil(\"".to_string()));
    let tokens: proc_macro2::TokenStream = f.render().parse().unwrap();
    let trees: Vec<proc_macro2::TokenTree> = tokens.into_iter().collect();
    assert_eq!(trees.len(), 4);
    assert_eq!(trees[0].to_string(), "compile_error");
    assert_eq!(trees[1].to_string(), "!");
    assert_eq!(trees[3].to_string(), ";");
    match &trees[2] {
        proc_macro2::TokenTree::Group(group) => {
            let inner: Vec<proc_macro2::TokenTree> = group.stream().into_iter().collect();
            assert_eq!(inner.len(), 1);
            assert!(matches!(inner[0], proc_macro2::TokenTree::Literal(_)));
        }
        other => panic!("{other}"),
    }
}
