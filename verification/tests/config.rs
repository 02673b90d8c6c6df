use mark_flaky_tests_core::config::{
    parse_count, parse_flag, ConfigError, RetryConfig, DEFAULT_RETRIES, RETRIES_VAR, STRICT_VAR,
};

#[test]
fn variable_names() {
    assert_eq!(RETRIES_VAR, "MARK_FLAKY_TESTS_RETRIES");
    assert_eq!(STRICT_VAR, "MARK_FLAKY_TESTS_STRICT");
    assert_eq!(DEFAULT_RETRIES, 3);
}

#[test]
fn count_plain_digits() {
    assert_eq!(parse_count("3"), Some(3));
    assert_eq!(parse_count("0"), Some(0));
    assert_eq!(parse_count("1"), Some(1));
    assert_eq!(parse_count("12345"), Some(12345));
}

#[test]
fn count_leading_plus_and_zeros() {
    assert_eq!(parse_count("+7"), Some(7));
    assert_eq!(parse_count("007"), Some(7));
    assert_eq!(parse_count("+000"), Some(0));
    assert_eq!(parse_count("0000000000000000000000000000000000000012"), Some(12));
}

#[test]
fn count_rejects_what_is_no_number() {
    assert_eq!(parse_count(""), None);
    assert_eq!(parse_count("+"), None);
    assert_eq!(parse_count("-"), None);
    assert_eq!(parse_count("-1"), None);
    assert_eq!(parse_count("++1"), None);
    assert_eq!(parse_count("abc"), None);
    assert_eq!(parse_count("three"), None);
    assert_eq!(parse_count(" 3"), None);
    assert_eq!(parse_count("3 "), None);
    assert_eq!(parse_count("1_000"), None);
    assert_eq!(parse_count("3.0"), None);
    assert_eq!(parse_count("0x10"), None);
    assert_eq!(parse_count("\u{0663}"), None);
}

#[test]
fn count_at_the_limit() {
    let max = format!("{}", usize::MAX);
    assert_eq!(parse_count(&max), Some(usize::MAX));
    let digits = max.len();
    let last: u32 = max[digits - 1..].parse().unwrap();
    assert!(last < 9);
    let over = format!("{}{}", &max[..digits - 1], last + 1);
    assert_eq!(parse_count(&over), None);
    let longer = format!("{}0", max);
    assert_eq!(parse_count(&longer), None);
    assert_eq!(parse_count("99999999999999999999999999999999999999999"), None);
    assert_eq!(parse_count("99999999999999999999999999999999999999999x"), None);
}

#[test]
fn count_agrees_with_std() {
    let max = format!("{}", usize::MAX);
    let samples = vec![
        "", "0", "1", "3", "+3", "-3", "+", "-", "+-3", "03", "3a", "a3", " 3", "3\n", "١", "+0",
        "18446744073709551615", "18446744073709551616", "4294967295", "4294967296", "٣", "1e3",
        max.as_str(),
    ];
    for s in samples {
        assert_eq!(parse_count(s), s.parse::<usize>().ok(), "{:?}", s);
    }
}

#[test]
fn flag_true_and_false_only() {
    assert_eq!(parse_flag("true"), Some(true));
    assert_eq!(parse_flag("false"), Some(false));
    assert_eq!(parse_flag(""), None);
    assert_eq!(parse_flag("True"), None);
    assert_eq!(parse_flag("FALSE"), None);
    assert_eq!(parse_flag("1"), None);
    assert_eq!(parse_flag("0"), None);
    assert_eq!(parse_flag("yes"), None);
    assert_eq!(parse_flag(" true"), None);
    assert_eq!(parse_flag("true "), None);
    assert_eq!(parse_flag("truefalse"), None);
}

#[test]
fn flag_agrees_with_std() {
    for s in ["true", "false", "", "t", "True", "tru", "truee", "false\n", "1"] {
        assert_eq!(parse_flag(s), s.parse::<bool>().ok(), "{:?}", s);
    }
}

#[test]
fn unset_variables_give_the_defaults() {
    assert_eq!(
        RetryConfig::from_vars(None, None),
        Ok(RetryConfig { retries: 3, strict: false })
    );
}

#[test]
fn set_variables_are_read() {
    assert_eq!(
        RetryConfig::from_vars(Some("5"), Some("true")),
        Ok(RetryConfig { retries: 5, strict: true })
    );
    assert_eq!(
        RetryConfig::from_vars(Some("1"), None),
        Ok(RetryConfig { retries: 1, strict: false })
    );
    assert_eq!(
        RetryConfig::from_vars(None, Some("true")),
        Ok(RetryConfig { retries: 3, strict: true })
    );
    assert_eq!(
        RetryConfig::from_vars(Some("0"), Some("false")),
        Ok(RetryConfig { retries: 0, strict: false })
    );
}

#[test]
fn non_numeric_retries_is_an_error() {
    assert_eq!(
        RetryConfig::from_vars(Some("abc"), None),
        Err(ConfigError::RetriesNotANumber)
    );
    assert_eq!(
        RetryConfig::from_vars(Some(""), Some("true")),
        Err(ConfigError::RetriesNotANumber)
    );
    assert_eq!(
        RetryConfig::from_vars(Some("-2"), None),
        Err(ConfigError::RetriesNotANumber)
    );
}

#[test]
fn non_boolean_strict_is_an_error() {
    assert_eq!(
        RetryConfig::from_vars(None, Some("yes")),
        Err(ConfigError::StrictNotABoolean)
    );
    assert_eq!(
        RetryConfig::from_vars(Some("4"), Some("")),
        Err(ConfigError::StrictNotABoolean)
    );
}

#[test]
fn retries_error_comes_first() {
    assert_eq!(
        RetryConfig::from_vars(Some("many"), Some("maybe")),
        Err(ConfigError::RetriesNotANumber)
    );
}

#[test]
fn config_error_messages() {
    assert_eq!(
        ConfigError::RetriesNotANumber.message(),
        "`MARK_FLAKY_TESTS_RETRIES` must contain a number"
    );
    assert_eq!(
        ConfigError::StrictNotABoolean.message(),
        "`MARK_FLAKY_TESTS_STRICT` must contain a boolean"
    );
}

#[test]
fn default_config_is_three_loose_retries() {
    assert_eq!(RetryConfig::default(), RetryConfig { retries: 3, strict: false });
    assert_eq!(Ok(RetryConfig::default()), RetryConfig::from_vars(None, None));
}
