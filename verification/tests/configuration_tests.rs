use github_release_bot::configuration::{parse_interval, Configuration, SecretValue};

#[test]
fn resolve_secret_value_requires_non_empty_path() {
    let err = Configuration::resolve_secret_value("SOME_KEY", "secret:".to_string())
        .expect_err("expected error for empty secret path");
    assert!(err.contains("no file path"));
    assert_eq!(err, "SOME_KEY is using 'secret:' prefix but no file path was provided");
}

#[test]
fn resolve_secret_value_with_blank_path_is_refused() {
    let err = Configuration::resolve_secret_value("K", "secret: \t ".to_string()).unwrap_err();
    assert_eq!(err, "K is using 'secret:' prefix but no file path was provided");
}

#[test]
fn resolve_secret_value_names_the_file() {
    let source = Configuration::resolve_secret_value("K", "secret: /run/secrets/token \n".to_string());
    assert!(matches!(source, Ok(SecretValue::File { path }) if path == "/run/secrets/token"));
    let source = Configuration::resolve_secret_value("K", "secret:a b".to_string());
    assert!(matches!(source, Ok(SecretValue::File { path }) if path == "a b"));
}

#[test]
fn resolve_secret_value_keeps_plain_values() {
    let source = Configuration::resolve_secret_value("K", "db-path.db".to_string());
    assert!(matches!(source, Ok(SecretValue::Plain(value)) if value == "db-path.db"));
    let source = Configuration::resolve_secret_value("K", " secret:x".to_string());
    assert!(matches!(source, Ok(SecretValue::Plain(value)) if value == " secret:x"));
    let source = Configuration::resolve_secret_value("K", "Secret:x".to_string());
    assert!(matches!(source, Ok(SecretValue::Plain(value)) if value == "Secret:x"));
    let source = Configuration::resolve_secret_value("K", "".to_string());
    assert!(matches!(source, Ok(SecretValue::Plain(value)) if value.is_empty()));
}

#[test]
fn secret_files_lose_their_line_ends() {
    assert_eq!(Configuration::secret_from_file("my-telegram-token\n"), "my-telegram-token");
    assert_eq!(Configuration::secret_from_file("90\n"), "90");
    assert_eq!(Configuration::secret_from_file("gh-secret-token"), "gh-secret-token");
    assert_eq!(Configuration::secret_from_file("a\r\n\n\r"), "a");
    assert_eq!(Configuration::secret_from_file("a \n"), "a ");
    assert_eq!(Configuration::secret_from_file("\na\n"), "\na");
    assert_eq!(Configuration::secret_from_file("\n\r"), "");
    assert_eq!(Configuration::secret_from_file(""), "");
}

#[test]
fn read_failures_name_key_and_path() {
    assert_eq!(
        Configuration::read_failed("TELOXIDE_TOKEN", "/x/y", "No such file or directory (os error 2)"),
        "Failed to read secret file for TELOXIDE_TOKEN from '/x/y': No such file or directory (os error 2)"
    );
}

#[test]
fn from_values_reads_resolved_settings() {
    let cfg = Configuration::from_values(
        "db-path.db".to_string(),
        "my-telegram-token".to_string(),
        Some("90".to_string()),
        Some("gh-secret-token".to_string()),
    )
    .unwrap();
    assert_eq!(cfg.database_path, "db-path.db");
    assert_eq!(cfg.teloxide_token, "my-telegram-token");
    assert_eq!(cfg.interval_secs, 90);
    assert_eq!(cfg.github_token.as_deref(), Some("gh-secret-token"));
    assert_eq!(cfg.database_url(), "sqlite://db-path.db");
    let copy = cfg.clone();
    assert_eq!(copy.database_path, "db-path.db");
    assert_eq!(copy.interval_secs, 90);
    assert_eq!(copy.github_token.as_deref(), Some("gh-secret-token"));
}

#[test]
fn from_values_defaults_to_sixty_seconds() {
    let cfg = Configuration::from_values("d".to_string(), "t".to_string(), None, None).unwrap();
    assert_eq!(cfg.interval_secs, 60);
    assert_eq!(cfg.github_token, None);
}

#[test]
fn from_values_refuses_a_bad_interval() {
    let err = Configuration::from_values("d".to_string(), "t".to_string(), Some("soon".to_string()), None)
        .unwrap_err();
    assert_eq!(err, "POLL_INTERVAL_SECS must be a positive integer: invalid digit found in string");
}

#[test]
fn intervals_are_trimmed_decimal_numbers() {
    assert_eq!(parse_interval("60"), Ok(60));
    assert_eq!(parse_interval(" 90\n"), Ok(90));
    assert_eq!(parse_interval("+5"), Ok(5));
    assert_eq!(parse_interval("0"), Ok(0));
    assert_eq!(parse_interval("007"), Ok(7));
    assert_eq!(parse_interval("18446744073709551615"), Ok(u64::MAX));
    assert_eq!(parse_interval("00018446744073709551615"), Ok(u64::MAX));
}

#[test]
fn intervals_agree_with_std_where_a_number_is_written() {
    for text in ["1", "+1", "42", " 3600 ", "18446744073709551615", "184467440737095516", "9"] {
        assert_eq!(parse_interval(text).ok(), text.trim().parse::<u64>().ok(), "{:?}", text);
    }
    for text in ["", " ", "-1", "+", "-", "1 2", "1.5", "0x10", "1e3", "18446744073709551616", "99999999999999999999", "++1", "1+"] {
        assert!(parse_interval(text).is_err(), "{:?}", text);
        assert!(text.trim().parse::<u64>().is_err(), "{:?}", text);
    }
}

#[test]
fn bad_intervals_say_why() {
    let head = "POLL_INTERVAL_SECS must be a positive integer: ";
    assert_eq!(
        parse_interval(""),
        Err(format!("{}cannot parse integer from empty string", head))
    );
    assert_eq!(
        parse_interval("  \t"),
        Err(format!("{}cannot parse integer from empty string", head))
    );
    assert_eq!(parse_interval("+"), Err(format!("{}invalid digit found in string", head)));
    assert_eq!(parse_interval("-3"), Err(format!("{}invalid digit found in string", head)));
    assert_eq!(parse_interval("12a"), Err(format!("{}invalid digit found in string", head)));
    assert_eq!(
        parse_interval("18446744073709551616"),
        Err(format!("{}number too large to fit in target type", head))
    );
    assert_eq!(
        parse_interval("99999999999999999999x"),
        Err(format!("{}number too large to fit in target type", head))
    );
    assert_eq!(
        parse_interval("18446744073709551615x"),
        Err(format!("{}invalid digit found in string", head))
    );
    assert_eq!(
        parse_interval("1x99999999999999999999"),
        Err(format!("{}invalid digit found in string", head))
    );
}

#[test]
fn bad_intervals_are_refused_in_the_words_of_std() {
    let texts = [
        "",
        " ",
        "+",
        "-",
        "-1",
        "+x",
        "++1",
        "1+",
        "12a",
        "a12",
        "1 2",
        "1.5",
        "0x10",
        "1_000",
        "18446744073709551616",
        "18446744073709551615x",
        "1844674407370955161x",
        "184467440737095516150",
        "99999999999999999999",
        "99999999999999999999x",
        "x99999999999999999999",
        "1x99999999999999999999",
        "+18446744073709551616",
        "000000000000000000000000018446744073709551616",
        "\u{663}",
    ];
    for text in texts {
        let expected = match text.trim().parse::<u64>() {
            Ok(_) => panic!("{:?} is a number", text),
            Err(e) => format!("POLL_INTERVAL_SECS must be a positive integer: {}", e),
        };
        assert_eq!(parse_interval(text), Err(expected), "{:?}", text);
    }
}

#[test]
fn interval_from_a_setting_that_may_be_absent() {
    assert_eq!(Configuration::interval_from(None), Ok(60));
    assert_eq!(Configuration::interval_from(Some(" 90\n")), Ok(90));
    assert_eq!(
        Configuration::interval_from(Some("soon")),
        Err("POLL_INTERVAL_SECS must be a positive integer: invalid digit found in string".to_string())
    );
}
