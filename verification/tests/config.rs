use mail_relay::config::{parse_port, ConfigError, SmtpConfig, SmtpEncryption};

fn some(s: &str) -> Option<String> {
    Some(s.to_string())
}

#[test]
fn unrecognised_encryption_means_tls() {
    assert_eq!(SmtpEncryption::parse(Some("bogus")), SmtpEncryption::Tls);
}

#[test]
fn missing_encryption_means_tls() {
    assert_eq!(SmtpEncryption::parse(None), SmtpEncryption::Tls);
    assert_eq!(SmtpEncryption::parse(Some("")), SmtpEncryption::Tls);
}

#[test]
fn encryption_is_read_in_any_case_and_trimmed() {
    assert_eq!(SmtpEncryption::parse(Some("tls")), SmtpEncryption::Tls);
    assert_eq!(SmtpEncryption::parse(Some("TLS")), SmtpEncryption::Tls);
    assert_eq!(SmtpEncryption::parse(Some("starttls")), SmtpEncryption::StartTls);
    assert_eq!(SmtpEncryption::parse(Some(" StartTLS\n")), SmtpEncryption::StartTls);
    assert_eq!(SmtpEncryption::parse(Some("STARTTLS")), SmtpEncryption::StartTls);
    assert_eq!(
        SmtpEncryption::parse(Some("unencrypted")),
        SmtpEncryption::Unencrypted
    );
    assert_eq!(
        SmtpEncryption::parse(Some("\tUnEncrypted ")),
        SmtpEncryption::Unencrypted
    );
}

#[test]
fn near_misses_mean_tls() {
    for value in ["starttls!", "start tls", "unencrypte", "unencryptedd", "none", "ssl"] {
        assert_eq!(SmtpEncryption::parse(Some(value)), SmtpEncryption::Tls);
    }
}

#[test]
fn encryption_agrees_with_lowercasing_by_the_standard_library() {
    let samples = [
        "tls",
        "STARTTLS",
        "sTaRtTlS",
        " unencrypted ",
        "UNENCRYPTED",
        "ſtarttls",
        "STARTTLſ",
        "unencrypted\u{0307}",
        "ünencrypted",
        "İstarttls",
        "starttlS\u{00A0}",
        "\u{212A}",
        "",
    ];
    for sample in samples.iter() {
        let expected = match sample.trim().to_lowercase().as_str() {
            "tls" => SmtpEncryption::Tls,
            "starttls" => SmtpEncryption::StartTls,
            "unencrypted" => SmtpEncryption::Unencrypted,
            _ => SmtpEncryption::Tls,
        };
        assert_eq!(SmtpEncryption::parse(Some(sample)), expected, "{:?}", sample);
    }
}

#[test]
fn only_ascii_capitals_lowercase_to_the_letters_of_the_names() {
    let letters = "starttlsunencrypted";
    let mut code: u32 = 0;
    while code <= 0x10FFFF {
        if let Some(c) = char::from_u32(code) {
            let lowered: String = c.to_lowercase().collect();
            let mut chars = lowered.chars();
            let first = chars.next().unwrap();
            if letters.contains(first) {
                assert!(chars.next().is_none());
                assert!(c == first || (c.is_ascii_uppercase() && c.to_ascii_lowercase() == first));
            }
        }
        code += 1;
    }
}

#[test]
fn encryption_names() {
    assert_eq!(SmtpEncryption::Tls.to_string(), "TLS");
    assert_eq!(SmtpEncryption::StartTls.to_string(), "STARTTLS");
    assert_eq!(SmtpEncryption::Unencrypted.to_string(), "UNENCRYPTED");
}

#[test]
fn port_of_exact_values() {
    assert_eq!(parse_port("25"), Some(25));
    assert_eq!(parse_port("0"), Some(0));
    assert_eq!(parse_port("65535"), Some(65535));
    assert_eq!(parse_port("65536"), None);
    assert_eq!(parse_port("+587"), Some(587));
    assert_eq!(parse_port("000465"), Some(465));
    assert_eq!(parse_port(""), None);
    assert_eq!(parse_port("+"), None);
    assert_eq!(parse_port("-1"), None);
    assert_eq!(parse_port(" 25"), None);
    assert_eq!(parse_port("25 "), None);
    assert_eq!(parse_port("2 5"), None);
    assert_eq!(parse_port("25a"), None);
    assert_eq!(parse_port("٢٥"), None);
    assert_eq!(parse_port("99999999999999999999999"), None);
}

#[test]
fn port_agrees_with_the_standard_library() {
    let samples = [
        "", "+", "-", "++1", "+-1", "1+", "0", "00", "+0", "-0", "1", "9", "10", "65534", "65535",
        "65536", "65540", "70000", "99999", "100000", "0065535", "+65535", "+65536", "4294967296",
        "4294967321", "18446744073709551616", "1e3", "0x10", "1_000", "１２", "12\n", "\t12",
    ];
    for sample in samples.iter() {
        assert_eq!(parse_port(sample), sample.parse::<u16>().ok(), "{:?}", sample);
    }
    let mut n: u32 = 0;
    while n <= 70000 {
        let text = n.to_string();
        assert_eq!(parse_port(&text), text.parse::<u16>().ok());
        n += 1;
    }
}

#[test]
fn configuration_from_all_settings() {
    let config = SmtpConfig::new(
        some("mail.example.org"),
        some("2525"),
        some("StartTLS"),
        some("user@example.org"),
        some("secret"),
    )
    .unwrap();
    assert_eq!(config.host, "mail.example.org");
    assert_eq!(config.port, Some(2525));
    assert_eq!(config.encryption, SmtpEncryption::StartTls);
    assert_eq!(config.username, some("user@example.org"));
    assert_eq!(config.password, some("secret"));
}

#[test]
fn configuration_from_the_host_alone() {
    let config = SmtpConfig::new(some("mail.example.org"), None, None, None, None).unwrap();
    assert_eq!(config.host, "mail.example.org");
    assert_eq!(config.port, None);
    assert_eq!(config.encryption, SmtpEncryption::Tls);
    assert_eq!(config.username, None);
    assert_eq!(config.password, None);
}

#[test]
fn host_is_kept_as_it_was_given() {
    let config = SmtpConfig::new(some(" mail.example.org "), None, None, None, None).unwrap();
    assert_eq!(config.host, " mail.example.org ");
}

#[test]
fn missing_host_is_an_error() {
    assert_eq!(
        SmtpConfig::new(None, some("25"), None, None, None).unwrap_err(),
        ConfigError::HostMissing
    );
}

#[test]
fn blank_host_is_an_error() {
    assert_eq!(
        SmtpConfig::new(some(""), None, None, None, None).unwrap_err(),
        ConfigError::HostEmpty
    );
    assert_eq!(
        SmtpConfig::new(some(" \t"), some("x"), None, None, None).unwrap_err(),
        ConfigError::HostEmpty
    );
}

#[test]
fn bad_port_is_an_error() {
    assert_eq!(
        SmtpConfig::new(some("h"), some("seventy"), None, None, None).unwrap_err(),
        ConfigError::PortInvalid
    );
    assert_eq!(
        SmtpConfig::new(some("h"), some("65536"), None, None, None).unwrap_err(),
        ConfigError::PortInvalid
    );
    assert_eq!(
        SmtpConfig::new(some("h"), some(""), None, None, None).unwrap_err(),
        ConfigError::PortInvalid
    );
}

#[test]
fn bogus_encryption_is_no_error() {
    let config = SmtpConfig::new(some("h"), None, some("bogus"), None, None).unwrap();
    assert_eq!(config.encryption, SmtpEncryption::Tls);
}

#[test]
fn credentials_need_both_parts() {
    let both = SmtpConfig::new(some("h"), None, None, some("u"), some("p")).unwrap();
    assert_eq!(both.credentials(), Some(("u".to_string(), "p".to_string())));
    let user_only = SmtpConfig::new(some("h"), None, None, some("u"), None).unwrap();
    assert_eq!(user_only.credentials(), None);
    let secret_only = SmtpConfig::new(some("h"), None, None, None, some("p")).unwrap();
    assert_eq!(secret_only.credentials(), None);
    let neither = SmtpConfig::new(some("h"), None, None, None, None).unwrap();
    assert_eq!(neither.credentials(), None);
}
