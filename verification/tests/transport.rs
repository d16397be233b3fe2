use mail_relay::config::SmtpConfig;
use lettre::{AsyncSmtpTransport, Tokio1Executor};
use mail_relay::transport::{configure, finish_setup};

fn some(s: &str) -> Option<String> {
    Some(s.to_string())
}

#[test]
fn unencrypted_transport_is_always_set_up() {
    let config = SmtpConfig::new(some("localhost"), None, some("unencrypted"), None, None).unwrap();
    let builder = configure(&config).unwrap();
    let shown = format!("{:?}", builder);
    assert!(shown.contains("server: \"localhost\""));
    assert!(shown.contains("port: 25,"));
    assert!(shown.contains("tls: None"));
    assert!(shown.contains("credentials: None"));
}

#[test]
fn port_and_credentials_are_set() {
    let config = SmtpConfig::new(
        some("mail.example.org"),
        some("2525"),
        some("unencrypted"),
        some("user"),
        some("secret"),
    )
    .unwrap();
    let shown = format!("{:?}", configure(&config).unwrap());
    assert!(shown.contains("server: \"mail.example.org\""));
    assert!(shown.contains("port: 2525,"));
    assert!(shown.contains("credentials: Some("));
}

#[test]
fn half_a_credential_is_not_used() {
    let config = SmtpConfig::new(some("h"), None, some("unencrypted"), some("user"), None).unwrap();
    let shown = format!("{:?}", configure(&config).unwrap());
    assert!(shown.contains("credentials: None"));
}

#[test]
fn encrypted_transports_use_their_ports_unless_told_otherwise() {
    let tls = SmtpConfig::new(some("mail.example.org"), None, None, None, None).unwrap();
    match configure(&tls) {
        Ok(builder) => {
            let shown = format!("{:?}", builder);
            assert!(shown.contains("port: 465,"));
            assert!(shown.contains("tls: Wrapper,"));
        }
        Err(error) => assert!(!error.text.is_empty()),
    }
    let starttls =
        SmtpConfig::new(some("mail.example.org"), some("2587"), some("starttls"), None, None)
            .unwrap();
    match configure(&starttls) {
        Ok(builder) => {
            let shown = format!("{:?}", builder);
            assert!(shown.contains("port: 2587,"));
            assert!(shown.contains("tls: Required,"));
        }
        Err(error) => assert!(!error.text.is_empty()),
    }
}

#[test]
fn a_transport_that_was_made_gets_port_and_credentials() {
    let config =
        SmtpConfig::new(some("ignored"), some("2526"), None, some("user"), some("secret")).unwrap();
    let made = Ok(AsyncSmtpTransport::<Tokio1Executor>::builder_dangerous("mail.example.org"));
    let shown = format!("{:?}", finish_setup(made, &config).unwrap());
    assert!(shown.contains("server: \"mail.example.org\""));
    assert!(shown.contains("port: 2526,"));
    assert!(shown.contains("credentials: Some("));
}

#[test]
fn a_transport_that_was_made_keeps_its_port_where_none_is_set() {
    let config = SmtpConfig::new(some("ignored"), None, None, None, None).unwrap();
    let made = Ok(AsyncSmtpTransport::<Tokio1Executor>::builder_dangerous("h").port(1025));
    let shown = format!("{:?}", finish_setup(made, &config).unwrap());
    assert!(shown.contains("port: 1025,"));
    assert!(shown.contains("credentials: None"));
}

#[test]
fn a_failure_of_the_transport_is_passed_on_in_its_words() {
    let config = SmtpConfig::new(some("h"), some("25"), None, some("u"), some("p")).unwrap();
    let failure = AsyncSmtpTransport::<Tokio1Executor>::from_url("gopher://nowhere").unwrap_err();
    let words = failure.to_string();
    let error = finish_setup(Err(failure), &config).unwrap_err();
    assert_eq!(error.text, words);
    assert!(!error.text.is_empty());
}
