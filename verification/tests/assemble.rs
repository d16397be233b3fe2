use lettre::message::SinglePart;
use mail_relay::assemble::{build_message, BuildError};
use mail_relay::message::{Alternative, AttachmentPart, Body, ComposedMessage};

fn list(items: &[&str]) -> Vec<String> {
    items.iter().map(|s| s.to_string()).collect()
}

fn mail() -> ComposedMessage {
    ComposedMessage {
        from_name: Some("Sender".to_string()),
        from_address: "sender@example.org".to_string(),
        to: list(&["b@x.com", "Anna <a@x.com>"]),
        cc: list(&["c@x.com"]),
        bcc: list(&["d@x.com"]),
        subject: "Hello there".to_string(),
        body: Body::Alternative(Alternative { html: "<p>Hi</p>".to_string(), text: None }),
    }
}

fn text_of(message: &lettre::Message) -> String {
    String::from_utf8(message.formatted()).unwrap()
}

fn position(haystack: &str, needle: &str) -> usize {
    match haystack.find(needle) {
        Some(at) => at,
        None => panic!("{:?} is missing in:\n{}", needle, haystack),
    }
}

#[test]
fn envelope_holds_sender_and_recipients_in_order() {
    let message = build_message(&mail()).unwrap();
    let envelope = message.envelope();
    assert_eq!(envelope.from().unwrap().to_string(), "sender@example.org");
    let to: Vec<String> = envelope.to().iter().map(|a| a.to_string()).collect();
    assert_eq!(to, list(&["b@x.com", "a@x.com", "c@x.com", "d@x.com"]));
}

#[test]
fn headers_hold_sender_subject_and_recipients() {
    let text = text_of(&build_message(&mail()).unwrap());
    assert!(text.contains("From: Sender <sender@example.org>\r\n"));
    assert!(text.contains("Subject: Hello there\r\n"));
    assert!(text.contains("To: b@x.com, Anna <a@x.com>\r\n"));
    assert!(text.contains("Cc: c@x.com\r\n"));
    assert!(!text.contains("d@x.com"));
}

#[test]
fn sender_without_name() {
    let mut m = mail();
    m.from_name = None;
    let text = text_of(&build_message(&m).unwrap());
    assert!(text.contains("From: sender@example.org\r\n"));
}

#[test]
fn html_alone_is_one_alternative_part() {
    let text = text_of(&build_message(&mail()).unwrap());
    assert!(text.contains("Content-Type: multipart/alternative;"));
    assert!(!text.contains("multipart/mixed"));
    assert_eq!(text.matches("Content-Type: text/html; charset=utf-8").count(), 1);
    assert!(!text.contains("text/plain"));
    assert!(text.contains("<p>Hi</p>"));
}

#[test]
fn html_comes_before_plain_text() {
    let mut m = mail();
    m.body = Body::Alternative(Alternative {
        html: "<p>Hi</p>".to_string(),
        text: Some("plain words".to_string()),
    });
    let text = text_of(&build_message(&m).unwrap());
    let html = position(&text, "Content-Type: text/html; charset=utf-8");
    let plain = position(&text, "Content-Type: text/plain; charset=utf-8");
    assert!(html < plain);
    assert!(position(&text, "<p>Hi</p>") < position(&text, "plain words"));
    assert!(!text.contains("multipart/mixed"));
}

#[test]
fn mixed_container_holds_the_renderings_and_then_the_attachments() {
    let mut m = mail();
    m.body = Body::Mixed(
        Alternative { html: "<p>Hi</p>".to_string(), text: Some("plain words".to_string()) },
        vec![
            AttachmentPart {
                filename: "report.txt".to_string(),
                content_type: "text/csv".to_string(),
                content: b"first file".to_vec(),
            },
            AttachmentPart {
                filename: "attachment".to_string(),
                content_type: "application/octet-stream".to_string(),
                content: vec![0, 159, 146, 150],
            },
        ],
    );
    let text = text_of(&build_message(&m).unwrap());
    let mixed = position(&text, "Content-Type: multipart/mixed;");
    let alternative = position(&text, "Content-Type: multipart/alternative;");
    let html = position(&text, "Content-Type: text/html; charset=utf-8");
    let plain = position(&text, "Content-Type: text/plain; charset=utf-8");
    let first = position(&text, "Content-Disposition: attachment; filename=\"report.txt\"");
    let second = position(&text, "Content-Disposition: attachment; filename=\"attachment\"");
    assert!(mixed < alternative);
    assert!(alternative < html);
    assert!(html < plain);
    assert!(plain < first);
    assert!(first < second);
    assert!(text.contains("Content-Type: text/csv"));
    assert!(text.contains("Content-Type: application/octet-stream"));
    assert!(text.contains("first file"));
    assert_eq!(text.matches("Content-Disposition: attachment").count(), 2);
}

#[test]
fn bad_sender_gives_no_message() {
    let mut m = mail();
    m.from_address = "nobody".to_string();
    m.to = list(&["bad"]);
    assert_eq!(build_message(&m).unwrap_err(), BuildError::Sender);
}

#[test]
fn bad_recipient_gives_no_message() {
    for field in 0..3 {
        let mut m = mail();
        match field {
            0 => m.to = list(&["a@x.com", "bad"]),
            1 => m.cc = list(&["bad"]),
            _ => m.bcc = list(&["d@x.com", ""]),
        }
        assert_eq!(build_message(&m).unwrap_err(), BuildError::Recipient);
    }
}

#[test]
fn bad_content_type_gives_no_message() {
    let mut m = mail();
    m.body = Body::Mixed(
        Alternative { html: "<p>Hi</p>".to_string(), text: None },
        vec![AttachmentPart {
            filename: "a".to_string(),
            content_type: "not a type".to_string(),
            content: Vec::new(),
        }],
    );
    assert_eq!(build_message(&m).unwrap_err(), BuildError::ContentType);
}

#[test]
fn no_recipient_is_refused_by_lettre() {
    let mut m = mail();
    m.to = Vec::new();
    m.cc = Vec::new();
    m.bcc = Vec::new();
    assert_eq!(build_message(&m).unwrap_err(), BuildError::Refused);
}

fn find(haystack: &[u8], needle: &[u8]) -> Option<usize> {
    haystack.windows(needle.len()).position(|window| window == needle)
}

#[test]
fn the_group_holds_the_part_that_lettre_makes_of_each_body() {
    let html_body = "<p>Gr\u{00FC}\u{00DF}e</p>\n<p>second line</p>";
    let plain_body = "Gr\u{00FC}\u{00DF}e\nsecond line";
    let mut m = mail();
    m.body = Body::Alternative(Alternative {
        html: html_body.to_string(),
        text: Some(plain_body.to_string()),
    });
    let bytes = build_message(&m).unwrap().formatted();
    let html = SinglePart::html(html_body.to_string()).formatted();
    let plain = SinglePart::plain(plain_body.to_string()).formatted();
    let at_html = find(&bytes, &html).unwrap();
    let at_plain = find(&bytes, &plain).unwrap();
    assert!(at_html + html.len() <= at_plain);
    assert!(find(&bytes, b"Content-Type: multipart/alternative;").unwrap() < at_html);
}

#[test]
fn the_group_holds_the_html_part_alone_where_there_is_no_text() {
    let bytes = build_message(&mail()).unwrap().formatted();
    let html = SinglePart::html("<p>Hi</p>".to_string()).formatted();
    assert!(find(&bytes, &html).is_some());
    assert!(find(&bytes, b"Content-Type: text/plain").is_none());
}

#[test]
fn a_part_depends_on_its_body_alone() {
    let body = "one\ntwo \u{1F600} three";
    assert_eq!(
        SinglePart::html(body.to_string()).formatted(),
        SinglePart::html(body.to_string()).formatted()
    );
    assert_eq!(
        SinglePart::plain(body.to_string()).formatted(),
        SinglePart::plain(body.to_string()).formatted()
    );
    assert_ne!(
        SinglePart::html(body.to_string()).formatted(),
        SinglePart::plain(body.to_string()).formatted()
    );
}

#[test]
fn sender_name_with_a_line_break_gives_no_message() {
    for bad in ["A\nB", "A\rB", " x\r\ny "] {
        let mut m = mail();
        m.from_name = Some(bad.to_string());
        m.to = list(&["bad"]);
        assert_eq!(build_message(&m).unwrap_err(), BuildError::SenderName);
    }
}

#[test]
fn bad_sender_address_comes_before_a_bad_name() {
    let mut m = mail();
    m.from_name = Some("A\nB".to_string());
    m.from_address = "nobody".to_string();
    assert_eq!(build_message(&m).unwrap_err(), BuildError::Sender);
}

#[test]
fn sender_name_with_line_breaks_around_it_gives_a_message() {
    let mut m = mail();
    m.from_name = Some("\nSender\r\n".to_string());
    let message = build_message(&m).unwrap();
    assert_eq!(message.envelope().from().unwrap().to_string(), "sender@example.org");
    assert_eq!(message.headers().get_raw("From"), Some("Sender <sender@example.org>"));
}

#[test]
fn a_blank_sender_name_is_no_name() {
    let mut m = mail();
    m.from_name = Some(" \n ".to_string());
    let message = build_message(&m).unwrap();
    assert_eq!(message.envelope().from().unwrap().to_string(), "sender@example.org");
}

#[test]
fn any_other_sender_name_can_be_written() {
    for name in ["", " ", "\t", "a\u{0}b", "quo\"te", "back\\slash", "Jäne <x>", "a,b;c", "\u{7f}"] {
        let mut m = mail();
        m.from_name = Some(name.to_string());
        match build_message(&m) {
            Ok(_) => {}
            Err(error) => assert_eq!(error, BuildError::Refused, "{:?}", name),
        }
    }
}

#[test]
fn recipients_that_were_read_can_be_written() {
    let mut m = mail();
    m.to = list(&[
        "\"Doe, Jane\" <jane@example.com>",
        "\"a \\\" b\" <q@example.com>",
        "J\u{00E4}ne <j@example.com>",
        "<bare@example.com>",
        "  Spaced   Name   <s@example.com>",
    ]);
    let message = build_message(&m).unwrap();
    let to: Vec<String> = message.envelope().to().iter().map(|a| a.to_string()).collect();
    assert_eq!(
        to,
        list(&[
            "jane@example.com",
            "q@example.com",
            "j@example.com",
            "bare@example.com",
            "s@example.com",
            "c@x.com",
            "d@x.com"
        ])
    );
}

#[test]
fn blind_copies_are_in_the_envelope_and_not_in_the_headers() {
    let message = build_message(&mail()).unwrap();
    let to: Vec<String> = message.envelope().to().iter().map(|a| a.to_string()).collect();
    assert!(to.contains(&"d@x.com".to_string()));
    assert!(!text_of(&message).contains("Bcc"));
}

#[test]
fn the_message_holds_the_lines_of_the_mail() {
    let mut m = mail();
    m.from_name = Some("  The Sender ".to_string());
    m.to = list(&["b@x.com", "\"Doe, Jane\" <jane@example.com>", "Anna <a@x.com>"]);
    m.cc = list(&["c@x.com", "c2@x.com"]);
    m.subject = "Hello there".to_string();
    let message = build_message(&m).unwrap();
    let headers = message.headers();
    assert_eq!(headers.get_raw("From"), Some("The Sender <sender@example.org>"));
    assert_eq!(
        headers.get_raw("To"),
        Some("b@x.com, \"Doe, Jane\" <jane@example.com>, Anna <a@x.com>")
    );
    assert_eq!(headers.get_raw("Cc"), Some("c@x.com, c2@x.com"));
    assert_eq!(headers.get_raw("Bcc"), None);
    assert_eq!(headers.get_raw("Subject"), Some("Hello there"));
    assert_eq!(headers.get_raw("Sender"), None);
}

#[test]
fn a_mail_without_cc_and_bcc_has_no_such_lines() {
    let mut m = mail();
    m.cc = Vec::new();
    m.bcc = Vec::new();
    let message = build_message(&m).unwrap();
    assert_eq!(message.headers().get_raw("Cc"), None);
    assert_eq!(message.headers().get_raw("Bcc"), None);
    let to: Vec<String> = message.envelope().to().iter().map(|a| a.to_string()).collect();
    assert_eq!(to, list(&["b@x.com", "a@x.com"]));
}
