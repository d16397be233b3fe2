//! Connection settings of the upstream SMTP relay.
//!
//! The settings arrive as optional pieces of text, one per setting, and are
//! turned into an `SmtpConfig` once, before the first request is served.

use vstd::prelude::*;
use crate::text::{chars_of, str_of, text_of, trim, trim_bounds, trimmed};

verus! {

/// How the connection to the relay is secured.
#[derive(Debug, Clone, Copy, PartialEq, Eq, Structural)]
pub enum SmtpEncryption {
    /// TLS from the first byte.
    Tls,
    /// Plain connection that is upgraded with STARTTLS.
    StartTls,
    /// No encryption at all.
    Unencrypted,
}

/// The settings of the relay.
#[derive(Debug, Clone)]
pub struct SmtpConfig {
    /// Name of the relay; never blank.
    pub host: String,
    /// Port to connect to, where the default of the encryption is not meant.
    pub port: Option<u16>,
    pub encryption: SmtpEncryption,
    pub username: Option<String>,
    pub password: Option<String>,
}

/// Why no configuration could be made. Each of these stops the start-up.
#[derive(Debug, Clone, Copy, PartialEq, Eq, Structural)]
pub enum ConfigError {
    /// No host was given.
    HostMissing,
    /// The host is empty or blank.
    HostEmpty,
    /// The port is not a number from 0 to 65535.
    PortInvalid,
}

/// The code point of `c`, with the ASCII capital letters read as small ones.
pub open spec fn lower_code(c: char) -> u32 {
    let u = c as u32;
    if 0x41 <= u <= 0x5A {
        (u + 0x20) as u32
    } else {
        u
    }
}

/// Whether `s` is `word` but for the case of its ASCII letters. `word` is
/// written in small letters.
pub open spec fn is_word(s: Seq<char>, word: Seq<char>) -> bool {
    &&& s.len() == word.len()
    &&& forall|i: int| 0 <= i < s.len() ==> lower_code(#[trigger] s[i]) == word[i] as u32
}

/// The encryption that a setting names: `starttls` and `unencrypted` are
/// recognised, in any case and with blanks around them. Everything else,
/// and no setting at all, means TLS.
pub open spec fn encryption_named(value: Option<Seq<char>>) -> SmtpEncryption {
    match value {
        None => SmtpEncryption::Tls,
        Some(v) => if is_word(trimmed(v), "starttls"@) {
            SmtpEncryption::StartTls
        } else if is_word(trimmed(v), "unencrypted"@) {
            SmtpEncryption::Unencrypted
        } else {
            SmtpEncryption::Tls
        },
    }
}

/// Whether `c` is one of `0` to `9`.
pub open spec fn is_digit(c: char) -> bool {
    0x30 <= c as u32 <= 0x39
}

/// The number that a run of decimal digits writes.
pub open spec fn decimal_value(digits: Seq<char>) -> nat
    decreases digits.len(),
{
    if digits.len() == 0 {
        0
    } else {
        (decimal_value(digits.drop_last()) * 10 + (digits.last() as u32 - 0x30)) as nat
    }
}

/// The digits of a port setting: the text itself, without a leading `+`.
pub open spec fn port_digits(text: Seq<char>) -> Seq<char> {
    if text.len() > 0 && text[0] == '+' {
        text.skip(1)
    } else {
        text
    }
}

/// The port that a setting writes: one or more decimal digits, with nothing
/// before them but an optional `+` and nothing behind, and a value of at most
/// 65535.
pub open spec fn port_written(text: Seq<char>) -> Option<u16> {
    let digits = port_digits(text);
    if digits.len() > 0 && (forall|i: int| 0 <= i < digits.len() ==> is_digit(#[trigger] digits[i]))
        && decimal_value(digits) <= 0xFFFF {
        Some(decimal_value(digits) as u16)
    } else {
        None
    }
}

/// What stands in the way of a configuration, checked in this order: the
/// host, then the port.
pub open spec fn config_failure(host: Option<Seq<char>>, port: Option<Seq<char>>) -> Option<
    ConfigError,
> {
    match host {
        None => Some(ConfigError::HostMissing),
        Some(h) => if trimmed(h).len() == 0 {
            Some(ConfigError::HostEmpty)
        } else {
            match port {
                Some(p) => if port_written(p) is None {
                    Some(ConfigError::PortInvalid)
                } else {
                    None
                },
                None => None,
            }
        },
    }
}

/// A longer run of digits writes no smaller number.
proof fn lemma_decimal_value_grows(digits: Seq<char>, k: int)
    requires
        0 <= k <= digits.len(),
        forall|i: int| 0 <= i < digits.len() ==> is_digit(#[trigger] digits[i]),
    ensures
        decimal_value(digits.take(k)) <= decimal_value(digits),
    decreases digits.len() - k,
{
    if k < digits.len() {
        lemma_decimal_value_grows(digits, k + 1);
        assert(digits.take(k + 1).drop_last() =~= digits.take(k));
    } else {
        assert(digits.take(k) =~= digits);
    }
}

/// Whether `chars[from..to]` is `word` but for the case of its ASCII letters.
fn range_is_word(chars: &Vec<char>, from: usize, to: usize, word: &str) -> (r: bool)
    requires
        from <= to <= chars.len(),
    ensures
        r == is_word(chars@.subrange(from as int, to as int), word@),
{
    let letters = chars_of(word);
    let ghost s = chars@.subrange(from as int, to as int);
    if to - from != letters.len() {
        return false;
    }
    let mut i: usize = 0;
    while i < letters.len()
        invariant
            from <= to <= chars.len(),
            to - from == letters.len(),
            i <= letters.len(),
            s == chars@.subrange(from as int, to as int),
            letters@ == word@,
            forall|j: int| 0 <= j < i ==> lower_code(#[trigger] s[j]) == word@[j] as u32,
        decreases letters.len() - i,
    {
        let u: u32 = chars[from + i] as u32;
        let low: u32 = if 0x41 <= u && u <= 0x5A {
            u + 0x20
        } else {
            u
        };
        proof {
            assert(s[i as int] == chars@[from + i]);
        }
        if low != letters[i] as u32 {
            return false;
        }
        i = i + 1;
    }
    true
}

impl SmtpEncryption {
    /// The encryption that a setting names. A value that is not recognised
    /// is no error: it means TLS, as a missing value does.
    pub fn parse(value: Option<&str>) -> (r: SmtpEncryption)
        ensures
            r == encryption_named(str_of(value)),
    {
        match value {
            None => SmtpEncryption::Tls,
            Some(v) => {
                let chars = chars_of(v);
                let (a, b) = trim_bounds(&chars, 0, chars.len());
                proof {
                    assert(chars@.subrange(0, chars.len() as int) =~= chars@);
                }
                if range_is_word(&chars, a, b, "starttls") {
                    SmtpEncryption::StartTls
                } else if range_is_word(&chars, a, b, "unencrypted") {
                    SmtpEncryption::Unencrypted
                } else {
                    SmtpEncryption::Tls
                }
            },
        }
    }

    /// The name of the encryption in capital letters.
    pub fn to_string(&self) -> (r: String)
        ensures
            r@ == match *self {
                SmtpEncryption::Tls => "TLS"@,
                SmtpEncryption::StartTls => "STARTTLS"@,
                SmtpEncryption::Unencrypted => "UNENCRYPTED"@,
            },
    {
        match self {
            SmtpEncryption::Tls => "TLS".to_owned(),
            SmtpEncryption::StartTls => "STARTTLS".to_owned(),
            SmtpEncryption::Unencrypted => "UNENCRYPTED".to_owned(),
        }
    }
}

/// Reads a port setting.
pub fn parse_port(text: &str) -> (r: Option<u16>)
    ensures
        r == port_written(text@),
{
    let chars = chars_of(text);
    let n = chars.len();
    let start: usize = if n > 0 && chars[0] == '+' {
        1
    } else {
        0
    };
    let ghost digits = port_digits(text@);
    if start == n {
        return None;
    }
    let mut value: u32 = 0;
    let mut i: usize = start;
    while i < n
        invariant
            start <= i <= n,
            n == chars.len(),
            digits == chars@.subrange(start as int, n as int),
            digits == port_digits(text@),
            forall|j: int| 0 <= j < i - start ==> is_digit(#[trigger] digits[j]),
            value == decimal_value(digits.take(i - start)),
            value <= 0xFFFF,
        decreases n - i,
    {
        let u: u32 = chars[i] as u32;
        proof {
            assert(digits[i - start] == chars@[i as int]);
            assert(digits.take(i - start + 1).drop_last() =~= digits.take(i - start));
        }
        if u < 0x30 || u > 0x39 {
            return None;
        }
        value = value * 10 + (u - 0x30);
        if value > 0xFFFF {
            proof {
                if forall|j: int| 0 <= j < digits.len() ==> is_digit(#[trigger] digits[j]) {
                    lemma_decimal_value_grows(digits, i - start + 1);
                }
            }
            return None;
        }
        i = i + 1;
    }
    proof {
        assert(digits.take(n - start) =~= digits);
    }
    Some(value as u16)
}

impl SmtpConfig {
    /// What holds of every configuration that `new` makes: the host is not
    /// blank.
    pub open spec fn well_formed(&self) -> bool {
        trimmed(self.host@).len() > 0
    }

    /// Makes the configuration from the settings as they were found, each
    /// `None` where it was not set.
    ///
    /// The host is required and must not be blank. The port, where given, must
    /// be a number that fits sixteen bits. User name and password are taken
    /// as they are. The encryption is never a reason to fail.
    pub fn new(
        host: Option<String>,
        port: Option<String>,
        encryption: Option<String>,
        username: Option<String>,
        password: Option<String>,
    ) -> (r: Result<SmtpConfig, ConfigError>)
        ensures
            match r {
                Ok(config) => {
                    &&& config.well_formed()
                    &&& config_failure(text_of(host), text_of(port)) is None
                    &&& Some(config.host@) == text_of(host)
                    &&& config.port == match port {
                        Some(p) => port_written(p@),
                        None => None,
                    }
                    &&& config.encryption == encryption_named(text_of(encryption))
                    &&& config.username == username
                    &&& config.password == password
                },
                Err(e) => config_failure(text_of(host), text_of(port)) == Some(e),
            },
    {
        let host = match host {
            Some(h) => h,
            None => {
                return Err(ConfigError::HostMissing);
            },
        };
        if trim(host.as_str()).as_str().is_empty() {
            return Err(ConfigError::HostEmpty);
        }
        let port = match port {
            Some(p) => match parse_port(p.as_str()) {
                Some(number) => Some(number),
                None => {
                    return Err(ConfigError::PortInvalid);
                },
            },
            None => None,
        };
        let encryption = match &encryption {
            Some(e) => SmtpEncryption::parse(Some(e.as_str())),
            None => SmtpEncryption::parse(None),
        };
        Ok(SmtpConfig { host, port, encryption, username, password })
    }

    /// The credentials to log in with: user name and password, where both
    /// are set. One without the other is not used.
    pub fn credentials(&self) -> (r: Option<(String, String)>)
        ensures
            match r {
                Some((user, secret)) => self.username == Some(user) && self.password == Some(
                    secret,
                ),
                None => self.username is None || self.password is None,
            },
    {
        match (&self.username, &self.password) {
            (Some(user), Some(secret)) => Some((user.clone(), secret.clone())),
            _ => None,
        }
    }
}

} // verus!
