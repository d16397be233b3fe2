//! The settings of the relay, turned into a transport in the making.
//!
//! The transport itself is not made here: it starts work in the background
//! as soon as it exists, and so belongs to the program that runs it.

use vstd::prelude::*;
use lettre::transport::smtp::authentication::Credentials;
use lettre::transport::smtp::AsyncSmtpTransportBuilder;
use crate::config::{SmtpConfig, SmtpEncryption};

verus! {

/// `lettre::transport::smtp::AsyncSmtpTransportBuilder`, opaque.
#[verifier::external_type_specification]
#[verifier::external_body]
pub struct ExAsyncSmtpTransportBuilder(lettre::transport::smtp::AsyncSmtpTransportBuilder);

/// `lettre::transport::smtp::authentication::Credentials`, opaque.
#[verifier::external_type_specification]
#[verifier::external_body]
pub struct ExCredentials(lettre::transport::smtp::authentication::Credentials);

/// `lettre::transport::smtp::Error`, opaque.
#[verifier::external_type_specification]
#[verifier::external_body]
pub struct ExSmtpError(lettre::transport::smtp::Error);

/// The server that a transport in the making connects to.
pub uninterp spec fn server_of(builder: lettre::transport::smtp::AsyncSmtpTransportBuilder) -> Seq<
    char,
>;

/// The port that a transport in the making connects to.
pub uninterp spec fn port_of(builder: lettre::transport::smtp::AsyncSmtpTransportBuilder) -> u16;

/// What a transport in the making logs in with: user name and password,
/// where it has credentials.
pub uninterp spec fn login_of(
    builder: lettre::transport::smtp::AsyncSmtpTransportBuilder,
) -> Option<(Seq<char>, Seq<char>)>;

/// How a transport in the making secures its connection.
pub uninterp spec fn security_of(
    builder: lettre::transport::smtp::AsyncSmtpTransportBuilder,
) -> SmtpEncryption;

/// The user name and the password that credentials hold.
pub uninterp spec fn pair_of(
    credentials: lettre::transport::smtp::authentication::Credentials,
) -> (Seq<char>, Seq<char>);

/// `Credentials::new` pairs a user name with a password.
pub assume_specification[ lettre::transport::smtp::authentication::Credentials::new ](
    username: String,
    password: String,
) -> (made: lettre::transport::smtp::authentication::Credentials)
    ensures
        pair_of(made) == (username@, password@),
;

/// `AsyncSmtpTransportBuilder::credentials` sets what to log in with and
/// leaves server, port and security as they are.
pub assume_specification[ lettre::transport::smtp::AsyncSmtpTransportBuilder::credentials ](
    builder: lettre::transport::smtp::AsyncSmtpTransportBuilder,
    credentials: lettre::transport::smtp::authentication::Credentials,
) -> (made: lettre::transport::smtp::AsyncSmtpTransportBuilder)
    ensures
        login_of(made) == Some(pair_of(credentials)),
        server_of(made) == server_of(builder),
        port_of(made) == port_of(builder),
        security_of(made) == security_of(builder),
;

/// `AsyncSmtpTransportBuilder::port` sets the port to connect to and leaves
/// server, credentials and security as they are.
pub assume_specification[ lettre::transport::smtp::AsyncSmtpTransportBuilder::port ](
    builder: lettre::transport::smtp::AsyncSmtpTransportBuilder,
    port: u16,
) -> (made: lettre::transport::smtp::AsyncSmtpTransportBuilder)
    ensures
        port_of(made) == port,
        server_of(made) == server_of(builder),
        login_of(made) == login_of(builder),
        security_of(made) == security_of(builder),
;

/// `AsyncSmtpTransport::relay`: a transport over TLS to `host`, on port 465
/// and without credentials. It fails where no TLS set-up can be had for the
/// host; when, depends on the machine.
#[verifier::external_body]
fn tls_relay(host: &str) -> (r: Result<AsyncSmtpTransportBuilder, lettre::transport::smtp::Error>)
    ensures
        r is Ok ==> {
            &&& server_of(r->Ok_0) == host@
            &&& port_of(r->Ok_0) == 465
            &&& login_of(r->Ok_0) is None
            &&& security_of(r->Ok_0) == SmtpEncryption::Tls
        },
{
    lettre::AsyncSmtpTransport::<lettre::Tokio1Executor>::relay(host)
}

/// `AsyncSmtpTransport::starttls_relay`: a transport to `host` that upgrades
/// with STARTTLS, on port 587 and without credentials. It fails as `relay`
/// does.
#[verifier::external_body]
fn starttls_relay(host: &str) -> (r: Result<
    AsyncSmtpTransportBuilder,
    lettre::transport::smtp::Error,
>)
    ensures
        r is Ok ==> {
            &&& server_of(r->Ok_0) == host@
            &&& port_of(r->Ok_0) == 587
            &&& login_of(r->Ok_0) is None
            &&& security_of(r->Ok_0) == SmtpEncryption::StartTls
        },
{
    lettre::AsyncSmtpTransport::<lettre::Tokio1Executor>::starttls_relay(host)
}

/// `AsyncSmtpTransport::builder_dangerous`: a transport to `host` without
/// encryption, on port 25 and without credentials. It does not fail.
#[verifier::external_body]
fn plain_relay(host: &str) -> (made: AsyncSmtpTransportBuilder)
    ensures
        server_of(made) == host@,
        port_of(made) == 25,
        login_of(made) is None,
        security_of(made) == SmtpEncryption::Unencrypted,
{
    lettre::AsyncSmtpTransport::<lettre::Tokio1Executor>::builder_dangerous(host)
}

/// The words of an error of the transport.
#[verifier::external_body]
fn describe(error: &lettre::transport::smtp::Error) -> String {
    error.to_string()
}

/// Why no transport could be set up.
#[derive(Debug, Clone, PartialEq, Eq)]
pub struct TransportError {
    /// The words of the transport.
    pub text: String,
}

/// The port that a transport of a kind connects to unless it is told
/// another: 465 for TLS, 587 for STARTTLS, 25 without encryption.
pub open spec fn default_port(encryption: SmtpEncryption) -> u16 {
    match encryption {
        SmtpEncryption::Tls => 465,
        SmtpEncryption::StartTls => 587,
        SmtpEncryption::Unencrypted => 25,
    }
}

/// What a configuration logs in with: user name and password where it has
/// both, nothing where it lacks either.
pub open spec fn login(config: &SmtpConfig) -> Option<(Seq<char>, Seq<char>)> {
    match (config.username, config.password) {
        (Some(user), Some(secret)) => Some((user@, secret@)),
        _ => None,
    }
}

/// Sets up the transport for a configuration.
///
/// The kind of the transport follows the encryption, and it connects to the
/// host of the configuration. Credentials are set where the configuration
/// has both user name and password, the port where it has one. Only the two
/// encrypted kinds can fail, and a failure is never made up for by a
/// transport of another kind.
pub fn configure(config: &SmtpConfig) -> (r: Result<AsyncSmtpTransportBuilder, TransportError>)
    ensures
        config.encryption == SmtpEncryption::Unencrypted ==> r is Ok,
        r is Ok ==> {
            &&& server_of(r->Ok_0) == config.host@
            &&& security_of(r->Ok_0) == config.encryption
            &&& login_of(r->Ok_0) == login(config)
            &&& port_of(r->Ok_0) == match config.port {
                Some(port) => port,
                None => default_port(config.encryption),
            }
        },
{
    let made = match config.encryption {
        SmtpEncryption::Tls => tls_relay(config.host.as_str()),
        SmtpEncryption::StartTls => starttls_relay(config.host.as_str()),
        SmtpEncryption::Unencrypted => Ok(plain_relay(config.host.as_str())),
    };
    finish_setup(made, config)
}

/// What becomes of a transport once `lettre` has made it, or has failed to.
///
/// A transport that was made gets the credentials of the configuration,
/// where it has both user name and password, and its port, where it has one;
/// server and security stay as they were made. A failure is passed on in the
/// words of the transport.
pub fn finish_setup(
    made: Result<AsyncSmtpTransportBuilder, lettre::transport::smtp::Error>,
    config: &SmtpConfig,
) -> (r: Result<AsyncSmtpTransportBuilder, TransportError>)
    ensures
        r is Ok <==> made is Ok,
        made is Ok ==> {
            &&& server_of(r->Ok_0) == server_of(made->Ok_0)
            &&& security_of(r->Ok_0) == security_of(made->Ok_0)
            &&& login_of(r->Ok_0) == match login(config) {
                Some(pair) => Some(pair),
                None => login_of(made->Ok_0),
            }
            &&& port_of(r->Ok_0) == match config.port {
                Some(port) => port,
                None => port_of(made->Ok_0),
            }
        },
{
    let builder = match made {
        Ok(builder) => builder,
        Err(error) => {
            return Err(TransportError { text: describe(&error) });
        },
    };
    let builder = match config.credentials() {
        Some((user, secret)) => builder.credentials(Credentials::new(user, secret)),
        None => builder,
    };
    let builder = match config.port {
        Some(port) => builder.port(port),
        None => builder,
    };
    Ok(builder)
}

} // verus!
