use vstd::prelude::*;

use crate::credentials::{reply_fields, Credentials, ExitOutcome};
use crate::error::{ClientBuildError, VapixError};
use crate::request::decimal;
use crate::text::trim;
use rs4a_vapix::{Client, ClientBuilder};

verus! {

#[verifier::external_type_specification]
#[verifier::external_body]
pub struct ExClient(Client);

#[verifier::external_type_specification]
#[verifier::external_body]
pub struct ExClientBuilder(ClientBuilder);

#[verifier::external_type_specification]
#[verifier::external_body]
#[verifier::reject_recursive_types(S)]
pub struct ExHost<S>(url::Host<S>);

/// The address that clients built from the credential service talk to.
pub const DISCOVERED_HOST: &'static str = "127.0.0.12";

/// How a client is built; fixed for the life of a process.
#[derive(Clone, Copy, Debug, PartialEq, Eq, Structural)]
pub enum Mode {
    /// From the host-derived description of the device under test, accepting
    /// invalid server certificates and choosing the scheme by probing.
    Host,
    /// With fresh credentials from the credential service, to
    /// [`DISCOVERED_HOST`] over plain HTTP.
    Discovered,
}

/// The transport a client uses.
#[derive(Clone, Copy, Debug, PartialEq, Eq, Structural)]
pub enum TransportScheme {
    /// HTTPS and WSS.
    Secure,
    /// HTTP and WS.
    Plain,
}

/// What a client is built from: where it connects, how, and as whom.
#[derive(Clone, Debug)]
pub struct ClientConfig {
    pub host: String,
    pub scheme: TransportScheme,
    pub username: String,
    pub password: String,
}

/// Whether `url::Host::parse` accepts `text`.
pub uninterp spec fn host_parses(text: Seq<char>) -> bool;

/// Four numbers below 256, each in decimal without leading zeros, joined by `.`.
pub open spec fn is_dotted_quad(text: Seq<char>) -> bool {
    exists|a: nat, b: nat, c: nat, d: nat|
        #![trigger decimal(a), decimal(b), decimal(c), decimal(d)]
        a < 256 && b < 256 && c < 256 && d < 256 && text == decimal(a) + seq!['.'] + decimal(b)
            + seq!['.'] + decimal(c) + seq!['.'] + decimal(d)
}

proof fn lemma_discovered_host_is_dotted_quad()
    ensures
        is_dotted_quad(DISCOVERED_HOST@),
{
    reveal_strlit("127.0.0.12");
    reveal_with_fuel(decimal, 3);
    assert(decimal(127) =~= seq!['1', '2', '7']);
    assert(decimal(0) =~= seq!['0']);
    assert(decimal(12) =~= seq!['1', '2']);
    assert(DISCOVERED_HOST@ =~= decimal(127) + seq!['.'] + decimal(0) + seq!['.'] + decimal(0)
        + seq!['.'] + decimal(12));
}

/// Relies on `url::Host::parse`: it reads a host name or an address, and the
/// error it gives is dropped. A dotted-quad IPv4 address is one that it reads
/// (`parse_ipv4addr` in url's `host` module).
#[verifier::external_body]
fn parse_host(text: &str) -> (r: Option<url::Host>)
    ensures
        r is Some <==> host_parses(text@),
        is_dotted_quad(text@) ==> r is Some,
{
    url::Host::parse(text).ok()
}

/// Relies on `rs4a_vapix::Client::builder`: a builder for a client of `host`.
#[verifier::external_body]
fn builder_for(host: url::Host) -> (r: ClientBuilder) {
    Client::builder(host)
}

/// Relies on `rs4a_vapix::ClientBuilder::basic_authentication`: every request
/// carries a Basic authorization header for `username` and `password`.
#[verifier::external_body]
fn with_basic_authentication(builder: ClientBuilder, username: &str, password: &str) -> (r:
    ClientBuilder) {
    builder.basic_authentication(username, password)
}

/// Relies on `rs4a_vapix::ClientBuilder::build_with_scheme`: the client uses
/// `scheme` without probing; the error, if any, is kept as its message.
#[verifier::external_body]
fn build_with_scheme(builder: ClientBuilder, scheme: TransportScheme) -> (r: Result<
    Client,
    String,
>) {
    let scheme = match scheme {
        TransportScheme::Secure => rs4a_vapix::Scheme::Secure,
        TransportScheme::Plain => rs4a_vapix::Scheme::Plain,
    };
    builder.build_with_scheme(scheme).map_err(|e| format!("{e:#}"))
}

/// The configuration of a client that uses `credentials`: it talks to
/// [`DISCOVERED_HOST`] over plain HTTP with Basic authentication.
pub fn discovered_config(credentials: Credentials) -> (r: ClientConfig)
    ensures
        r.host@ == DISCOVERED_HOST@,
        r.scheme == TransportScheme::Plain,
        r.username@ == credentials.username@,
        r.password@ == credentials.password@,
{
    ClientConfig {
        host: String::from_str(DISCOVERED_HOST),
        scheme: TransportScheme::Plain,
        username: credentials.username,
        password: credentials.password,
    }
}

/// Builds the client that `config` describes. Only the client library
/// decides whether it succeeds; every failure is a client build error.
pub fn build_client(config: &ClientConfig) -> (r: Result<Client, VapixError>)
    ensures
        r is Err ==> r->Err_0 is ClientBuild,
        !host_parses(config.host@) ==> r == Err::<Client, VapixError>(
            VapixError::ClientBuild(ClientBuildError::InvalidHost),
        ),
        host_parses(config.host@) && r is Err ==> r->Err_0->ClientBuild_0 is Library,
        is_dotted_quad(config.host@) && r is Err ==> r->Err_0->ClientBuild_0 is Library,
{
    let host = match parse_host(config.host.as_str()) {
        Some(h) => h,
        None => return Err(VapixError::ClientBuild(ClientBuildError::InvalidHost)),
    };
    let builder = with_basic_authentication(
        builder_for(host),
        config.username.as_str(),
        config.password.as_str(),
    );
    match build_with_scheme(builder, config.scheme) {
        Ok(client) => Ok(client),
        Err(message) => Err(VapixError::ClientBuild(ClientBuildError::Library { message })),
    }
}

/// The client of the discovered mode, once the credential service has run:
/// a failed run or an unreadable reply is returned as it is, and no client is
/// built for it.
pub fn discovered_client(exit: ExitOutcome, stdout: &str) -> (r: Result<Client, VapixError>)
    ensures
        !exit.success ==> r == Err::<Client, VapixError>(
            VapixError::IpcInvocation { code: exit.code },
        ),
        exit.success && reply_fields(trim(stdout@)) is Err ==> r == Err::<Client, VapixError>(
            VapixError::CredentialFormat(reply_fields(trim(stdout@))->Err_0),
        ),
        exit.success && reply_fields(trim(stdout@)) is Ok && r is Err ==> r->Err_0 is ClientBuild
            && r->Err_0->ClientBuild_0 is Library,
{
    let credentials = match Credentials::from_service_reply(exit, stdout) {
        Ok(c) => c,
        Err(e) => return Err(e),
    };
    let config = discovered_config(credentials);
    proof {
        lemma_discovered_host_is_dotted_quad();
    }
    build_client(&config)
}

/// The builder of the host mode, from what the host-derived configuration
/// mechanism found: its error, as a message, or no configuration at all, is a
/// client build error; a builder found is used as it is.
pub fn host_builder(found: Result<Option<ClientBuilder>, String>) -> (r: Result<
    ClientBuilder,
    VapixError,
>)
    ensures
        match found {
            Ok(Some(b)) => r == Ok::<ClientBuilder, VapixError>(b),
            Ok(None) => r == Err::<ClientBuilder, VapixError>(
                VapixError::ClientBuild(ClientBuildError::NoConfiguration),
            ),
            Err(message) => r == Err::<ClientBuilder, VapixError>(
                VapixError::ClientBuild(ClientBuildError::Library { message }),
            ),
        },
{
    match found {
        Ok(Some(b)) => Ok(b),
        Ok(None) => Err(VapixError::ClientBuild(ClientBuildError::NoConfiguration)),
        Err(message) => Err(VapixError::ClientBuild(ClientBuildError::Library { message })),
    }
}

} // verus!
