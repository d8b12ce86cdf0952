use vstd::prelude::*;

verus! {

/// Which part of the credential service's reply does not fit its grammar.
#[derive(Clone, Copy, Debug, PartialEq, Eq, Structural)]
pub enum FormatError {
    /// The reply does not begin with `('`.
    MissingPrefix,
    /// What follows `('` does not end with `',)`.
    MissingSuffix,
    /// There is no `:` between the user name and the password.
    MissingSeparator,
    /// Nothing stands before the first `:`.
    EmptyUsername,
    /// Nothing stands after the first `:`.
    EmptyPassword,
}

/// Why no credentials or no client could be had.
#[derive(Debug)]
pub enum VapixError {
    /// The credential service could not be started, or its output could not be read.
    IpcSpawn { reason: String },
    /// The credential service ran but did not succeed; `code` is its exit code, if any.
    IpcInvocation { code: Option<i32> },
    /// The credential service succeeded but its reply does not fit the grammar.
    CredentialFormat(FormatError),
    /// No client could be built.
    ClientBuild(ClientBuildError),
}

/// Why no client could be built.
#[derive(Debug)]
pub enum ClientBuildError {
    /// The host-derived configuration mechanism found no configuration.
    NoConfiguration,
    /// The client's host address could not be parsed.
    InvalidHost,
    /// The client library refused to build the client; its message.
    Library { message: String },
}

} // verus!
