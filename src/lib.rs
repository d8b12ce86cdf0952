//! Short-lived credentials and configured clients for a device management API.
//!
//! Credentials come from a local credential-issuing service whose reply is a
//! single-element tuple of one string, `('<username>:<password>',)`. The
//! library decides everything about that exchange (the call to make, how the
//! reply is read, which errors come out) and builds the client; the caller runs
//! the subprocess and any network probing.
pub mod client;
pub mod credentials;
pub mod error;
pub mod request;
pub mod text;

pub use client::{ClientConfig, Mode, TransportScheme};
pub use credentials::{Credentials, ExitOutcome};
pub use error::{ClientBuildError, FormatError, VapixError};
pub use request::RequestCounter;
