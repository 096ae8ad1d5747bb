//! Error taxonomy of the session engine.
//!
//! Encode, decode, auth and timeout failures are request-scoped: the
//! session stays usable. A transport failure is connection-fatal: the
//! session shuts its guard down and must be reconstructed. Shutdown-path
//! errors themselves are deliberately swallowed — by definition the caller
//! no longer needs the connection.

use crate::codec::{DecodeError, EncodeError};
use vstd::prelude::*;

verus! {

#[derive(Debug, Clone, Copy, PartialEq, Eq)]
pub enum Error {
    /// An outbound message violated a schema constraint.
    Encode(EncodeError),
    /// Malformed or non-conforming message data; always surfaced.
    Decode(DecodeError),
    /// I/O failure on the underlying socket; the whole session becomes
    /// unusable.
    Transport,
    /// No correlated reply arrived within the configured bound; the caller
    /// decides whether to retry.
    Timeout,
    /// Credential fetch failed or the remote denied it; not retried
    /// internally.
    Auth,
    /// A reply could not be decoded as a protocol message.
    Protocol(DecodeError),
}

} // verus!
