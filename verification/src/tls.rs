//! The TLS error classifier: tell a fault of the TLS layer apart from a
//! fault of the underlying transport, and turn a failed read into the event
//! the read loop ingests.

use crate::reader::ReadEvent;
use openssl::ssl;
use vstd::prelude::*;

verus! {

#[verifier::external_type_specification]
#[verifier::external_body]
pub struct ExSslError(ssl::Error);

/// Check if the error happened in I/O (false) or in the TLS stack (true).
///
/// Relies on openssl's `ssl::Error::into_io_error`: it returns `Ok` with the
/// underlying I/O error exactly when the error wraps one (a transport fault),
/// and gives the TLS-layer error back as `Err` otherwise. Nothing further is
/// stated: which layer an error came from can only be read off the error
/// value itself.
#[verifier::external_body]
pub(crate) fn is_ssl_error(error: ssl::Error) -> bool {
    error.into_io_error().is_err()
}

/// The read event for a failed TLS read: always a `Failure`, carrying the
/// classification of the error's layer.
pub fn event_for_error(error: ssl::Error) -> (r: ReadEvent)
    ensures
        r is Failure,
{
    ReadEvent::Failure { tls: is_ssl_error(error) }
}

} // verus!
