use vstd::prelude::*;

verus! {

/// Errors raised by channel construction and per-call request handling.
///
/// Construction errors (`CertificateError`, `TransportInitError`) prevent a
/// channel from ever being used; per-call errors (`RequestRewriteError`,
/// `TransportError`) are fatal to that one call only and leave the channel
/// usable for subsequent calls.
#[derive(Clone, Copy, Debug, PartialEq, Eq, Structural)]
pub enum ChannelError {
    /// The trust-anchor bytes are not a parseable PEM-encoded certificate.
    CertificateError,
    /// TLS configuration or HTTP/2 client construction failed after the
    /// certificate itself parsed.
    TransportInitError,
    /// The inbound request's URI lacks a component needed to rebuild it
    /// against the channel's base endpoint.
    RequestRewriteError,
    /// A network, TLS, or protocol failure surfaced while a call was in
    /// flight.
    TransportError,
}

} // verus!
