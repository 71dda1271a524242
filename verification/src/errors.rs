use vstd::prelude::*;

verus! {

/// Which endpoint list a rejected endpoint string was destined for.
#[derive(Clone, Copy, Debug, PartialEq, Eq, Structural)]
pub enum EndpointKind {
    Connect,
    Listen,
}

/// Fatal startup-time configuration failures. Building a session
/// configuration aborts on the first endpoint string that is not a
/// well-formed endpoint address; no partial configuration is returned.
#[derive(Debug, PartialEq, Eq)]
pub enum ConfigError {
    InvalidEndpoint { value: String, which: EndpointKind },
}

/// Transport-side failures. `DeclareFailed` is fatal at startup: the
/// transport could not register a publish endpoint for the topic, so no
/// publisher is produced. `SendFailed` is per-call and non-fatal: the
/// payload was rejected and dropped.
#[derive(Debug, PartialEq, Eq)]
pub enum TransportError {
    DeclareFailed { reason: String },
    SendFailed { reason: String },
}

/// A status value could not be serialized to its binary wire form.
/// Per-call and non-fatal: the status is dropped without reaching the
/// transport.
#[derive(Debug, PartialEq, Eq)]
pub struct EncodeError {
    pub reason: String,
}

/// The explicit outcome of one publish call. Failures never propagate to
/// the caller as errors: they are reported through this value (typically
/// logged) and the call returns normally.
#[derive(Debug, PartialEq, Eq)]
pub enum PublishOutcome {
    /// The encoded bytes were handed to the transport for delivery.
    Published,
    /// The status could not be encoded; the transport was never invoked.
    EncodeFailed(EncodeError),
    /// The transport rejected the encoded payload.
    TransportFailed(TransportError),
}

} // verus!
