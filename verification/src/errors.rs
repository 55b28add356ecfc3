//! Error values of the server lifecycle.

use vstd::prelude::*;

verus! {

/// Failure reported by the external key rotator's connect operation: the
/// fallible call that reaches the external key store and establishes the
/// initial cookie-encryption keys.
#[derive(Clone, Copy, Debug, PartialEq, Eq, Structural)]
pub enum RotateError {
    /// The external key store could not be reached.
    StoreConnectivity,
    /// The store answered, but no usable initial key material was obtained.
    InitialKeys,
}

/// Failure while building the TLS server identity.
#[derive(Clone, Copy, Debug, PartialEq, Eq, Structural)]
pub enum TlsConfigError {
    /// The configured private key is not a usable RSA or ECDSA key.
    InvalidPrivateKey,
}

/// Failure of one listener's startup step, reported as an event while the
/// start sequence runs. Any of these aborts the whole startup: a
/// misconfigured listener is a configuration defect, not a transient fault.
#[derive(Clone, Copy, Debug, PartialEq, Eq, Structural)]
pub enum SetupError {
    /// The configured address did not resolve to a socket address.
    AddressResolution,
    /// The listening socket could not be bound (port in use, permissions).
    Bind,
    /// The per-connection protocol handler could not be constructed.
    HandlerConstruction,
}

/// Failure of `connect`, covering both the propagated rotator error and the
/// startup-fatal TLS identity defects.
#[derive(Clone, Copy, Debug, PartialEq, Eq, Structural)]
pub enum ConnectError {
    /// The key rotator's connect operation failed; carried through unchanged.
    Rotate(RotateError),
    /// The configuration holds no private key at all.
    NoPrivateKey,
    /// The first configured private key is not usable.
    InvalidPrivateKey,
}

} // verus!
