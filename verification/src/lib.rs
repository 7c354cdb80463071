//! Connection-dispatch core for a TLS-terminating edge node.
//!
//! The crate holds the decision logic of the node: which private key a PEM
//! file yields (PKCS#8 preferred, PKCS#1/RSA as the legacy fallback), when
//! credential loading fails and with which error, how a freshly decrypted
//! session moves through its states, and how its first byte selects the
//! protocol handler. The surrounding process — sockets, the TLS handshake
//! itself, timers — drives these functions and performs the actions they
//! return; no session's outcome can reach another session or the accept loop.

pub mod credentials;
pub mod endpoint;
pub mod session;
