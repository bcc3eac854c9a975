//! A verified client/server session-authentication core.
//!
//! The client authenticates with HTTP Basic credentials on first contact and
//! with a server-issued identity cookie thereafter.  The heart of the library
//! is the client-side session state machine, which must converge to the right
//! authentication status even when network completions arrive out of order.

pub mod bytes;
pub mod creds;
pub mod laws;
pub mod model;
pub mod router;
pub mod server;
pub mod session;
pub mod transport;
