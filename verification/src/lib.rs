//! A verified OAuth2 authorization-code flow with a loopback redirect.
//!
//! The library holds the protocol logic: building the authorization URL,
//! parsing the redirect request line captured by a one-shot loopback
//! listener, validating the anti-forgery state token, and sequencing the
//! token exchange as an explicit state machine. The ambient work — sockets
//! and HTTP — stays with the caller, which feeds events into the machine.

pub mod authurl;
pub mod encoding;
pub mod errors;
pub mod flow;
pub mod redirect;
pub mod secrets;
pub mod text;
