//! Core logic of a QR-code login helper: an account registry with a
//! selection state machine, a code scanner that validates decoded payloads
//! against the login scheme, a capture multiplexer that walks the displays
//! and stops at the first valid code, and a dispatcher that turns the active
//! selection and a payload into an invocation of the external authenticator.

pub mod controller;
pub mod dispatch;
pub mod mux;
pub mod registry;
pub mod scanner;
