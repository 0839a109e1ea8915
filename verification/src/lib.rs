//! A credential engine for time-based one-time passwords.
//!
//! The engine keeps one shared secret, derives six-digit codes from it by
//! HOTP (RFC 4226) and TOTP (RFC 6238), and offers the three commands of its
//! callers: set the secret, read it back, and get the current code.
//!
//! Every function is verified against its contract. The only parts taken on
//! trust are the HMAC-SHA1 primitive in [`mac`] and the reading of the system
//! clock in [`clock`].

pub mod clock;
pub mod error;
pub mod hotp;
pub mod mac;
pub mod panel;
pub mod secret;
pub mod service;
pub mod store;
pub mod totp;
