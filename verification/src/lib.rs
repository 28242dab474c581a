//! Authentication decisions for a TURN relay: who may connect, and with
//! which credential key.

pub mod access;
pub mod algorithm;
pub mod authenticator;
pub mod credential_file;
pub mod credentials;
pub mod key_derivation;
pub mod laws;
pub mod metrics;
pub mod text;
pub mod token;
