//! A single-process relay: it accepts HTTP requests on a local listener and
//! forwards their payload as a message to one pre-resolved chat on the
//! Telegram bot API.
//!
//! The verified core covers the request-translation layer (content
//! negotiation, body normalization, formatting hints, response envelopes),
//! the outbound call encoding, the first-contact chat resolution scan, and
//! the config record codec.  The unverified shell around it (listener,
//! HTTPS transport) lives outside this library.

pub mod ascii;
pub mod config;
pub mod decimal;
pub mod escape;
pub mod outbound;
pub mod relay;
pub mod resolver;
pub mod unicode;
