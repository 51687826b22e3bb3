//! Client library for a networked lighting accessory: temperature mapping,
//! key derivation, the WiFi provisioning payload and response decoding.
pub mod client;
pub mod contracts;
pub mod error;
pub mod key;
pub mod payload;
pub mod temperature;
