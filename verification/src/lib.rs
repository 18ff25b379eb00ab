//! Sign-in, device registration and request signing for the Audible API.
//!
//! The crate computes URLs, request bodies, signatures and state
//! transitions from plain values; of its surroundings it reads only the
//! clock and the random number generator. Opening a browser, talking to
//! the network and touching the disk belong to the caller.

pub mod api;
pub mod auth;
pub mod crypto;
pub mod db;
pub mod encoding;
pub mod error;
pub mod json;
pub mod localization;
pub mod login;
pub mod system;
pub mod text;
pub mod text_map;
