//! Records kept between the steps of a sign-in.

pub mod auth;
