//! A small HTTP authentication gateway: credential lookup against an
//! SQLite-backed user store, cookie-based session establishment and
//! teardown, and a gated reverse proxy in front of an internal origin.
//!
//! This crate holds the verified core: the cookie-jar model and session
//! gate, the login/logout controllers, the user store, and the proxy
//! decision logic. Process bootstrap, HTTP serving, template rendering
//! and the actual upstream fetches live outside the crate and drive it
//! through plain values.

pub mod auth;
pub mod db;
pub mod proxy;
pub mod session;
pub mod token;
