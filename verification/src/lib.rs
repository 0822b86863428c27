//! Credential hand-off for a VPN client that is driven without a terminal.
//!
//! A connection attempt reads five parameters from the environment
//! ([`config`]), derives a time-based one-time code from the shared secret
//! ([`otp`]), assembles the client's argument list and the credentials for
//! its standard input ([`handoff`]), and supervises the client process
//! ([`session`]). [`connect`] joins these steps. [`preflight`] holds what is
//! asked of the system beforehand, [`disconnect`] ends a session, and
//! [`service`] plans the registration with the service manager.
//!
//! The library starts no program and writes no file: it says what is to be
//! run and written, and is told how that went.

pub mod config;
pub mod connect;
pub mod constant;
pub mod disconnect;
pub mod handoff;
pub mod invocation;
pub mod otp;
pub mod preflight;
pub mod service;
pub mod session;
pub mod text;
