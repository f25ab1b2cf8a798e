//! Resolve and apply HTTP/SOCKS proxy settings for a shell session.
//!
//! The library decides everything: which host and ports to use, which
//! target the settings go to, and the exact text of every variable value,
//! shell script and report line. Performing those effects (reading the
//! environment, running a shell, sending requests) is left to the caller.
pub mod config;
pub mod ports;
pub mod text;
pub mod host;
pub mod mode;
pub mod apply;
pub mod probe;
