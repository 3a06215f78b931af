//! A small HTTPS static-file server library: command-line resolution of the
//! bind address and loading of PEM-encoded TLS material.

pub mod args;
pub mod decimal;
pub mod tls;
