//! Clients of third-party model services.

pub mod codex;
