//! The network edge of a self-hosted chat and voice server: request
//! admission, credential resolution, the signaling reverse proxy, the
//! signaling process supervisor and TLS material provisioning.
pub mod admission;
pub mod auth;
pub mod error;
pub mod filename;
pub mod hex;
pub mod proxy;
pub mod supervisor;
pub mod text;
pub mod tls;
