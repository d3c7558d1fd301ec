//! A reverse proxy core that injects an `Authorization` header obtained from
//! an external credential command, with a time-to-live token cache.
//!
//! The library holds the logic that decides: the token cache, the credential
//! output check, the request rewriting and the configuration checks. Sockets,
//! processes and clocks stay with the caller, who hands plain values in.
pub mod cache;
pub mod config;
pub mod context;
pub mod credential;
pub mod error;
pub mod rewrite;
