//! Look-ahead TLS certificate validation.
//!
//! Answers, for a set of DNS names, whether a standard TLS client will still
//! trust each server's certificate chain a configured number of days from
//! now. The check is performed by a real TLS handshake whose certificate
//! verifier sees a clock shifted forward by the configured offset; this crate
//! holds the decision core: the shifted clock, the profile set, the outcome
//! taxonomy, the per-domain and run-wide decisions, and the exit status.

pub mod clock;
pub mod config;
pub mod outcome;
pub mod profile;
pub mod report;
pub mod tls;
