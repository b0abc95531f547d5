//! A price ticker: the verified core of a service that fetches asset quotes
//! from a pricing service and republishes them as a presence name and status.
//!
//! The crate holds the decisions of the quote pipeline: how a reply of the
//! pricing service is read, how failed attempts are retried, how a periodic
//! producer moves between its states and when it stops, and how a quote is
//! turned into display strings. Waiting, sending and receiving are left to the
//! program that drives these state machines.

pub mod config;
pub mod error;
pub mod json;
pub mod decimal;
pub mod quote;
pub mod presence;
pub mod consumer;
pub mod producer;
pub mod guilds;
