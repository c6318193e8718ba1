//! A latency probe for a blockchain network, reduced to its decisions.
//!
//! The probe is a small transaction that is sent again and again; what is
//! measured is how long the network takes to confirm it, in milliseconds and
//! in slots. This crate holds the rules of that measurement and states each
//! of them as a contract:
//!
//! - [`cells`], the three cells in which the watchers keep the current block
//!   reference, slot and fee estimate, and [`watchers`], what a watcher does
//!   with each event of its source;
//! - [`gate`], which lets a probe be built only from fresh cells;
//! - [`limiter`], which bounds the probes launched per minute;
//! - [`cycle`], the state machine of one probe from its first send to its
//!   report, and [`pending`], the register of probes that are under way;
//! - [`engine`], the main loop that joins the four;
//! - [`multiplexer`], what is asked of the network's feed and what its
//!   messages say, and [`transport`], what counts as a successful send;
//! - [`report`] and [`metrics`], what goes to the two sinks;
//! - [`commitment`], [`wallet`] and [`base58`], the reading of settings and
//!   of the network's texts.
//!
//! What holds of whole runs is proved in [`cycle_laws`], [`limiter_laws`] and
//! [`engine_laws`].
//!
//! Clocks, sockets and signing stay with the caller: every function here
//! takes the current time and the decoded events as plain values, and says
//! what the caller does next.

pub mod base58;
pub mod cells;
pub mod commitment;
pub mod cycle;
pub mod cycle_laws;
pub mod engine;
pub mod engine_laws;
pub mod gate;
pub mod limiter;
pub mod limiter_laws;
pub mod metrics;
pub mod multiplexer;
pub mod pending;
pub mod report;
pub mod transport;
pub mod wallet;
pub mod watchers;
