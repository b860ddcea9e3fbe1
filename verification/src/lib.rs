//! A sans-I/O model of a byte-buffer wrap/unwrap gateway to the host's
//! user-scoped data-protection facility.
//!
//! The library decides; a driver performs. The driver makes the foreign
//! call, views the memory the facility allocated and frees it, in the order
//! and under the conditions that the library's actions give.

pub mod blob;
pub mod bridge;
pub mod cli;
pub mod gateway;
pub mod run;
