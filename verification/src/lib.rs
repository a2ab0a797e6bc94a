//! Backup of a working folder to several destinations, by driving a
//! file-synchronisation tool once for each destination.
//!
//! The library decides and the program around it acts. A run ([`backup`])
//! hands out one transfer session ([`session`]) at a time, in the order of
//! the request. A session tells its caller what to do next (look for the
//! destination, make the session folder, start the tool, read its output,
//! end it, wait for its exit) and takes in what happened. Lines of output
//! become progress samples ([`parser`], [`free_text`], [`progress`]); of
//! these, the ones that differ enough from the last are published
//! ([`filter`]). A cancel request ([`signal`]) is seen before each session
//! and at every step of a running one.
//!
//! What holds of every run and every session, whatever the caller does, is
//! proved in [`run_laws`] and [`session_laws`].

pub mod backup;
pub mod destinations;
pub mod dialog;
pub mod events;
pub mod filter;
pub mod format;
pub mod free_text;
pub mod invocation;
pub mod notification;
pub mod parser;
pub mod percent;
pub mod permissions;
pub mod platform;
pub mod progress;
pub mod run_laws;
pub mod session;
pub mod session_laws;
pub mod signal;
pub mod source_session;
pub mod text;
