//! Core logic of a deduplicating catalog poller.
//!
//! The library models a loop that repeatedly fetches one page of ranked
//! catalog entities from a remote service, emits each entity the first time
//! its numeric identity is observed, and stops once an optional limit of
//! unique entities has been reached.  Everything that decides what to request
//! next, which entities to emit, and when to stop is verified here; the
//! network, CLI and terminal sides live outside the library and only hand
//! plain values in and out.

pub mod model;
pub mod poll;
pub mod sorts;
