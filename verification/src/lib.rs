//! Weather acquisition and normalization engine for a panel applet.
//!
//! The library translates a weather provider's forecast response into a
//! normalized weather snapshot, maintains the last-known-good weather state,
//! and drives the refresh scheduling policy (interval floor, no overlapping
//! fetches). Network transport and the panel user interface live outside the
//! library and exchange plain values with it.

pub mod client;
pub mod codes;
pub mod config;
pub mod coords;
pub mod display;
pub mod numeric;
pub mod scheduler;
pub mod state;
pub mod weather;
