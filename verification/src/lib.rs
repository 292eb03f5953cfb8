//! Protocol layer for a pluggable trace-event writer backend.
//!
//! A backend module is discovered and loaded at run time and exposes a
//! versioned table of capability entry points.  This crate fixes the
//! decisions of that protocol: which locator forms each initialization
//! mode accepts, how a negotiated function table with optionally absent
//! entries gates every call, how backend-reported outcomes and invalid
//! handles are normalized, and how an output file name is claimed without
//! colliding with earlier runs.  The embedder performs the dynamic calls
//! themselves and feeds each outcome back into these functions.

pub mod emit;
pub mod interface;
pub mod loader;
pub mod naming;
pub mod session;
pub mod status;
pub mod stream;
