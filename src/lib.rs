//! Startup decisions of a transparent, borderless desktop window that is laid
//! out as a stripe across the bottom of the primary monitor.
//!
//! The engine runtime, the monitor query and the configuration file are
//! handled by the host program; this library holds the values and rules that
//! it applies.
pub mod placement;
pub mod startup;
