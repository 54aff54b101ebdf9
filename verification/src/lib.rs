//! Watches network connectivity and, when the adapter reports link-layer
//! connectivity without internet reachability, drives one bounded attempt to
//! reconnect the active wireless interface using its previously-active
//! profile.
//!
//! The reconnection pipeline runs entirely through an abstract capability
//! seam, so the step sequencing and its resource discipline are verified
//! independently of any concrete operating-system binding.

pub mod app;
pub mod internet_connectivity;
pub mod network_manager;
