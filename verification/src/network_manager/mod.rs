//! Managing network connections: the capability seam, the reconnection
//! orchestrator, and its resource-discipline laws.

mod capability;
mod interface;
mod laws;
mod manager;
mod orchestrator;
mod scripted;

pub use capability::CapEvent;
pub use capability::InterfaceList;
pub use capability::Profile;
pub use capability::ProfileBuffer;
pub use capability::Session;
pub use capability::WlanCapability;
pub use capability::enum_event;
pub use capability::query_event;
pub use interface::NetworkManager;
pub use laws::RunCounts;
pub use laws::add_counts;
pub use laws::event_counts;
pub use laws::lemma_connect_failure;
pub use laws::lemma_disconnect_nonfatal;
pub use laws::lemma_empty_enumeration;
pub use laws::lemma_empty_profile_aborts;
pub use laws::lemma_no_leaks;
pub use laws::lemma_open_failure_aborts;
pub use laws::lemma_query_failure_aborts;
pub use laws::lemma_run_counts_push;
pub use laws::lemma_shape_counts;
pub use laws::run_counts;
pub use laws::zero_counts;
pub use manager::CapabilityManager;
pub use scripted::CallKind;
pub use scripted::event_matches_script;
pub use scripted::ScriptedWlan;
pub use orchestrator::DisconnectPolicy;
pub use orchestrator::attempt_reconnect;
pub use orchestrator::run_disconnect_aborted;
pub use orchestrator::run_empty_profile;
pub use orchestrator::run_enum_failed;
pub use orchestrator::run_full;
pub use orchestrator::run_no_interface;
pub use orchestrator::run_open_failed;
pub use orchestrator::run_query_failed;
pub use orchestrator::trim_spec;
pub use orchestrator::trim_trailing_padding;
pub use orchestrator::valid_run;
