//! Main application logic: the status evaluator.
//!
//! [`NetworkApp`] combines an [`InternetConnectivity`] probe with a
//! [`NetworkManager`] and reduces the two boolean connectivity signals into a
//! single [`NetworkStatus`], attempting a reconnect exactly when the adapter
//! is link-up but the internet is unreachable.

use vstd::prelude::*;

use crate::internet_connectivity::InternetConnectivity;
use crate::network_manager::NetworkManager;

verus! {

/// The reported network status, recomputed on every poll.
#[derive(Clone, Copy, Debug, PartialEq, Eq, Structural)]
pub enum NetworkStatus {
    /// Connected to both network and internet.
    Connected,
    /// Connected to network but not internet.
    NetworkOnly,
    /// Not connected to network.
    Disconnected,
}

impl NetworkStatus {
    /// The human-readable name of this status.
    pub open spec fn label_spec(self) -> Seq<char> {
        match self {
            NetworkStatus::Connected => "Connected"@,
            NetworkStatus::NetworkOnly => "NetworkOnly"@,
            NetworkStatus::Disconnected => "Disconnected"@,
        }
    }

    /// Returns the human-readable name of this status.
    pub fn label(&self) -> (r: &'static str)
        ensures
            r@ == self.label_spec(),
    {
        match self {
            NetworkStatus::Connected => "Connected",
            NetworkStatus::NetworkOnly => "NetworkOnly",
            NetworkStatus::Disconnected => "Disconnected",
        }
    }
}

/// Whether a reconnect attempt is due: link is up but the internet cannot be
/// reached.
pub open spec fn needs_reconnect(link_up: bool, internet_reachable: bool) -> bool {
    link_up && !internet_reachable
}

/// The status table: what one poll reports, given the two probe signals and
/// (where a reconnect was due) the outcome of the reconnect attempt.
pub open spec fn folded_status(
    link_up: bool,
    internet_reachable: bool,
    reconnect_ok: bool,
) -> NetworkStatus {
    if !link_up {
        NetworkStatus::Disconnected
    } else if internet_reachable {
        NetworkStatus::Connected
    } else if reconnect_ok {
        NetworkStatus::Connected
    } else {
        NetworkStatus::NetworkOnly
    }
}

/// The main application: a connectivity probe plus a network manager.
pub struct NetworkApp<C: InternetConnectivity, M: NetworkManager> {
    /// The connectivity probe consulted on every poll.
    pub checker: C,
    /// The manager asked to reconnect when the probe reports a link without
    /// internet reachability.
    pub manager: M,
}

impl<C: InternetConnectivity, M: NetworkManager> NetworkApp<C, M> {
    /// Creates a new application from a probe and a manager.
    pub fn new(checker: C, manager: M) -> (r: Self)
        ensures
            r.checker == checker,
            r.manager == manager,
    {
        Self { checker, manager }
    }

    /// Polls the two connectivity signals, attempts a reconnect exactly when
    /// the link is up but the internet is unreachable, and reports the
    /// resulting status according to the status table.
    pub fn poll(&mut self) -> (r: NetworkStatus)
        ensures
            final(self).checker == old(self).checker,
            needs_reconnect(
                old(self).checker.network_state(),
                old(self).checker.internet_state(),
            ) ==> {
                &&& final(self).manager.attempts() == old(self).manager.attempts() + 1
                &&& old(self).manager.reconnect_post(
                    &final(self).manager,
                    final(self).manager.last_result(),
                )
                &&& r == folded_status(
                    old(self).checker.network_state(),
                    old(self).checker.internet_state(),
                    final(self).manager.last_result(),
                )
            },
            !needs_reconnect(
                old(self).checker.network_state(),
                old(self).checker.internet_state(),
            ) ==> {
                &&& final(self).manager == old(self).manager
                &&& r == folded_status(
                    old(self).checker.network_state(),
                    old(self).checker.internet_state(),
                    false,
                )
            },
    {
        let link_up = self.checker.is_connected_to_network();
        let internet = self.checker.is_connected_to_internet();
        if !link_up {
            NetworkStatus::Disconnected
        } else if internet {
            NetworkStatus::Connected
        } else {
            let success = self.manager.reconnect();
            if success {
                NetworkStatus::Connected
            } else {
                NetworkStatus::NetworkOnly
            }
        }
    }
}

} // verus!
