//! The connectivity probe seam.

use vstd::prelude::*;

verus! {

/// A probe for the two independent connectivity signals: link-layer
/// connectivity and internet reachability.
///
/// Each answer is a pure function of the probe's state, so that one poll
/// observes one coherent snapshot.
pub trait InternetConnectivity {
    /// Whether the adapter currently has link-layer connectivity.
    spec fn network_state(&self) -> bool;

    /// Whether an internet endpoint is currently reachable.
    spec fn internet_state(&self) -> bool;

    /// Checks if the system is connected to a network.
    fn is_connected_to_network(&self) -> (r: bool)
        ensures
            r == self.network_state(),
    ;

    /// Checks if the system is connected to the internet.
    fn is_connected_to_internet(&self) -> (r: bool)
        ensures
            r == self.internet_state(),
    ;
}

} // verus!
