//! A deterministic probe for testing without real hardware.

use vstd::prelude::*;

use crate::internet_connectivity::InternetConnectivity;

verus! {

/// A probe that reports two fixed signals, for deterministic testing.
pub struct FixedConnectivity {
    /// The link-layer connectivity signal to report.
    pub network: bool,
    /// The internet reachability signal to report.
    pub internet: bool,
}

impl FixedConnectivity {
    /// Creates a probe that reports exactly the two given signals.
    pub fn new(network: bool, internet: bool) -> (r: Self)
        ensures
            r.network_state() == network,
            r.internet_state() == internet,
    {
        FixedConnectivity { network, internet }
    }
}

impl InternetConnectivity for FixedConnectivity {
    open spec fn network_state(&self) -> bool {
        self.network
    }

    open spec fn internet_state(&self) -> bool {
        self.internet
    }

    fn is_connected_to_network(&self) -> bool {
        self.network
    }

    fn is_connected_to_internet(&self) -> bool {
        self.internet
    }
}

} // verus!
