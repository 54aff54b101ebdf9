//! A network manager that drives the reconnection orchestrator over any
//! capability binding.

use vstd::prelude::*;

use crate::network_manager::capability::WlanCapability;
use crate::network_manager::interface::NetworkManager;
use crate::network_manager::orchestrator::DisconnectPolicy;
use crate::network_manager::orchestrator::attempt_reconnect;
use crate::network_manager::orchestrator::valid_run;

verus! {

/// A [`NetworkManager`] that owns one capability binding and reconnects by
/// running the orchestration pipeline over it.
pub struct CapabilityManager<C: WlanCapability> {
    /// The capability binding the orchestrator runs through.
    pub cap: C,
    /// How a failed disconnect step is handled.
    pub policy: DisconnectPolicy,
    /// How many reconnect attempts this manager has made.
    pub attempt_count: Ghost<nat>,
    /// What the most recent attempt returned.
    pub last_outcome: Ghost<bool>,
}

impl<C: WlanCapability> CapabilityManager<C> {
    /// Creates a manager over the given capability binding, with no attempts
    /// made yet, tolerating disconnect failures.
    pub fn new(cap: C) -> (r: Self)
        ensures
            r.cap == cap,
            r.policy == DisconnectPolicy::Tolerate,
            r.attempts() == 0,
            r.last_result() == false,
    {
        CapabilityManager {
            cap,
            policy: DisconnectPolicy::Tolerate,
            attempt_count: Ghost(0),
            last_outcome: Ghost(false),
        }
    }

    /// Creates a manager over the given capability binding with an explicit
    /// disconnect-failure policy, with no attempts made yet.
    pub fn with_policy(cap: C, policy: DisconnectPolicy) -> (r: Self)
        ensures
            r.cap == cap,
            r.policy == policy,
            r.attempts() == 0,
            r.last_result() == false,
    {
        CapabilityManager {
            cap,
            policy,
            attempt_count: Ghost(0),
            last_outcome: Ghost(false),
        }
    }
}

impl<C: WlanCapability> NetworkManager for CapabilityManager<C> {
    open spec fn attempts(&self) -> nat {
        self.attempt_count@
    }

    open spec fn last_result(&self) -> bool {
        self.last_outcome@
    }

    open spec fn reconnect_post(&self, post: &Self, r: bool) -> bool {
        &&& self.cap.history().len() <= post.cap.history().len()
        &&& post.cap.history().take(self.cap.history().len() as int) == self.cap.history()
        &&& valid_run(
            post.cap.history().skip(self.cap.history().len() as int),
            r,
            self.policy,
        )
        &&& self.cap.frame(&post.cap)
        &&& post.policy == self.policy
    }

    fn reconnect(&mut self) -> (r: bool) {
        let policy = self.policy;
        let outcome = attempt_reconnect(&mut self.cap, policy);
        self.attempt_count = Ghost(self.attempt_count@ + 1);
        self.last_outcome = Ghost(outcome);
        outcome
    }
}

} // verus!
