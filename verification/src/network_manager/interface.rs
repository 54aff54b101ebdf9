//! The network manager seam.

use vstd::prelude::*;

verus! {

/// A manager that can attempt to restore the network connection.
///
/// The ghost state records how often a reconnect was attempted and what the
/// latest attempt returned, so that a caller can state exactly when and how
/// the manager was invoked.
pub trait NetworkManager {
    /// How many reconnect attempts this manager has made.
    spec fn attempts(&self) -> nat;

    /// What the most recent reconnect attempt returned.
    spec fn last_result(&self) -> bool;

    /// The manager-chosen relation between its state before a reconnect
    /// attempt, its state after, and the attempt's result.
    ///
    /// An implementation states here everything one of its attempts does —
    /// the orchestrating manager, for example, relates the result to the run
    /// it drove through its capability binding — so that a caller who knows
    /// the concrete manager can pin the attempt down. A manager with nothing
    /// further to promise may use `true`.
    spec fn reconnect_post(&self, post: &Self, r: bool) -> bool;

    /// Attempts to reconnect to the network; one attempt per call.
    fn reconnect(&mut self) -> (r: bool)
        ensures
            final(self).attempts() == old(self).attempts() + 1,
            final(self).last_result() == r,
            old(self).reconnect_post(final(self), r),
    ;
}

} // verus!
