//! Checking internet connectivity.

mod fixed;
mod interface;

pub use fixed::FixedConnectivity;
pub use interface::InternetConnectivity;
