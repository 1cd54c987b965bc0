//! A relay that turns owner-issued administrative commands into ABI-encoded
//! contract calls for two remote chains, with a per-subject retry window that
//! keeps the same action from being dispatched twice too soon.
pub mod abi;
pub mod contract;
pub mod laws;
pub mod msg;
pub mod state;
