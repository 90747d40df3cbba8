//! Release-watch core: the per-project monitor state machine, the registry
//! that coordinates many monitors, and the check-and-dispatch algorithm that
//! decides when an upstream release is fresh enough to notify downstream.

pub mod admin;
pub mod batch;
pub mod check;
pub mod config;
pub mod coordinator;
pub mod errors;
pub mod gateway;
pub mod monitor;
pub mod protocol;
pub mod registry;
pub mod release;
pub mod time;
