//! What holds of a client across its operations.

pub mod answers;
pub mod calls;
pub mod connection;
pub mod ids;
pub mod keep_alive;
pub mod outcomes;
pub mod polls;
pub mod requests;
pub mod runs;
pub mod settings;
pub mod steps;
pub mod traffic;
pub mod waits;
