//! A permissioned registry of orgs, users, projects and checkpoints, applied one signed
//! transaction at a time against a key-value state, with balance-based fees.

pub mod bytes;
pub mod codec;
pub mod errors;
pub mod events;
pub mod fees;
pub mod handlers;
pub mod ids;
pub mod key_pairs;
pub mod keys;
pub mod laws;
pub mod messages;
pub mod node;
pub mod registry;
pub mod state;
pub mod table;
pub mod transaction;
pub mod wire;
