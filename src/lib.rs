//! A hierarchical naming registry: nodes with owner, resolver and TTL records,
//! subnodes derived by hashing, and operators approved to act for an owner.

pub mod contract;
pub mod error;
pub mod msg;
pub mod namespace;
pub mod state;
