use vstd::prelude::*;

verus! {

/// Why a registry operation was refused.
#[derive(Clone, Copy, Debug, PartialEq, Eq)]
pub enum ContractError {
    /// The caller neither owns the node nor is an approved operator of its owner.
    Unauthorized,
    /// The operation changes a node that has no record.
    NodeNotFound,
}

} // verus!
