use vstd::prelude::*;
use crate::msg::{AddressResponse, BoolResponse, TTLResponse};
use crate::state::{Registry, RegistryView};

verus! {

/// `r` holds the address `a`, or none where `a` is none.
pub open spec fn holds_address(r: AddressResponse, a: Option<Seq<char>>) -> bool {
    match a {
        Some(x) => r.address is Some && r.address.unwrap()@ == x,
        None => r.address is None,
    }
}

pub open spec fn owner_of(s: RegistryView, node: Seq<char>) -> Option<Seq<char>> {
    if s.records.contains_key(node) {
        Some(s.records[node].owner)
    } else {
        None
    }
}

pub open spec fn resolver_of(s: RegistryView, node: Seq<char>) -> Option<Seq<char>> {
    if s.records.contains_key(node) {
        Some(s.records[node].resolver)
    } else {
        None
    }
}

pub open spec fn ttl_of(s: RegistryView, node: Seq<char>) -> Option<u64> {
    if s.records.contains_key(node) {
        Some(s.records[node].ttl)
    } else {
        None
    }
}

/// The owner of `node`, or none where it has no record.
pub fn owner(registry: &Registry, node: String) -> (r: AddressResponse)
    requires
        registry.wf(),
    ensures
        holds_address(r, owner_of(registry@, node@)),
{
    match registry.record(&node) {
        None => AddressResponse { address: None },
        Some(rec) => AddressResponse { address: Some(rec.owner.clone()) },
    }
}

/// The resolver of `node`, or none where it has no record.
pub fn resolver(registry: &Registry, node: String) -> (r: AddressResponse)
    requires
        registry.wf(),
    ensures
        holds_address(r, resolver_of(registry@, node@)),
{
    match registry.record(&node) {
        None => AddressResponse { address: None },
        Some(rec) => AddressResponse { address: Some(rec.resolver.clone()) },
    }
}

/// The time to live of `node`, or none where it has no record.
pub fn ttl(registry: &Registry, node: String) -> (r: TTLResponse)
    requires
        registry.wf(),
    ensures
        r.ttl == ttl_of(registry@, node@),
{
    match registry.record(&node) {
        None => TTLResponse { ttl: None },
        Some(rec) => TTLResponse { ttl: Some(rec.ttl) },
    }
}

pub fn record_exists(registry: &Registry, node: String) -> (r: BoolResponse)
    requires
        registry.wf(),
    ensures
        r.value == registry@.records.contains_key(node@),
{
    BoolResponse { value: registry.record(&node).is_some() }
}

/// Whether `owner` has approved `operator`; false where no entry exists.
pub fn is_approved_for_all(registry: &Registry, owner: String, operator: String) -> (r: BoolResponse)
    requires
        registry.wf(),
    ensures
        r.value == registry@.is_approved(owner@, operator@),
{
    BoolResponse { value: registry.is_approved(&owner, &operator) }
}

} // verus!
