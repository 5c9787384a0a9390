use vstd::prelude::*;
use crate::error::ContractError;
use crate::msg::{MessageInfo, Response};
use crate::namespace::{derive_subnode, subnode_of};
use crate::state::{Record, RecordView, Registry, RegistryView};

verus! {

/// The attributes that a successful mutation reports.
pub open spec fn execute_attributes(action: Seq<char>) -> Seq<(Seq<char>, Seq<char>)> {
    seq![("method"@, "execute"@), ("action"@, action)]
}

/// A mutation ran as `expected` says: on `Ok` the registry became the state it
/// holds and the response reports `action`; on `Err` the registry is unchanged
/// and that error came back.
pub open spec fn applied(
    pre: RegistryView,
    post: RegistryView,
    r: Result<Response, ContractError>,
    expected: Result<RegistryView, ContractError>,
    action: Seq<char>,
) -> bool {
    match expected {
        Ok(s) => {
            &&& post == s
            &&& r is Ok
            &&& r->Ok_0.messages@.len() == 0
            &&& r->Ok_0.attribute_pairs() == execute_attributes(action)
        },
        Err(e) => post == pre && r == Err::<Response, ContractError>(e),
    }
}

/// `s` with the record of `node` replaced by `rec`.
pub open spec fn with_record(s: RegistryView, node: Seq<char>, rec: RecordView) -> RegistryView {
    RegistryView { records: s.records.insert(node, rec), approvals: s.approvals }
}

pub open spec fn set_owner_spec(
    s: RegistryView,
    sender: Seq<char>,
    node: Seq<char>,
    owner: Seq<char>,
) -> Result<RegistryView, ContractError> {
    if s.authorized(sender, node) {
        let old_rec = s.records[node];
        Ok(with_record(s, node, RecordView { owner, resolver: old_rec.resolver, ttl: old_rec.ttl }))
    } else {
        Err(ContractError::Unauthorized)
    }
}

pub open spec fn set_resolver_spec(
    s: RegistryView,
    sender: Seq<char>,
    node: Seq<char>,
    resolver: Seq<char>,
) -> Result<RegistryView, ContractError> {
    if s.authorized(sender, node) {
        let old_rec = s.records[node];
        Ok(with_record(s, node, RecordView { owner: old_rec.owner, resolver, ttl: old_rec.ttl }))
    } else {
        Err(ContractError::Unauthorized)
    }
}

pub open spec fn set_ttl_spec(s: RegistryView, sender: Seq<char>, node: Seq<char>, ttl: u64) -> Result<
    RegistryView,
    ContractError,
> {
    if s.authorized(sender, node) {
        let old_rec = s.records[node];
        Ok(with_record(s, node, RecordView { owner: old_rec.owner, resolver: old_rec.resolver, ttl }))
    } else {
        Err(ContractError::Unauthorized)
    }
}

pub open spec fn set_resolver_and_ttl_spec(
    s: RegistryView,
    node: Seq<char>,
    resolver: Seq<char>,
    ttl: u64,
) -> Result<RegistryView, ContractError> {
    if s.records.contains_key(node) {
        Ok(with_record(s, node, RecordView { owner: s.records[node].owner, resolver, ttl }))
    } else {
        Err(ContractError::NodeNotFound)
    }
}

pub open spec fn set_subnode_owner_spec(
    s: RegistryView,
    sender: Seq<char>,
    node: Seq<char>,
    label: Seq<char>,
    owner: Seq<char>,
) -> Result<RegistryView, ContractError> {
    if s.authorized(sender, node) {
        Ok(
            with_record(
                s,
                subnode_of(node, label),
                RecordView { owner, resolver: Seq::empty(), ttl: 0 },
            ),
        )
    } else {
        Err(ContractError::Unauthorized)
    }
}

pub open spec fn set_subnode_record_spec(
    s: RegistryView,
    node: Seq<char>,
    label: Seq<char>,
    record: RecordView,
) -> Result<RegistryView, ContractError> {
    Ok(with_record(s, subnode_of(node, label), record))
}

pub open spec fn set_record_spec(s: RegistryView, node: Seq<char>, record: RecordView) -> Result<
    RegistryView,
    ContractError,
> {
    if s.records.contains_key(node) {
        Ok(with_record(s, node, record))
    } else {
        Err(ContractError::NodeNotFound)
    }
}

pub open spec fn set_approval_for_all_spec(
    s: RegistryView,
    sender: Seq<char>,
    operator: Seq<char>,
    approved: bool,
) -> Result<RegistryView, ContractError> {
    Ok(
        RegistryView {
            records: s.records,
            approvals: s.approvals.insert(
                sender,
                s.operators_of(sender).insert(operator, approved),
            ),
        },
    )
}

fn execute_response(action: &str) -> (r: Response)
    ensures
        r.messages@.len() == 0,
        r.attribute_pairs() == execute_attributes(action@),
{
    let r = Response::new().add_attribute("method", "execute").add_attribute("action", action);
    assert(r.attribute_pairs() =~= execute_attributes(action@));
    r
}

/// Succeeds where the caller owns `node`, or is an approved operator of its
/// owner; fails with `Unauthorized` otherwise, also where `node` has no record.
pub fn authorise(registry: &Registry, info: &MessageInfo, node: &String) -> (r: Result<
    (),
    ContractError,
>)
    requires
        registry.wf(),
    ensures
        r is Ok <==> registry@.authorized(info.sender@, node@),
        r is Err ==> r == Err::<(), ContractError>(ContractError::Unauthorized),
{
    match registry.record(node) {
        None => Err(ContractError::Unauthorized),
        Some(rec) => {
            if rec.owner == info.sender {
                Ok(())
            } else if registry.is_approved(&rec.owner, &info.sender) {
                Ok(())
            } else {
                Err(ContractError::Unauthorized)
            }
        },
    }
}

/// Where the caller is authorized on `node`, changes the owner of its record; fails
/// with `Unauthorized` otherwise, also where `node` has no record.
pub fn set_owner(registry: &mut Registry, info: MessageInfo, node: String, owner: String) -> (r:
    Result<Response, ContractError>)
    requires
        old(registry).wf(),
    ensures
        final(registry).wf(),
        applied(
            old(registry)@,
            final(registry)@,
            r,
            set_owner_spec(old(registry)@, info.sender@, node@, owner@),
            "set owner"@,
        ),
{
    authorise(registry, &info, &node)?;
    let rec = registry.record(&node).unwrap();
    let updated = Record { owner, resolver: rec.resolver.clone(), ttl: rec.ttl };
    registry.put_record(node, updated);
    Ok(execute_response("set owner"))
}

/// Where the caller is authorized on `node`, changes the resolver of its record; fails
/// with `Unauthorized` otherwise, also where `node` has no record.
pub fn set_resolver(registry: &mut Registry, info: MessageInfo, node: String, resolver: String) -> (r:
    Result<Response, ContractError>)
    requires
        old(registry).wf(),
    ensures
        final(registry).wf(),
        applied(
            old(registry)@,
            final(registry)@,
            r,
            set_resolver_spec(old(registry)@, info.sender@, node@, resolver@),
            "set resolver"@,
        ),
{
    authorise(registry, &info, &node)?;
    let rec = registry.record(&node).unwrap();
    let updated = Record { owner: rec.owner.clone(), resolver, ttl: rec.ttl };
    registry.put_record(node, updated);
    Ok(execute_response("set resolver"))
}

/// Where the caller is authorized on `node`, changes the TTL of its record; fails
/// with `Unauthorized` otherwise, also where `node` has no record.
pub fn set_ttl(registry: &mut Registry, info: MessageInfo, node: String, ttl: u64) -> (r: Result<
    Response,
    ContractError,
>)
    requires
        old(registry).wf(),
    ensures
        final(registry).wf(),
        applied(
            old(registry)@,
            final(registry)@,
            r,
            set_ttl_spec(old(registry)@, info.sender@, node@, ttl),
            "set TTL"@,
        ),
{
    authorise(registry, &info, &node)?;
    let rec = registry.record(&node).unwrap();
    let updated = Record { owner: rec.owner.clone(), resolver: rec.resolver.clone(), ttl };
    registry.put_record(node, updated);
    Ok(execute_response("set TTL"))
}

/// Changes resolver and TTL of an existing node together; this operation asks
/// for no authorization.
pub fn set_resolver_and_ttl(registry: &mut Registry, node: String, resolver: String, ttl: u64) -> (r:
    Result<Response, ContractError>)
    requires
        old(registry).wf(),
    ensures
        final(registry).wf(),
        applied(
            old(registry)@,
            final(registry)@,
            r,
            set_resolver_and_ttl_spec(old(registry)@, node@, resolver@, ttl),
            "set resolver and TTL"@,
        ),
{
    match registry.record(&node) {
        None => Err(ContractError::NodeNotFound),
        Some(rec) => {
            let updated = Record { owner: rec.owner.clone(), resolver, ttl };
            registry.put_record(node, updated);
            Ok(execute_response("set resolver and TTL"))
        },
    }
}

/// Where the caller is authorized on `node`, gives the child `label` of `node`
/// a fresh record owned by `owner`, in place of any record it had.
pub fn set_subnode_owner(
    registry: &mut Registry,
    info: MessageInfo,
    node: String,
    label: String,
    owner: String,
) -> (r: Result<Response, ContractError>)
    requires
        old(registry).wf(),
    ensures
        final(registry).wf(),
        applied(
            old(registry)@,
            final(registry)@,
            r,
            set_subnode_owner_spec(old(registry)@, info.sender@, node@, label@, owner@),
            "set subnode owner"@,
        ),
{
    authorise(registry, &info, &node)?;
    let subnode = derive_subnode(&node, &label);
    let record = Record { owner, resolver: String::new(), ttl: 0 };
    registry.put_record(subnode, record);
    Ok(execute_response("set subnode owner"))
}

/// Stores `record` as the record of the child `label` of `node`, in place of
/// any record it had; this operation asks for no authorization.
pub fn set_subnode_record(registry: &mut Registry, node: String, label: String, record: Record) -> (r:
    Result<Response, ContractError>)
    requires
        old(registry).wf(),
    ensures
        final(registry).wf(),
        applied(
            old(registry)@,
            final(registry)@,
            r,
            set_subnode_record_spec(old(registry)@, node@, label@, record@),
            "set subnode owner"@,
        ),
{
    let subnode = derive_subnode(&node, &label);
    registry.put_record(subnode, record);
    Ok(execute_response("set subnode owner"))
}

/// Replaces the whole record of an existing node; this operation asks for no
/// authorization.
pub fn set_record(registry: &mut Registry, node: String, record: Record) -> (r: Result<
    Response,
    ContractError,
>)
    requires
        old(registry).wf(),
    ensures
        final(registry).wf(),
        applied(
            old(registry)@,
            final(registry)@,
            r,
            set_record_spec(old(registry)@, node@, record@),
            "set record"@,
        ),
{
    if registry.record(&node).is_none() {
        return Err(ContractError::NodeNotFound);
    }
    registry.put_record(node, record);
    Ok(execute_response("set record"))
}

/// Records whether `operator` may act for the caller on every node the caller owns.
pub fn set_approval_for_all(
    registry: &mut Registry,
    sender: String,
    operator: String,
    approved: bool,
) -> (r: Result<Response, ContractError>)
    requires
        old(registry).wf(),
    ensures
        final(registry).wf(),
        applied(
            old(registry)@,
            final(registry)@,
            r,
            set_approval_for_all_spec(old(registry)@, sender@, operator@, approved),
            "set approval for all"@,
        ),
{
    registry.set_approval(sender, operator, approved);
    Ok(execute_response("set approval for all"))
}

} // verus!
