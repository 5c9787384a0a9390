use vstd::prelude::*;
use crate::error::ContractError;
use crate::msg::{ExecuteMsg, InstantiateMsg, MessageInfo, QueryMsg, QueryResponse, Response};
use crate::namespace::subnode_of;
use crate::state::{Record, RecordView, Registry, RegistryView};

pub mod execute;
pub mod query;

use self::query::{holds_address, owner_of, resolver_of, ttl_of};
use self::execute::{
    applied, set_approval_for_all_spec, set_owner_spec, set_record_spec,
    set_resolver_and_ttl_spec, set_resolver_spec, set_subnode_owner_spec,
    set_subnode_record_spec, set_ttl_spec,
};

verus! {

/// The registry right after it was set up by `sender`: the root node, owned by
/// `sender` with no resolver and a zero TTL, and no approvals.
pub open spec fn instantiated(sender: Seq<char>, root: Seq<char>) -> RegistryView {
    RegistryView {
        records: map![root => RecordView { owner: sender, resolver: Seq::empty(), ttl: 0 }],
        approvals: Map::empty(),
    }
}

/// Replaces whatever `registry` held by a registry whose only record is the
/// root node of `msg`, owned by the caller.
pub fn instantiate(registry: &mut Registry, info: MessageInfo, msg: InstantiateMsg) -> (r: Result<
    Response,
    ContractError,
>)
    ensures
        final(registry).wf(),
        final(registry)@ == instantiated(info.sender@, msg.node@),
        r is Ok,
        r->Ok_0.messages@.len() == 0,
        r->Ok_0.attribute_pairs() == seq![("method"@, "instantiate"@), ("owner"@, info.sender@)],
{
    let mut fresh = Registry::new();
    let record = Record { owner: info.sender.clone(), resolver: String::new(), ttl: 0 };
    fresh.put_record(msg.node, record);
    assert(fresh@.records =~= instantiated(info.sender@, msg.node@).records);
    *registry = fresh;
    let resp = Response::new().add_attribute("method", "instantiate").add_attribute(
        "owner",
        info.sender.as_str(),
    );
    assert(resp.attribute_pairs() =~= seq![
        ("method"@, "instantiate"@),
        ("owner"@, info.sender@),
    ]);
    Ok(resp)
}

/// The outcome that `msg`, sent by `sender`, has on the registry `s`.
pub open spec fn execute_spec(s: RegistryView, sender: Seq<char>, msg: ExecuteMsg) -> Result<
    RegistryView,
    ContractError,
> {
    match msg {
        ExecuteMsg::SetOwner { node, owner } => set_owner_spec(s, sender, node@, owner@),
        ExecuteMsg::SetResolver { node, resolver } => set_resolver_spec(s, sender, node@, resolver@),
        ExecuteMsg::SetTTL { node, ttl } => set_ttl_spec(s, sender, node@, ttl),
        ExecuteMsg::SetResolverAndTTL { node, resolver, ttl } => set_resolver_and_ttl_spec(
            s,
            node@,
            resolver@,
            ttl,
        ),
        ExecuteMsg::SetSubnodeOwner { node, label, owner } => set_subnode_owner_spec(
            s,
            sender,
            node@,
            label@,
            owner@,
        ),
        ExecuteMsg::SetSubnodeRecord { node, label, owner, resolver, ttl } => set_subnode_record_spec(
            s,
            node@,
            label@,
            RecordView { owner: owner@, resolver: resolver@, ttl },
        ),
        ExecuteMsg::SetRecord { node, owner, resolver, ttl } => set_record_spec(
            s,
            node@,
            RecordView { owner: owner@, resolver: resolver@, ttl },
        ),
        ExecuteMsg::SetApprovalForAll { operator, approved } => set_approval_for_all_spec(
            s,
            sender,
            operator@,
            approved,
        ),
    }
}

/// The action that a successful `msg` reports.
pub open spec fn action_of(msg: ExecuteMsg) -> Seq<char> {
    match msg {
        ExecuteMsg::SetOwner { .. } => "set owner"@,
        ExecuteMsg::SetResolver { .. } => "set resolver"@,
        ExecuteMsg::SetTTL { .. } => "set TTL"@,
        ExecuteMsg::SetResolverAndTTL { .. } => "set resolver and TTL"@,
        ExecuteMsg::SetSubnodeOwner { .. } => "set subnode owner"@,
        ExecuteMsg::SetSubnodeRecord { .. } => "set subnode owner"@,
        ExecuteMsg::SetRecord { .. } => "set record"@,
        ExecuteMsg::SetApprovalForAll { .. } => "set approval for all"@,
    }
}

/// Runs one mutation on behalf of `info.sender`. A refused mutation leaves the
/// registry as it was.
pub fn execute(registry: &mut Registry, info: MessageInfo, msg: ExecuteMsg) -> (r: Result<
    Response,
    ContractError,
>)
    requires
        old(registry).wf(),
    ensures
        final(registry).wf(),
        applied(
            old(registry)@,
            final(registry)@,
            r,
            execute_spec(old(registry)@, info.sender@, msg),
            action_of(msg),
        ),
{
    match msg {
        ExecuteMsg::SetOwner { node, owner } => execute::set_owner(registry, info, node, owner),
        ExecuteMsg::SetResolver { node, resolver } => execute::set_resolver(
            registry,
            info,
            node,
            resolver,
        ),
        ExecuteMsg::SetTTL { node, ttl } => execute::set_ttl(registry, info, node, ttl),
        ExecuteMsg::SetResolverAndTTL { node, resolver, ttl } => execute::set_resolver_and_ttl(
            registry,
            node,
            resolver,
            ttl,
        ),
        ExecuteMsg::SetSubnodeOwner { node, label, owner } => execute::set_subnode_owner(
            registry,
            info,
            node,
            label,
            owner,
        ),
        ExecuteMsg::SetSubnodeRecord { node, label, owner, resolver, ttl } => {
            execute::set_subnode_record(registry, node, label, Record { owner, resolver, ttl })
        },
        ExecuteMsg::SetRecord { node, owner, resolver, ttl } => execute::set_record(
            registry,
            node,
            Record { owner, resolver, ttl },
        ),
        ExecuteMsg::SetApprovalForAll { operator, approved } => execute::set_approval_for_all(
            registry,
            info.sender,
            operator,
            approved,
        ),
    }
}

/// Answers one read-only query; queries never change the registry.
pub fn query(registry: &Registry, msg: QueryMsg) -> (r: QueryResponse)
    requires
        registry.wf(),
    ensures
        match msg {
            QueryMsg::Owner { node } => r matches QueryResponse::Address(a) && holds_address(
                a,
                owner_of(registry@, node@),
            ),
            QueryMsg::Resolver { node } => r matches QueryResponse::Address(a) && holds_address(
                a,
                resolver_of(registry@, node@),
            ),
            QueryMsg::TTL { node } => r matches QueryResponse::Ttl(t) && t.ttl == ttl_of(
                registry@,
                node@,
            ),
            QueryMsg::RecordExists { node } => r matches QueryResponse::Bool(b) && b.value
                == registry@.records.contains_key(node@),
            QueryMsg::IsApprovedForAll { owner, operator } => r matches QueryResponse::Bool(b)
                && b.value == registry@.is_approved(owner@, operator@),
        },
{
    match msg {
        QueryMsg::Owner { node } => QueryResponse::Address(query::owner(registry, node)),
        QueryMsg::Resolver { node } => QueryResponse::Address(query::resolver(registry, node)),
        QueryMsg::TTL { node } => QueryResponse::Ttl(query::ttl(registry, node)),
        QueryMsg::RecordExists { node } => QueryResponse::Bool(query::record_exists(registry, node)),
        QueryMsg::IsApprovedForAll { owner, operator } => QueryResponse::Bool(
            query::is_approved_for_all(registry, owner, operator),
        ),
    }
}

/// The owner of a node is always authorized on it.
pub proof fn lemma_owner_authorized(s: RegistryView, node: Seq<char>)
    requires
        s.records.contains_key(node),
    ensures
        s.authorized(s.records[node].owner, node),
{
}

/// A caller that does not own the node and holds no approval entry from its
/// owner is never authorized on it.
pub proof fn lemma_stranger_unauthorized(s: RegistryView, caller: Seq<char>, node: Seq<char>)
    requires
        s.records.contains_key(node),
        caller != s.records[node].owner,
        !s.operators_of(s.records[node].owner).contains_key(caller),
    ensures
        !s.authorized(caller, node),
{
}

/// Once an owner has approved an operator, the operator is authorized on every
/// node that the owner then holds.
pub proof fn lemma_approval_grants(s: RegistryView, owner: Seq<char>, operator: Seq<char>, node: Seq<char>)
    requires
        s.records.contains_key(node),
        s.records[node].owner == owner,
    ensures
        set_approval_for_all_spec(s, owner, operator, true) matches Ok(t) && t.authorized(
            operator,
            node,
        ),
{
}

/// Once an owner has revoked an operator, the operator is no longer authorized
/// on the nodes that the owner holds.
pub proof fn lemma_revocation_withdraws(
    s: RegistryView,
    owner: Seq<char>,
    operator: Seq<char>,
    node: Seq<char>,
)
    requires
        s.records.contains_key(node),
        s.records[node].owner == owner,
        operator != owner,
    ensures
        set_approval_for_all_spec(s, owner, operator, false) matches Ok(t) && !t.authorized(
            operator,
            node,
        ),
{
}

/// A refused mutation leaves every record and every approval as it was.
pub proof fn lemma_refusal_changes_nothing(
    pre: RegistryView,
    post: RegistryView,
    r: Result<Response, ContractError>,
    sender: Seq<char>,
    msg: ExecuteMsg,
)
    requires
        applied(pre, post, r, execute_spec(pre, sender, msg), action_of(msg)),
        r is Err,
    ensures
        post == pre,
{
}

/// An authorized caller that assigns the child `label` of `node` to `owner`
/// leaves that child with a fresh record owned by `owner`, with no resolver and
/// a zero TTL, whatever record it had before.
pub proof fn lemma_subnode_owner_overwrites(
    s: RegistryView,
    sender: Seq<char>,
    node: Seq<char>,
    label: Seq<char>,
    owner: Seq<char>,
)
    requires
        s.authorized(sender, node),
    ensures
        set_subnode_owner_spec(s, sender, node, label, owner) matches Ok(t) && t.records.contains_key(
            subnode_of(node, label),
        ) && t.records[subnode_of(node, label)] == (RecordView {
            owner,
            resolver: Seq::empty(),
            ttl: 0,
        }),
{
}

} // verus!
