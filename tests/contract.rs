use cw_sei::contract::execute::{
    authorise, set_approval_for_all, set_owner, set_record, set_resolver, set_resolver_and_ttl,
    set_subnode_owner, set_subnode_record, set_ttl,
};
use cw_sei::contract::query::{is_approved_for_all, owner, record_exists, resolver, ttl};
use cw_sei::contract::{execute, instantiate, query};
use cw_sei::error::ContractError;
use cw_sei::msg::{
    AddressResponse, BoolResponse, ExecuteMsg, InstantiateMsg, MessageInfo, QueryMsg,
    QueryResponse, TTLResponse,
};
use cw_sei::namespace::derive_subnode;
use cw_sei::state::{Record, Registry};

fn info(sender: &str) -> MessageInfo {
    MessageInfo { sender: sender.to_string() }
}

fn registry_rooted_at(root: &str, creator: &str) -> Registry {
    let mut registry = Registry::new();
    instantiate(&mut registry, info(creator), InstantiateMsg { node: root.to_string() }).unwrap();
    registry
}

fn owner_of(registry: &Registry, node: &str) -> Option<String> {
    owner(registry, node.to_string()).address
}

#[test]
fn proper_initialization() {
    let mut registry = Registry::new();
    let msg = InstantiateMsg { node: "0000".to_string() };
    let res = instantiate(&mut registry, info("creator"), msg).unwrap();
    assert_eq!(0, res.messages.len());
    assert_eq!(owner_of(&registry, "0000"), Some("creator".to_string()));
}

#[test]
fn increment() {
    let mut registry = registry_rooted_at("0x0", "creator");
    set_ttl(&mut registry, info("creator"), "0x0".to_string(), 17).unwrap();
    set_ttl(&mut registry, info("creator"), "0x0".to_string(), 18).unwrap();
    assert_eq!(ttl(&registry, "0x0".to_string()), TTLResponse { ttl: Some(18) });
}

#[test]
fn reset() {
    let mut registry = registry_rooted_at("0x0", "creator");
    let res = set_ttl(&mut registry, info("anyone"), "0x0".to_string(), 5);
    assert_eq!(res, Err(ContractError::Unauthorized));
    set_ttl(&mut registry, info("creator"), "0x0".to_string(), 5).unwrap();
    assert_eq!(ttl(&registry, "0x0".to_string()), TTLResponse { ttl: Some(5) });
}

#[test]
fn instantiate_reports_method_and_owner() {
    let mut registry = Registry::new();
    let res = instantiate(&mut registry, info("creator"), InstantiateMsg { node: "0x0".to_string() })
        .unwrap();
    assert_eq!(res.attributes.len(), 2);
    assert_eq!(res.attributes[0].key, "method");
    assert_eq!(res.attributes[0].value, "instantiate");
    assert_eq!(res.attributes[1].key, "owner");
    assert_eq!(res.attributes[1].value, "creator");
    assert_eq!(resolver(&registry, "0x0".to_string()).address, Some(String::new()));
    assert_eq!(ttl(&registry, "0x0".to_string()).ttl, Some(0));
}

#[test]
fn naming_scenario() {
    let mut registry = registry_rooted_at("0x0", "creator");
    assert_eq!(owner_of(&registry, "0x0"), Some("creator".to_string()));

    set_subnode_owner(
        &mut registry,
        info("creator"),
        "0x0".to_string(),
        "alice".to_string(),
        "alice-addr".to_string(),
    )
    .unwrap();
    let subnode = derive_subnode(&"0x0".to_string(), &"alice".to_string());
    assert_eq!(owner_of(&registry, &subnode), Some("alice-addr".to_string()));

    let refused = set_owner(&mut registry, info("mallory"), subnode.clone(), "bob-addr".to_string());
    assert_eq!(refused, Err(ContractError::Unauthorized));
    assert_eq!(owner_of(&registry, &subnode), Some("alice-addr".to_string()));

    set_approval_for_all(
        &mut registry,
        "alice-addr".to_string(),
        "carol-addr".to_string(),
        true,
    )
    .unwrap();
    set_owner(&mut registry, info("carol-addr"), subnode.clone(), "dave-addr".to_string()).unwrap();
    assert_eq!(owner_of(&registry, &subnode), Some("dave-addr".to_string()));
}

#[test]
fn derive_subnode_is_deterministic() {
    let a = derive_subnode(&"0x0".to_string(), &"alice".to_string());
    let b = derive_subnode(&"0x0".to_string(), &"alice".to_string());
    assert_eq!(a, b);
    assert_eq!(a.len(), 64);
    assert!(a.chars().all(|c| c.is_ascii_hexdigit() && !c.is_ascii_uppercase()));
    assert_ne!(a, derive_subnode(&"0x0".to_string(), &"bob".to_string()));
    assert_ne!(a, derive_subnode(&"0x1".to_string(), &"alice".to_string()));
    assert_ne!(a, derive_subnode(&"0x0".to_string(), &"Alice".to_string()));
}

#[test]
fn derive_subnode_hashes_parent_then_label() {
    assert_eq!(
        derive_subnode(&String::new(), &String::new()),
        "c5d2460186f7233c927e7db2dcc703c0e500b653ca82273b7bfad8045d85a470"
    );
    assert_eq!(
        derive_subnode(&"ab".to_string(), &"c".to_string()),
        derive_subnode(&"a".to_string(), &"bc".to_string())
    );
}

#[test]
fn owner_is_authorized() {
    let registry = registry_rooted_at("0x0", "creator");
    assert_eq!(authorise(&registry, &info("creator"), &"0x0".to_string()), Ok(()));
}

#[test]
fn stranger_is_unauthorized() {
    let registry = registry_rooted_at("0x0", "creator");
    assert_eq!(
        authorise(&registry, &info("stranger"), &"0x0".to_string()),
        Err(ContractError::Unauthorized)
    );
}

#[test]
fn unknown_node_is_unauthorized() {
    let registry = registry_rooted_at("0x0", "creator");
    assert_eq!(
        authorise(&registry, &info("creator"), &"0x1".to_string()),
        Err(ContractError::Unauthorized)
    );
    let mut registry = registry;
    let res = set_owner(&mut registry, info("creator"), "0x1".to_string(), "x".to_string());
    assert_eq!(res, Err(ContractError::Unauthorized));
    assert!(!record_exists(&registry, "0x1".to_string()).value);
}

#[test]
fn approval_then_revocation() {
    let mut registry = registry_rooted_at("0x0", "owner");
    let root = "0x0".to_string();
    set_approval_for_all(&mut registry, "owner".to_string(), "op".to_string(), true).unwrap();
    assert_eq!(authorise(&registry, &info("op"), &root), Ok(()));
    assert_eq!(
        is_approved_for_all(&registry, "owner".to_string(), "op".to_string()),
        BoolResponse { value: true }
    );
    set_approval_for_all(&mut registry, "owner".to_string(), "op".to_string(), false).unwrap();
    assert_eq!(authorise(&registry, &info("op"), &root), Err(ContractError::Unauthorized));
    assert_eq!(
        is_approved_for_all(&registry, "owner".to_string(), "op".to_string()),
        BoolResponse { value: false }
    );
}

#[test]
fn approval_follows_the_current_owner() {
    let mut registry = registry_rooted_at("0x0", "owner");
    set_approval_for_all(&mut registry, "owner".to_string(), "op".to_string(), true).unwrap();
    set_owner(&mut registry, info("owner"), "0x0".to_string(), "other".to_string()).unwrap();
    assert_eq!(
        authorise(&registry, &info("op"), &"0x0".to_string()),
        Err(ContractError::Unauthorized)
    );
}

#[test]
fn approval_defaults_to_false() {
    let registry = registry_rooted_at("0x0", "owner");
    assert!(!is_approved_for_all(&registry, "owner".to_string(), "op".to_string()).value);
}

#[test]
fn refused_mutation_leaves_record() {
    let mut registry = registry_rooted_at("0x0", "owner");
    set_resolver(&mut registry, info("owner"), "0x0".to_string(), "res".to_string()).unwrap();
    set_ttl(&mut registry, info("owner"), "0x0".to_string(), 300).unwrap();
    assert_eq!(
        set_resolver(&mut registry, info("mallory"), "0x0".to_string(), "evil".to_string()),
        Err(ContractError::Unauthorized)
    );
    assert_eq!(owner_of(&registry, "0x0"), Some("owner".to_string()));
    assert_eq!(resolver(&registry, "0x0".to_string()), AddressResponse { address: Some("res".to_string()) });
    assert_eq!(ttl(&registry, "0x0".to_string()).ttl, Some(300));
}

#[test]
fn subnode_owner_overwrites_prior_record() {
    let mut registry = registry_rooted_at("0x0", "owner");
    let root = "0x0".to_string();
    let label = "label".to_string();
    let full = Record { owner: "first".to_string(), resolver: "res".to_string(), ttl: 99 };
    set_subnode_record(&mut registry, root.clone(), label.clone(), full).unwrap();
    set_subnode_owner(&mut registry, info("owner"), root.clone(), label.clone(), "second".to_string())
        .unwrap();
    let subnode = derive_subnode(&root, &label);
    assert_eq!(owner_of(&registry, &subnode), Some("second".to_string()));
    assert_eq!(resolver(&registry, subnode.clone()).address, Some(String::new()));
    assert_eq!(ttl(&registry, subnode).ttl, Some(0));
}

#[test]
fn subnode_owner_needs_authorization() {
    let mut registry = registry_rooted_at("0x0", "owner");
    let res = set_subnode_owner(
        &mut registry,
        info("mallory"),
        "0x0".to_string(),
        "x".to_string(),
        "mallory".to_string(),
    );
    assert_eq!(res, Err(ContractError::Unauthorized));
    let subnode = derive_subnode(&"0x0".to_string(), &"x".to_string());
    assert!(!record_exists(&registry, subnode).value);
}

#[test]
fn set_resolver_and_ttl_needs_existing_node() {
    let mut registry = registry_rooted_at("0x0", "owner");
    assert_eq!(
        set_resolver_and_ttl(&mut registry, "0x9".to_string(), "r".to_string(), 1),
        Err(ContractError::NodeNotFound)
    );
    set_resolver_and_ttl(&mut registry, "0x0".to_string(), "r".to_string(), 42).unwrap();
    assert_eq!(resolver(&registry, "0x0".to_string()).address, Some("r".to_string()));
    assert_eq!(ttl(&registry, "0x0".to_string()).ttl, Some(42));
    assert_eq!(owner_of(&registry, "0x0"), Some("owner".to_string()));
}

#[test]
fn set_record_needs_existing_node() {
    let mut registry = registry_rooted_at("0x0", "owner");
    let rec = Record { owner: "n".to_string(), resolver: "r".to_string(), ttl: 7 };
    assert_eq!(
        set_record(&mut registry, "0x9".to_string(), rec.clone()),
        Err(ContractError::NodeNotFound)
    );
    assert!(!record_exists(&registry, "0x9".to_string()).value);
    let res = set_record(&mut registry, "0x0".to_string(), rec).unwrap();
    assert_eq!(res.attributes[1].value, "set record");
    assert_eq!(owner_of(&registry, "0x0"), Some("n".to_string()));
    assert_eq!(ttl(&registry, "0x0".to_string()).ttl, Some(7));
}

#[test]
fn queries_on_unknown_node_report_none() {
    let registry = registry_rooted_at("0x0", "owner");
    assert_eq!(owner(&registry, "nope".to_string()), AddressResponse { address: None });
    assert_eq!(resolver(&registry, "nope".to_string()), AddressResponse { address: None });
    assert_eq!(ttl(&registry, "nope".to_string()), TTLResponse { ttl: None });
    assert_eq!(record_exists(&registry, "nope".to_string()), BoolResponse { value: false });
    assert_eq!(record_exists(&registry, "0x0".to_string()), BoolResponse { value: true });
}

#[test]
fn execute_dispatches_messages() {
    let mut registry = registry_rooted_at("0x0", "owner");
    let msg = ExecuteMsg::SetSubnodeOwner {
        node: "0x0".to_string(),
        label: "sub".to_string(),
        owner: "kid".to_string(),
    };
    let res = execute(&mut registry, info("owner"), msg).unwrap();
    assert_eq!(res.attributes[0].value, "execute");
    assert_eq!(res.attributes[1].value, "set subnode owner");
    let subnode = derive_subnode(&"0x0".to_string(), &"sub".to_string());
    let answer = query(&registry, QueryMsg::Owner { node: subnode.clone() });
    assert_eq!(answer, QueryResponse::Address(AddressResponse { address: Some("kid".to_string()) }));

    let msg = ExecuteMsg::SetTTL { node: subnode.clone(), ttl: 60 };
    assert_eq!(execute(&mut registry, info("owner"), msg), Err(ContractError::Unauthorized));
    let msg = ExecuteMsg::SetApprovalForAll { operator: "owner".to_string(), approved: true };
    execute(&mut registry, info("kid"), msg).unwrap();
    let msg = ExecuteMsg::SetTTL { node: subnode.clone(), ttl: 60 };
    execute(&mut registry, info("owner"), msg).unwrap();
    assert_eq!(query(&registry, QueryMsg::TTL { node: subnode }), QueryResponse::Ttl(TTLResponse { ttl: Some(60) }));
    let answer = query(
        &registry,
        QueryMsg::IsApprovedForAll { owner: "kid".to_string(), operator: "owner".to_string() },
    );
    assert_eq!(answer, QueryResponse::Bool(BoolResponse { value: true }));
}

#[test]
fn into_parts_hands_out_everything() {
    let mut registry = registry_rooted_at("0x0", "owner");
    set_subnode_owner(&mut registry, info("owner"), "0x0".to_string(), "a".to_string(), "x".to_string())
        .unwrap();
    set_approval_for_all(&mut registry, "owner".to_string(), "op".to_string(), true).unwrap();
    let (records, operators) = registry.into_parts();
    assert_eq!(records.len(), 2);
    assert_eq!(operators.len(), 1);
    assert_eq!(operators[0].0, "owner");
    let entries = operators.into_iter().next().unwrap().1.into_entries();
    assert_eq!(entries, vec![("op".to_string(), true)]);
}
