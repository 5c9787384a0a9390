use vstd::prelude::*;

verus! {

/// Sets up the registry with `node` as its root.
#[derive(Clone, Debug, PartialEq, Eq)]
pub struct InstantiateMsg {
    pub node: String,
}

/// The principal on whose behalf an operation runs, as the host authenticated it.
#[derive(Clone, Debug, PartialEq, Eq)]
pub struct MessageInfo {
    pub sender: String,
}

#[derive(Clone, Debug, PartialEq, Eq)]
pub enum ExecuteMsg {
    SetOwner { node: String, owner: String },
    SetResolver { node: String, resolver: String },
    SetTTL { node: String, ttl: u64 },
    SetResolverAndTTL { node: String, resolver: String, ttl: u64 },
    SetSubnodeOwner { node: String, label: String, owner: String },
    SetSubnodeRecord { node: String, label: String, owner: String, resolver: String, ttl: u64 },
    SetRecord { node: String, owner: String, resolver: String, ttl: u64 },
    SetApprovalForAll { operator: String, approved: bool },
}

#[derive(Clone, Debug, PartialEq, Eq)]
pub enum QueryMsg {
    Owner { node: String },
    Resolver { node: String },
    TTL { node: String },
    RecordExists { node: String },
    IsApprovedForAll { owner: String, operator: String },
}

/// An address, or none where the node has no record.
#[derive(Clone, Debug, PartialEq, Eq)]
pub struct AddressResponse {
    pub address: Option<String>,
}

/// A time to live, or none where the node has no record.
#[derive(Clone, Debug, PartialEq, Eq)]
pub struct TTLResponse {
    pub ttl: Option<u64>,
}

#[derive(Clone, Debug, PartialEq, Eq)]
pub struct BoolResponse {
    pub value: bool,
}

/// The answer to a query, one variant per kind of answer.
#[derive(Clone, Debug, PartialEq, Eq)]
pub enum QueryResponse {
    Address(AddressResponse),
    Ttl(TTLResponse),
    Bool(BoolResponse),
}

/// A key and value that a response reports to the host.
#[derive(Clone, Debug, PartialEq, Eq)]
pub struct Attribute {
    pub key: String,
    pub value: String,
}

/// What a successful operation hands back to the host: encoded outbound
/// messages, of which this registry sends none, and the attributes it reports.
#[derive(Clone, Debug, PartialEq, Eq)]
pub struct Response {
    pub messages: Vec<Vec<u8>>,
    pub attributes: Vec<Attribute>,
}

impl Response {
    /// The attributes as key and value pairs, in order.
    pub open spec fn attribute_pairs(self) -> Seq<(Seq<char>, Seq<char>)> {
        self.attributes@.map_values(|a: Attribute| (a.key@, a.value@))
    }

    pub fn new() -> (r: Response)
        ensures
            r.messages@.len() == 0,
            r.attribute_pairs() == Seq::<(Seq<char>, Seq<char>)>::empty(),
    {
        let r = Response { messages: Vec::new(), attributes: Vec::new() };
        assert(r.attribute_pairs() =~= Seq::<(Seq<char>, Seq<char>)>::empty());
        r
    }

    pub fn add_attribute(self, key: &str, value: &str) -> (r: Response)
        ensures
            r.messages@ == self.messages@,
            r.attribute_pairs() == self.attribute_pairs().push((key@, value@)),
    {
        let mut r = self;
        r.attributes.push(Attribute { key: String::from_str(key), value: String::from_str(value) });
        assert(r.attribute_pairs() =~= self.attribute_pairs().push((key@, value@)));
        r
    }
}

} // verus!
