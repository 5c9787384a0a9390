use vstd::prelude::*;
use crypto::digest::Digest;
use crypto::sha3::Sha3;

verus! {

/// The lowercase hex form of the Keccak-256 digest of the UTF-8 bytes of `s`.
pub uninterp spec fn keccak256_hex(s: Seq<char>) -> Seq<char>;

/// Relies on rust-crypto's `Sha3::keccak256`, `Digest::input_str` and
/// `Digest::result_str`: the hex digest of the string's bytes, a function of them alone.
#[verifier::external_body]
fn keccak256_hex_of(s: &str) -> (r: String)
    ensures
        r@ == keccak256_hex(s@),
{
    let mut hasher = Sha3::keccak256();
    hasher.input_str(s);
    hasher.result_str()
}

/// The identifier of the child of `parent` named `label`: the hash of the parent
/// identifier followed by the label, with no separator and no normalisation.
pub open spec fn subnode_of(parent: Seq<char>, label: Seq<char>) -> Seq<char> {
    keccak256_hex(parent + label)
}

pub fn derive_subnode(parent: &String, label: &String) -> (r: String)
    ensures
        r@ == subnode_of(parent@, label@),
{
    let joined = parent.clone().concat(label.as_str());
    keccak256_hex_of(joined.as_str())
}

/// A subnode identifier depends on nothing but the parent identifier followed by
/// the label: pairs that join to the same text name the same node.
pub proof fn lemma_subnode_determined_by_joined_text(
    p1: Seq<char>,
    l1: Seq<char>,
    p2: Seq<char>,
    l2: Seq<char>,
)
    requires
        p1 + l1 == p2 + l2,
    ensures
        subnode_of(p1, l1) == subnode_of(p2, l2),
{
}

/// Where the hash has no collision on the two joined texts, pairs that join to
/// different texts name different nodes.
pub proof fn lemma_subnode_distinct(p1: Seq<char>, l1: Seq<char>, p2: Seq<char>, l2: Seq<char>)
    requires
        p1 + l1 != p2 + l2,
        keccak256_hex(p1 + l1) != keccak256_hex(p2 + l2),
    ensures
        subnode_of(p1, l1) != subnode_of(p2, l2),
{
}

} // verus!
