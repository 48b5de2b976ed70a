//! Record keys of the experience store (the hypergraph of edges that the
//! memory node keeps): a key is a prefix, a colon and the edge's timestamp.

use vstd::prelude::*;
use crate::text::{decimal, decimal_string, law_decimal_injective};

verus! {

/// Key prefix of the edges injected from knowledge tomes.
pub const TOME_KEY_PREFIX: &'static str = "tome";

/// The key under which an edge stamped `timestamp` is stored.
pub open spec fn edge_key_of(key_prefix: Seq<char>, timestamp: u64) -> Seq<char> {
    key_prefix + ":"@ + decimal(timestamp as nat)
}

/// The key under which an edge stamped `timestamp` is stored: the prefix, a
/// colon, and the timestamp in decimal.
pub fn edge_key(key_prefix: &str, timestamp: u64) -> (key: String)
    ensures
        key@ == edge_key_of(key_prefix@, timestamp),
{
    let mut key = String::from_str(key_prefix);
    key.append(":");
    let digits = decimal_string(timestamp);
    key.append(digits.as_str());
    key
}

/// The key prefix of the liquidation edges of `target`.
pub fn liquidation_key_prefix(target: &str) -> (prefix: String)
    ensures
        prefix@ == "edge:"@ + target@,
{
    let mut prefix = String::from_str("edge:");
    prefix.append(target);
    prefix
}

/// Whether a file with this extension is a knowledge tome (a Markdown note).
pub fn is_knowledge_tome(extension: &str) -> (tome: bool)
    ensures
        tome == (extension@ == "md"@),
{
    let ext = String::from_str(extension);
    let md = String::from_str("md");
    ext == md
}

/// Edges with the same prefix and different timestamps never share a key,
/// so recording one never overwrites another.
pub proof fn law_edge_keys_distinct(key_prefix: Seq<char>, t1: u64, t2: u64)
    requires
        t1 != t2,
    ensures
        edge_key_of(key_prefix, t1) != edge_key_of(key_prefix, t2),
{
    let head = key_prefix + ":"@;
    let k1 = edge_key_of(key_prefix, t1);
    let k2 = edge_key_of(key_prefix, t2);
    if k1 == k2 {
        assert(k1.subrange(head.len() as int, k1.len() as int) =~= decimal(t1 as nat));
        assert(k2.subrange(head.len() as int, k2.len() as int) =~= decimal(t2 as nat));
        law_decimal_injective(t1 as nat, t2 as nat);
    }
}

} // verus!
