//! The aggregator's node registry: an ordered list of addresses, unique by
//! exact string equality, with insertion order preserved.
//!
//! The addresses `"ping"`, `"direct"` and the empty string are sentinels,
//! reserved for liveness probes and locally originated updates. They may sit
//! in the registry, but they are excluded from every externally reported
//! listing and from every broadcast target list.

use vstd::prelude::*;

verus! {

/// An address reserved for internal use, never a broadcast target.
pub open spec fn is_sentinel(a: Seq<char>) -> bool {
    a == "ping"@ || a == "direct"@ || a == ""@
}

/// `addr` occurs somewhere in `nodes`.
pub open spec fn contains_addr(nodes: Seq<Seq<char>>, addr: Seq<char>) -> bool {
    exists|i: int| 0 <= i < nodes.len() && nodes[i] == addr
}

/// `nodes` with `addr` appended, unless it is already present.
pub open spec fn register_spec(nodes: Seq<Seq<char>>, addr: Seq<char>) -> Seq<Seq<char>> {
    if contains_addr(nodes, addr) {
        nodes
    } else {
        nodes.push(addr)
    }
}

/// No address occurs twice.
pub open spec fn unique_addrs(nodes: Seq<Seq<char>>) -> bool {
    forall|i: int, j: int| 0 <= i < j < nodes.len() ==> nodes[i] != nodes[j]
}

/// The subsequence of `nodes` that keeps only non-sentinel addresses,
/// in their original order.
pub open spec fn non_sentinel(nodes: Seq<Seq<char>>) -> Seq<Seq<char>> {
    nodes.filter(|a: Seq<char>| !is_sentinel(a))
}

/// Filtering commutes with appending one address.
pub proof fn lemma_non_sentinel_push(nodes: Seq<Seq<char>>, a: Seq<char>)
    ensures
        non_sentinel(nodes.push(a)) == if is_sentinel(a) {
            non_sentinel(nodes)
        } else {
            non_sentinel(nodes).push(a)
        },
{
    reveal(Seq::filter);
    assert(nodes.push(a).drop_last() =~= nodes);
}

/// Law: a second registration of the same address changes nothing; the
/// registry keeps exactly the one entry the first registration made.
pub proof fn lemma_register_idempotent(nodes: Seq<Seq<char>>, addr: Seq<char>)
    ensures
        register_spec(register_spec(nodes, addr), addr) == register_spec(nodes, addr),
{
    if !contains_addr(nodes, addr) {
        assert(nodes.push(addr)[nodes.len() as int] == addr);
    }
}

/// Law: registration preserves uniqueness of the registry and makes the
/// address present.
pub proof fn lemma_register_unique(nodes: Seq<Seq<char>>, addr: Seq<char>)
    requires
        unique_addrs(nodes),
    ensures
        unique_addrs(register_spec(nodes, addr)),
        contains_addr(register_spec(nodes, addr), addr),
{
    if !contains_addr(nodes, addr) {
        let nodes1 = nodes.push(addr);
        assert(nodes1[nodes.len() as int] == addr);
        assert forall|i: int, j: int| 0 <= i < j < nodes1.len() implies nodes1[i] != nodes1[j] by {
            if j < nodes.len() {
                assert(nodes1[i] == nodes[i] && nodes1[j] == nodes[j]);
            } else {
                assert(nodes1[j] == addr);
                assert(nodes1[i] == nodes[i]);
            }
        }
    }
}

/// Law: no sentinel address, in particular none of `"ping"`, `"direct"`
/// and the empty string, appears in the non-sentinel listing.
pub proof fn lemma_sentinels_excluded(nodes: Seq<Seq<char>>)
    ensures
        forall|i: int|
            0 <= i < non_sentinel(nodes).len() ==> !is_sentinel(#[trigger] non_sentinel(nodes)[i]),
        !contains_addr(non_sentinel(nodes), "ping"@),
        !contains_addr(non_sentinel(nodes), "direct"@),
        !contains_addr(non_sentinel(nodes), ""@),
    decreases nodes.len(),
{
    if nodes.len() == 0 {
        reveal(Seq::filter);
    } else {
        let prefix = nodes.drop_last();
        lemma_sentinels_excluded(prefix);
        lemma_non_sentinel_push(prefix, nodes.last());
        assert(prefix.push(nodes.last()) =~= nodes);
    }
}

/// Whether `addr` is one of the reserved sentinel addresses.
pub fn is_sentinel_addr(addr: &String) -> (r: bool)
    ensures
        r == is_sentinel(addr@),
{
    let ping: String = "ping".to_owned();
    let direct: String = "direct".to_owned();
    let empty: String = "".to_owned();
    *addr == ping || *addr == direct || *addr == empty
}

/// Whether `addr` is already registered.
pub fn contains_node(nodes: &Vec<String>, addr: &String) -> (r: bool)
    ensures
        r == contains_addr(nodes.deep_view(), addr@),
{
    let ghost dv = nodes.deep_view();
    let mut i: usize = 0;
    while i < nodes.len()
        invariant
            i <= nodes.len(),
            dv == nodes.deep_view(),
            dv.len() == nodes@.len(),
            forall|j: int| 0 <= j < dv.len() ==> dv[j] == nodes@[j]@,
            forall|j: int| 0 <= j < i ==> dv[j] != addr@,
        decreases nodes.len() - i,
    {
        if nodes[i] == *addr {
            assert(dv[i as int] == addr@);
            return true;
        }
        i = i + 1;
    }
    false
}

/// Appends `addr` unless it is already present; insertion order and
/// uniqueness are preserved.
pub fn insert_addr(nodes: &mut Vec<String>, addr: String)
    ensures
        final(nodes).deep_view() == register_spec(old(nodes).deep_view(), addr@),
        unique_addrs(old(nodes).deep_view()) ==> unique_addrs(final(nodes).deep_view()),
{
    let ghost dv0 = nodes.deep_view();
    proof {
        if unique_addrs(dv0) {
            lemma_register_unique(dv0, addr@);
        }
    }
    if !contains_node(nodes, &addr) {
        nodes.push(addr);
        assert(nodes.deep_view() =~= dv0.push(addr@));
    }
}

/// The registered addresses that a broadcast goes to: every non-sentinel
/// entry, in registry order.
pub fn broadcast_targets(nodes: &Vec<String>) -> (r: Vec<String>)
    ensures
        r.deep_view() == non_sentinel(nodes.deep_view()),
{
    let ghost dv = nodes.deep_view();
    let mut out: Vec<String> = Vec::new();
    let mut i: usize = 0;
    while i < nodes.len()
        invariant
            i <= nodes.len(),
            dv == nodes.deep_view(),
            dv.len() == nodes@.len(),
            forall|j: int| 0 <= j < dv.len() ==> dv[j] == nodes@[j]@,
            out.deep_view() == non_sentinel(dv.take(i as int)),
        decreases nodes.len() - i,
    {
        let ghost prefix = dv.take(i as int);
        if !is_sentinel_addr(&nodes[i]) {
            let entry: String = nodes[i].clone();
            out.push(entry);
            proof {
                lemma_non_sentinel_push(prefix, dv[i as int]);
                assert(out.deep_view() =~= non_sentinel(prefix).push(dv[i as int]));
            }
        } else {
            proof {
                lemma_non_sentinel_push(prefix, dv[i as int]);
            }
        }
        proof {
            assert(dv.take(i + 1 as int) =~= prefix.push(dv[i as int]));
        }
        i = i + 1;
    }
    proof {
        assert(dv.take(nodes@.len() as int) =~= dv);
    }
    out
}

} // verus!
