//! The set of directed state pairs held by an override policy, kept in
//! bevy's `HashSet`.
use bevy::platform::collections::HashSet;
use bevy::platform::hash::FixedHasher;
use vstd::prelude::*;

verus! {

#[verifier::external_type_specification]
#[verifier::external_body]
#[verifier::reject_recursive_types(T)]
#[verifier::reject_recursive_types(S)]
pub struct ExHashSet<T, S>(HashSet<T, S>);

#[verifier::external_type_specification]
#[verifier::external_body]
pub struct ExFixedHasher(FixedHasher);

/// A directed pair of variant indices: `(from, to)`.
pub type Edge = (usize, usize);

/// The pairs that a `HashSet` of edges holds.
pub uninterp spec fn edges_of(s: HashSet<Edge>) -> Set<Edge>;

/// Relies on `HashSet::new`: the new set holds nothing.
#[verifier::external_body]
pub(crate) fn empty_edges() -> (r: HashSet<Edge>)
    ensures
        edges_of(r) == Set::<Edge>::empty(),
{
    HashSet::new()
}

/// Relies on `HashSet::contains`: true exactly when the pair is held.
#[verifier::external_body]
pub(crate) fn holds_edge(s: &HashSet<Edge>, e: Edge) -> (r: bool)
    ensures
        r == edges_of(*s).contains(e),
{
    s.contains(&e)
}

/// Relies on `HashSet::insert`: the pair is added and nothing else changes.
#[verifier::external_body]
pub(crate) fn add_edge(s: &mut HashSet<Edge>, e: Edge)
    ensures
        edges_of(*final(s)) == edges_of(*old(s)).insert(e),
{
    s.insert(e);
}

} // verus!
