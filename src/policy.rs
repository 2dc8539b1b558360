//! Per-object override policies: which transitions are forced through,
//! which are forced back, and whether the type's default rule fills the gaps.
use crate::edge_set::{add_edge, edges_of, empty_edges, holds_edge, Edge};
use bevy::platform::collections::HashSet;
use vstd::prelude::*;

verus! {

/// How an override policy reads its set of pairs.
#[derive(Clone, Copy, Debug, PartialEq, Eq, Structural)]
pub enum RuleType {
    /// No pair is singled out; every transition passes unless the default
    /// rule is consulted and refuses it.
    All,
    /// Every transition is refused; the default rule is never consulted.
    DenyAll,
    /// Listed pairs are accepted outright; the others are refused, or left to
    /// the default rule.
    Whitelist,
    /// Listed pairs are refused outright; the others are accepted, or left to
    /// the default rule.
    Blacklist,
}

/// The members of `s` as a set.
pub open spec fn edge_set_of(s: Seq<Edge>) -> Set<Edge> {
    Set::new(|e: Edge| s.contains(e))
}

/// What an override policy says, as plain values.
pub struct PolicyView {
    pub mode: RuleType,
    pub edges: Set<Edge>,
    pub call_rules: bool,
}

impl PolicyView {
    /// The policy's own reading of `from -> to`, without the default rule.
    pub open spec fn allows(self, from: usize, to: usize) -> bool {
        match self.mode {
            RuleType::All => true,
            RuleType::DenyAll => false,
            RuleType::Whitelist => self.edges.contains((from, to)),
            RuleType::Blacklist => !self.edges.contains((from, to)),
        }
    }
}

/// An override policy for one object.
pub struct FSMOverride {
    /// How the pairs are read.
    pub mode: RuleType,
    /// The listed pairs, directional: `(a, b)` says nothing of `(b, a)`.
    transitions: HashSet<Edge>,
    /// Whether transitions that the policy leaves undecided go to the
    /// type's default rule.
    pub call_rules: bool,
}

impl View for FSMOverride {
    type V = PolicyView;

    closed spec fn view(&self) -> PolicyView {
        PolicyView { mode: self.mode, edges: edges_of(self.transitions), call_rules: self.call_rules }
    }
}

impl FSMOverride {
    fn with_mode(mode: RuleType, edges: Vec<Edge>) -> (r: Self)
        ensures
            r@.mode == mode,
            r@.edges == edge_set_of(edges@),
            !r@.call_rules,
    {
        let mut transitions = empty_edges();
        insert_all(&mut transitions, &edges);
        proof {
            assert(edges_of(transitions) =~= edge_set_of(edges@));
        }
        FSMOverride { mode, transitions, call_rules: false }
    }

    /// A policy that accepts every transition and lists nothing.
    pub fn allow_all() -> (r: Self)
        ensures
            r@.mode == RuleType::All,
            r@.edges == Set::<Edge>::empty(),
            !r@.call_rules,
    {
        FSMOverride { mode: RuleType::All, transitions: empty_edges(), call_rules: false }
    }

    /// A policy that refuses every transition: the state is frozen.
    pub fn deny_all() -> (r: Self)
        ensures
            r@.mode == RuleType::DenyAll,
            r@.edges == Set::<Edge>::empty(),
            !r@.call_rules,
    {
        FSMOverride { mode: RuleType::DenyAll, transitions: empty_edges(), call_rules: false }
    }

    /// A policy that accepts exactly the listed pairs.
    pub fn whitelist(edges: Vec<Edge>) -> (r: Self)
        ensures
            r@.mode == RuleType::Whitelist,
            r@.edges == edge_set_of(edges@),
            !r@.call_rules,
    {
        Self::with_mode(RuleType::Whitelist, edges)
    }

    /// A policy that refuses exactly the listed pairs.
    pub fn blacklist(edges: Vec<Edge>) -> (r: Self)
        ensures
            r@.mode == RuleType::Blacklist,
            r@.edges == edge_set_of(edges@),
            !r@.call_rules,
    {
        Self::with_mode(RuleType::Blacklist, edges)
    }

    /// The same policy, with undecided transitions going to the default rule.
    pub fn with_rules(self) -> (r: Self)
        ensures
            r@.mode == self@.mode,
            r@.edges == self@.edges,
            r@.call_rules,
    {
        let mut s = self;
        s.call_rules = true;
        s
    }

    /// The same policy with more listed pairs (pairs to accept, in whitelist
    /// mode).
    pub fn and_allow(self, edges: Vec<Edge>) -> (r: Self)
        ensures
            r@.mode == self@.mode,
            r@.edges == self@.edges.union(edge_set_of(edges@)),
            r@.call_rules == self@.call_rules,
    {
        let mut s = self;
        insert_all(&mut s.transitions, &edges);
        s
    }

    /// The same policy with more listed pairs (pairs to refuse, in blacklist
    /// mode).
    pub fn and_deny(self, edges: Vec<Edge>) -> (r: Self)
        ensures
            r@.mode == self@.mode,
            r@.edges == self@.edges.union(edge_set_of(edges@)),
            r@.call_rules == self@.call_rules,
    {
        let mut s = self;
        insert_all(&mut s.transitions, &edges);
        s
    }

    /// How the pairs are read.
    pub fn mode(&self) -> (r: RuleType)
        ensures
            r == self@.mode,
    {
        self.mode
    }

    /// Whether undecided transitions go to the default rule.
    pub fn call_rules(&self) -> (r: bool)
        ensures
            r == self@.call_rules,
    {
        self.call_rules
    }

    /// Whether `(from, to)` is listed.
    pub fn lists(&self, from: usize, to: usize) -> (r: bool)
        ensures
            r == self@.edges.contains((from, to)),
    {
        holds_edge(&self.transitions, (from, to))
    }

    /// The policy's own reading of `from -> to`, without the default rule.
    pub fn is_transition_allowed(&self, from: usize, to: usize) -> (r: bool)
        ensures
            r == self@.allows(from, to),
    {
        match self.mode {
            RuleType::All => true,
            RuleType::DenyAll => false,
            RuleType::Whitelist => self.lists(from, to),
            RuleType::Blacklist => !self.lists(from, to),
        }
    }
}

impl Default for FSMOverride {
    /// Same as `allow_all`.
    fn default() -> (r: Self)
        ensures
            r@.mode == RuleType::All,
            r@.edges == Set::<Edge>::empty(),
            !r@.call_rules,
    {
        Self::allow_all()
    }
}

/// Adds every pair of `edges` to `set`.
fn insert_all(set: &mut HashSet<Edge>, edges: &Vec<Edge>)
    ensures
        edges_of(*final(set)) == edges_of(*old(set)).union(edge_set_of(edges@)),
{
    let ghost start = edges_of(*set);
    let mut i: usize = 0;
    while i < edges.len()
        invariant
            i <= edges.len(),
            edges_of(*set) == start.union(edge_set_of(edges@.subrange(0, i as int))),
        decreases edges.len() - i,
    {
        add_edge(set, edges[i]);
        proof {
            let before = edges@.subrange(0, i as int);
            let after = edges@.subrange(0, i as int + 1);
            assert(after == before.push(edges@[i as int]));
            assert(edge_set_of(after) =~= edge_set_of(before).insert(edges@[i as int])) by {
                assert forall|e: Edge| edge_set_of(after).contains(e) implies
                    edge_set_of(before).insert(edges@[i as int]).contains(e) by {
                    let j = choose|j: int| 0 <= j < after.len() && after[j] == e;
                    if j < before.len() {
                        assert(before[j] == e);
                    }
                }
                assert forall|e: Edge| edge_set_of(before).insert(edges@[i as int]).contains(e)
                    implies edge_set_of(after).contains(e) by {
                    if e == edges@[i as int] {
                        assert(after[i as int] == e);
                    } else {
                        let j = choose|j: int| 0 <= j < before.len() && before[j] == e;
                        assert(after[j] == e);
                    }
                }
            }
            assert(edges_of(*set) =~= start.union(edge_set_of(after)));
        }
        i = i + 1;
    }
    proof {
        assert(edges@.subrange(0, edges.len() as int) =~= edges@);
    }
}

} // verus!
