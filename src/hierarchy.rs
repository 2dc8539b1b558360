//! The listener hierarchy: one root grouping node, and under it one group
//! node per state type, created on first use and found again afterwards.
//!
//! Nodes are handles of the host's choosing (`E`); the host creates them.
use std::any::TypeId;
use vstd::prelude::*;

verus! {

#[verifier::external_type_specification]
#[verifier::external_body]
pub struct ExTypeId(TypeId);

/// Relies on `TypeId`'s `==`: two ids are equal exactly when they are the
/// same id.
pub assume_specification[ <TypeId as PartialEq>::eq ](a: &TypeId, b: &TypeId) -> (r: bool)
    ensures
        r == (*a == *b),
;

/// The hierarchy as plain values: the root node, and the group node of each
/// state type that has one.
pub struct HierarchyView<E> {
    pub root: E,
    pub groups: Map<TypeId, E>,
}

/// The root node and the group nodes, by state type.
pub struct ObserverHierarchy<E> {
    root: E,
    groups: Vec<(TypeId, E)>,
}

impl<E: Copy> View for ObserverHierarchy<E> {
    type V = HierarchyView<E>;

    closed spec fn view(&self) -> HierarchyView<E> {
        HierarchyView {
            root: self.root,
            groups: Map::new(
                |t: TypeId| exists|i: int| 0 <= i < self.groups.len() && self.groups@[i].0 == t,
                |t: TypeId|
                    self.groups@[choose|i: int|
                        0 <= i < self.groups.len() && self.groups@[i].0 == t].1,
            ),
        }
    }
}

impl<E: Copy> ObserverHierarchy<E> {
    /// No state type has two group nodes.
    pub closed spec fn wf(&self) -> bool {
        forall|i: int, j: int|
            0 <= i < self.groups.len() && 0 <= j < self.groups.len() && i != j
                ==> #[trigger] self.groups@[i].0 != #[trigger] self.groups@[j].0
    }

    /// A hierarchy with the root node `root` and no group yet.
    pub fn new(root: E) -> (r: Self)
        ensures
            r.wf(),
            r@.root == root,
            r@.groups == Map::<TypeId, E>::empty(),
    {
        let r = ObserverHierarchy { root, groups: Vec::new() };
        proof {
            assert(r@.groups =~= Map::<TypeId, E>::empty());
        }
        r
    }

    /// The root node.
    pub fn root(&self) -> (r: E)
        ensures
            r == self@.root,
    {
        self.root
    }

    /// Where the entry for `t` stands, if it has one.
    fn position(&self, t: TypeId) -> (r: Option<usize>)
        requires
            self.wf(),
        ensures
            match r {
                Some(i) => i < self.groups.len() && self.groups@[i as int].0 == t,
                None => forall|i: int| 0 <= i < self.groups.len() ==> self.groups@[i].0 != t,
            },
    {
        let mut i: usize = 0;
        while i < self.groups.len()
            invariant
                i <= self.groups.len(),
                forall|j: int| 0 <= j < i ==> self.groups@[j].0 != t,
            decreases self.groups.len() - i,
        {
            if self.groups[i].0 == t {
                return Some(i);
            }
            i = i + 1;
        }
        None
    }

    /// The group node of state type `t`, if it has one.
    pub fn group(&self, t: TypeId) -> (r: Option<E>)
        requires
            self.wf(),
        ensures
            r == (if self@.groups.contains_key(t) {
                Some(self@.groups[t])
            } else {
                None
            }),
    {
        match self.position(t) {
            Some(i) => {
                proof {
                    let k = choose|k: int| 0 <= k < self.groups.len() && self.groups@[k].0 == t;
                    assert(k == i as int);
                }
                Some(self.groups[i].1)
            },
            None => None,
        }
    }

    /// Records `node` as the group node of state type `t`, unless `t` has
    /// one already; returns the group node that `t` has afterwards.
    pub fn insert_group(&mut self, t: TypeId, node: E) -> (r: E)
        requires
            old(self).wf(),
        ensures
            final(self).wf(),
            final(self)@.root == old(self)@.root,
            old(self)@.groups.contains_key(t) ==> r == old(self)@.groups[t]
                && final(self)@.groups == old(self)@.groups,
            !old(self)@.groups.contains_key(t) ==> r == node
                && final(self)@.groups == old(self)@.groups.insert(t, node),
    {
        match self.group(t) {
            Some(existing) => existing,
            None => {
                let ghost before = self.groups@;
                self.groups.push((t, node));
                proof {
                    assert(self.groups@ == before.push((t, node)));
                    let expected = old(self)@.groups.insert(t, node);
                    assert forall|u: TypeId| #[trigger] self@.groups.contains_key(u) implies
                        expected.contains_key(u) && self@.groups[u] == expected[u] by {
                        let k = choose|k: int|
                            0 <= k < self.groups.len() && self.groups@[k].0 == u;
                        if u == t {
                            assert(k == before.len());
                        } else {
                            assert(before[k].0 == u);
                            let k0 = choose|k0: int| 0 <= k0 < before.len() && before[k0].0 == u;
                            assert(k0 == k);
                        }
                    }
                    assert forall|u: TypeId| #[trigger] expected.contains_key(u) implies
                        self@.groups.contains_key(u) by {
                        if u == t {
                            assert(self.groups@[before.len() as int].0 == u);
                        } else {
                            let k0 = choose|k0: int| 0 <= k0 < before.len() && before[k0].0 == u;
                            assert(self.groups@[k0].0 == u);
                        }
                    }
                    assert(self@.groups =~= expected);
                }
                node
            },
        }
    }
}

} // verus!
