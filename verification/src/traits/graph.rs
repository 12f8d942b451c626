//! The derivation graph over which bounds in scope are searched: trait
//! predicates as nodes, supertrait and associated-type bounds as edges.
use vstd::prelude::*;

verus! {

/// Handle of a trait predicate: its position in the graph's node table.
pub type PredicateIndex = usize;

/// The bounds declared on one associated type of a predicate's trait, with
/// the predicate's own arguments substituted.
#[derive(Clone, Debug)]
pub struct AssocBounds {
    /// Handle of the associated item.
    pub item: usize,
    /// The bound predicates, in declared order.
    pub bounds: Vec<PredicateIndex>,
}

/// A trait predicate and what can be derived from it in one hop.
#[derive(Clone, Debug)]
pub struct ClauseNode {
    /// The predicate after normalisation, with regions erased and its binder
    /// stripped, in its textual form. Two predicates count as the same when
    /// these texts are equal.
    pub repr: String,
    /// The supertrait predicates, in declared order.
    pub parents: Vec<PredicateIndex>,
    /// The associated types of the trait, in definition order.
    pub assoc: Vec<AssocBounds>,
}

/// The predicates known to a resolution, each with its outgoing hops.
#[derive(Clone, Debug)]
pub struct ClauseGraph {
    pub nodes: Vec<ClauseNode>,
}

/// A clause in scope at some item, with where it came from.
#[derive(Clone, Copy, Debug, PartialEq, Eq)]
pub struct AnnotatedClause {
    /// Set for a clause that the item has beyond its own declared list.
    pub is_extra_self_predicate: bool,
    /// Handle of the clause itself.
    pub clause: usize,
    /// The clause seen as a trait predicate, when it is one.
    pub trait_predicate: Option<PredicateIndex>,
    /// Handle of the span the clause was written at.
    pub span: usize,
}

/// One hop of a derivation.
#[derive(Clone, Copy, Debug, PartialEq, Eq)]
pub enum PathChunk {
    /// Through the bound `index` of the associated item `item`, reaching
    /// `predicate`.
    AssocItem { item: usize, predicate: PredicateIndex, index: usize },
    /// To the supertrait predicate `index`, reaching `predicate`.
    Parent { predicate: PredicateIndex, index: usize },
}

/// A derivation: hops in the order in which they are taken.
pub type Path = Vec<PathChunk>;

impl PathChunk {
    /// The predicate that the hop reaches.
    pub open spec fn spec_predicate(self) -> PredicateIndex {
        match self {
            PathChunk::AssocItem { predicate, .. } => predicate,
            PathChunk::Parent { predicate, .. } => predicate,
        }
    }

    pub fn predicate(&self) -> (r: PredicateIndex)
        ensures
            r == self.spec_predicate(),
    {
        match self {
            PathChunk::AssocItem { predicate, .. } => *predicate,
            PathChunk::Parent { predicate, .. } => *predicate,
        }
    }
}

impl ClauseNode {
    /// Every hop from this node leads to a predicate below `n`.
    pub open spec fn hops_below(self, n: nat) -> bool {
        &&& forall|k: int| 0 <= k < self.parents@.len() ==> (#[trigger] self.parents@[k]) < n
        &&& forall|a: int, k: int|
            0 <= a < self.assoc@.len() && 0 <= k < self.assoc@[a].bounds@.len() ==> (
            #[trigger] self.assoc@[a].bounds@[k]) < n
    }

    /// Decides `hops_below`.
    pub fn check_hops_below(&self, n: usize) -> (r: bool)
        ensures
            r == self.hops_below(n as nat),
    {
        let mut k: usize = 0;
        while k < self.parents.len()
            invariant
                k <= self.parents@.len(),
                forall|k2: int| 0 <= k2 < k ==> (#[trigger] self.parents@[k2]) < n,
            decreases self.parents@.len() - k,
        {
            if self.parents[k] >= n {
                return false;
            }
            k += 1;
        }
        let mut a: usize = 0;
        while a < self.assoc.len()
            invariant
                a <= self.assoc@.len(),
                forall|k2: int| 0 <= k2 < self.parents@.len() ==> (#[trigger] self.parents@[k2]) < n,
                forall|a2: int, k2: int|
                    0 <= a2 < a && 0 <= k2 < self.assoc@[a2].bounds@.len() ==> (
                    #[trigger] self.assoc@[a2].bounds@[k2]) < n,
            decreases self.assoc@.len() - a,
        {
            let bounds = &self.assoc[a].bounds;
            let mut k: usize = 0;
            while k < bounds.len()
                invariant
                    k <= bounds@.len(),
                    a < self.assoc@.len(),
                    *bounds == self.assoc@[a as int].bounds,
                    forall|k2: int| 0 <= k2 < k ==> (#[trigger] bounds@[k2]) < n,
                decreases bounds@.len() - k,
            {
                if bounds[k] >= n {
                    return false;
                }
                k += 1;
            }
            a += 1;
        }
        true
    }
}

impl ClauseGraph {
    /// Every hop leads to a node of the graph.
    pub open spec fn wf(self) -> bool {
        forall|i: int|
            0 <= i < self.nodes@.len() ==> (#[trigger] self.nodes@[i]).hops_below(
                self.nodes@.len(),
            )
    }

    /// The text by which the predicate `p` is compared.
    pub open spec fn repr(self, p: PredicateIndex) -> Seq<char> {
        self.nodes@[p as int].repr@
    }

    /// Whether two predicates count as the same: their normalised texts are
    /// equal.
    pub open spec fn spec_predicate_equality(self, x: PredicateIndex, y: PredicateIndex) -> bool {
        self.repr(x) == self.repr(y)
    }

    /// Whether `hop` can be taken from the predicate `from`.
    pub open spec fn is_hop(self, from: PredicateIndex, hop: PathChunk) -> bool {
        let node = self.nodes@[from as int];
        match hop {
            PathChunk::Parent { predicate, index } => {
                &&& index < node.parents@.len()
                &&& node.parents@[index as int] == predicate
            },
            PathChunk::AssocItem { item, predicate, index } => {
                exists|a: int|
                    {
                        &&& 0 <= a < node.assoc@.len()
                        &&& (#[trigger] node.assoc@[a]).item == item
                        &&& index < node.assoc@[a].bounds@.len()
                        &&& node.assoc@[a].bounds@[index as int] == predicate
                    }
            },
        }
    }

    /// Decides `spec_predicate_equality`.
    pub fn predicate_equality(&self, x: PredicateIndex, y: PredicateIndex) -> (r: bool)
        requires
            x < self.nodes@.len(),
            y < self.nodes@.len(),
        ensures
            r == self.spec_predicate_equality(x, y),
    {
        self.nodes[x].repr == self.nodes[y].repr
    }

    /// Decides `wf`.
    pub fn is_wf(&self) -> (r: bool)
        ensures
            r == self.wf(),
    {
        let n = self.nodes.len();
        let mut i: usize = 0;
        while i < n
            invariant
                n == self.nodes@.len(),
                i <= n,
                forall|j: int| 0 <= j < i ==> (#[trigger] self.nodes@[j]).hops_below(n as nat),
            decreases n - i,
        {
            if !self.nodes[i].check_hops_below(n) {
                return false;
            }
            i += 1;
        }
        true
    }
}

} // verus!
