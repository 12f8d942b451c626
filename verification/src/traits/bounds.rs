//! The clauses in scope at an item: its own, and those of the items that
//! enclose it.
use crate::traits::graph::AnnotatedClause;
use crate::traits::graph::PredicateIndex;
use vstd::prelude::*;

verus! {

/// A clause as an item lists it.
#[derive(Clone, Copy, Debug, PartialEq, Eq)]
pub struct ClauseRef {
    /// Handle of the clause.
    pub clause: usize,
    /// The clause seen as a trait predicate, when it is one.
    pub trait_predicate: Option<PredicateIndex>,
    /// Handle of the span the clause was written at.
    pub span: usize,
}

/// What is known of the bounds of one item.
#[derive(Clone, Debug)]
pub struct ItemBounds {
    /// The predicates of the item, the implicit ones included.
    pub predicates: Vec<ClauseRef>,
    /// Whether the item is an opaque type, which brings bounds of its own.
    pub is_opaque_ty: bool,
    /// The bounds written on the item itself.
    pub item_bounds: Vec<ClauseRef>,
    /// The clauses that the item declares, by handle.
    pub defined_on: Vec<usize>,
    /// The item that encloses this one.
    pub parent: Option<usize>,
}

/// The items of a program, each with its bounds. An item is entered after
/// the item that encloses it.
#[derive(Clone, Debug)]
pub struct ItemTable {
    pub items: Vec<ItemBounds>,
}

impl ItemBounds {
    /// The clauses that the item brings into scope, before annotation: its
    /// predicates, then, for an opaque type, its own bounds.
    pub open spec fn spec_clauses(self) -> Seq<ClauseRef> {
        if self.is_opaque_ty {
            self.predicates@ + self.item_bounds@
        } else {
            self.predicates@
        }
    }

    /// A clause of the item, annotated: it is an extra self predicate when
    /// the item does not declare it.
    pub open spec fn annotate(self, c: ClauseRef) -> AnnotatedClause {
        AnnotatedClause {
            is_extra_self_predicate: !self.defined_on@.contains(c.clause),
            clause: c.clause,
            trait_predicate: c.trait_predicate,
            span: c.span,
        }
    }

    /// The clauses that the item brings into scope, annotated, in order.
    pub open spec fn spec_annotated(self) -> Seq<AnnotatedClause> {
        Seq::new(self.spec_clauses().len(), |i: int| self.annotate(self.spec_clauses()[i]))
    }

    /// Whether the item declares the clause `clause`.
    pub fn declares(&self, clause: usize) -> (r: bool)
        ensures
            r == self.defined_on@.contains(clause),
    {
        let mut i: usize = 0;
        while i < self.defined_on.len()
            invariant
                i <= self.defined_on@.len(),
                forall|j: int| 0 <= j < i ==> self.defined_on@[j] != clause,
            decreases self.defined_on@.len() - i,
        {
            if self.defined_on[i] == clause {
                return true;
            }
            i += 1;
        }
        false
    }
}

impl ItemTable {
    /// Every item is entered after the item that encloses it.
    pub open spec fn wf(self) -> bool {
        forall|i: int|
            0 <= i < self.items@.len() ==> match (#[trigger] self.items@[i]).parent {
                Some(p) => p < i,
                None => true,
            }
    }

    /// The clauses in scope at the item `did`: its own, then those of each
    /// enclosing item, from the inside out.
    pub open spec fn spec_above(self, did: usize) -> Seq<AnnotatedClause>
        decreases did,
    {
        if did >= self.items@.len() {
            Seq::empty()
        } else {
            let item = self.items@[did as int];
            match item.parent {
                Some(p) if p < did => item.spec_annotated() + self.spec_above(p),
                _ => item.spec_annotated(),
            }
        }
    }

    /// Decides `wf`.
    pub fn is_wf(&self) -> (r: bool)
        ensures
            r == self.wf(),
    {
        let mut i: usize = 0;
        while i < self.items.len()
            invariant
                i <= self.items@.len(),
                forall|j: int|
                    0 <= j < i ==> match (#[trigger] self.items@[j]).parent {
                        Some(p) => p < j,
                        None => true,
                    },
            decreases self.items@.len() - i,
        {
            match self.items[i].parent {
                Some(p) => {
                    if p >= i {
                        return false;
                    }
                },
                None => {},
            }
            i += 1;
        }
        true
    }

    /// The clauses that the item `did` brings into scope, annotated, and the
    /// item that encloses it.
    pub fn annotated_predicates_of(&self, did: usize) -> (r: (Vec<AnnotatedClause>, Option<usize>))
        requires
            did < self.items@.len(),
        ensures
            r.0@ == self.items@[did as int].spec_annotated(),
            r.1 == self.items@[did as int].parent,
    {
        let item = &self.items[did];
        let mut out: Vec<AnnotatedClause> = Vec::new();
        let mut i: usize = 0;
        while i < item.predicates.len()
            invariant
                i <= item.predicates@.len(),
                out@.len() == i,
                forall|j: int| 0 <= j < i ==> out@[j] == item.annotate(item.predicates@[j]),
            decreases item.predicates@.len() - i,
        {
            let c = item.predicates[i];
            out.push(
                AnnotatedClause {
                    is_extra_self_predicate: !item.declares(c.clause),
                    clause: c.clause,
                    trait_predicate: c.trait_predicate,
                    span: c.span,
                },
            );
            i += 1;
        }
        if item.is_opaque_ty {
            let base = item.predicates.len();
            let mut k: usize = 0;
            while k < item.item_bounds.len()
                invariant
                    k <= item.item_bounds@.len(),
                    base == item.predicates@.len(),
                    out@.len() == base + k,
                    forall|j: int|
                        0 <= j < base ==> out@[j] == item.annotate(item.predicates@[j]),
                    forall|j: int|
                        0 <= j < k ==> out@[base + j] == item.annotate(item.item_bounds@[j]),
                decreases item.item_bounds@.len() - k,
            {
                let c = item.item_bounds[k];
                out.push(
                    AnnotatedClause {
                        is_extra_self_predicate: !item.declares(c.clause),
                        clause: c.clause,
                        trait_predicate: c.trait_predicate,
                        span: c.span,
                    },
                );
                k += 1;
            }
        }
        assert(out@ =~= item.spec_annotated());
        (out, item.parent)
    }

    /// The clauses in scope at the item `did`: like the clauses of the item
    /// alone, but with those of every enclosing item after them.
    pub fn predicates_defined_on_or_above(&self, did: usize) -> (r: Vec<AnnotatedClause>)
        requires
            self.wf(),
            did < self.items@.len(),
        ensures
            r@ == self.spec_above(did),
    {
        let mut predicates: Vec<AnnotatedClause> = Vec::new();
        let mut next: Option<usize> = Some(did);
        while next.is_some()
            invariant
                self.wf(),
                next matches Some(d) ==> d < self.items@.len() && predicates@ + self.spec_above(d)
                    == self.spec_above(did),
                next.is_none() ==> predicates@ == self.spec_above(did),
            decreases
                    match next {
                        Some(d) => d + 1,
                        None => 0,
                    },
        {
            let d = next.unwrap();
            let (preds, parent) = self.annotated_predicates_of(d);
            let ghost before = predicates@;
            let mut preds = preds;
            predicates.append(&mut preds);
            assert(predicates@ == before + self.items@[d as int].spec_annotated());
            proof {
                let item = self.items@[d as int];
                match item.parent {
                    Some(p) => {
                        assert(p < d);
                        assert(predicates@ + self.spec_above(p) =~= before + self.spec_above(d));
                    },
                    None => {
                        assert(predicates@ =~= before + self.spec_above(d));
                    },
                }
            }
            next = parent;
        }
        predicates
    }
}

/// The trait predicates among the first `k` clauses, in order.
pub open spec fn spec_trait_predicates(clauses: Seq<AnnotatedClause>, k: int) -> Seq<
    PredicateIndex,
>
    decreases k,
{
    if k <= 0 {
        Seq::empty()
    } else {
        match clauses[k - 1].trait_predicate {
            Some(p) => spec_trait_predicates(clauses, k - 1).push(p),
            None => spec_trait_predicates(clauses, k - 1),
        }
    }
}

/// The trait predicates among `clauses`, in order. The position of a
/// predicate in the result is the index by which a hop through it is
/// recorded.
pub fn predicates_to_poly_trait_predicates(clauses: &Vec<AnnotatedClause>) -> (r: Vec<
    PredicateIndex,
>)
    ensures
        r@ == spec_trait_predicates(clauses@, clauses@.len() as int),
{
    let mut out: Vec<PredicateIndex> = Vec::new();
    let mut i: usize = 0;
    while i < clauses.len()
        invariant
            i <= clauses@.len(),
            out@ == spec_trait_predicates(clauses@, i as int),
        decreases clauses@.len() - i,
    {
        match clauses[i].trait_predicate {
            Some(p) => {
                out.push(p);
            },
            None => {},
        }
        i += 1;
    }
    out
}

impl ItemTable {
    /// The predicates that the trait `trait_def` requires of what
    /// implements it, before its own arguments are put in: the trait
    /// predicates among the clauses in scope at the trait.
    pub fn parents_trait_predicates(&self, trait_def: usize) -> (r: Vec<PredicateIndex>)
        requires
            self.wf(),
            trait_def < self.items@.len(),
        ensures
            r@ == spec_trait_predicates(
                self.spec_above(trait_def),
                self.spec_above(trait_def).len() as int,
            ),
    {
        let clauses = self.predicates_defined_on_or_above(trait_def);
        predicates_to_poly_trait_predicates(&clauses)
    }
}

} // verus!
