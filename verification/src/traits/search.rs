//! Breadth-first search for a derivation of a target predicate from the
//! clauses in scope.
use crate::traits::graph::AnnotatedClause;
use crate::traits::graph::ClauseGraph;
use crate::traits::graph::Path;
use crate::traits::graph::PathChunk;
use crate::traits::graph::PredicateIndex;
use vstd::prelude::*;

verus! {

/// A predicate reached during the search, with the hops that led to it and
/// the clause in scope that the hops started from.
#[derive(Debug)]
pub struct Candidate {
    pub path: Path,
    pub pred: PredicateIndex,
    pub origin: AnnotatedClause,
}

/// A candidate as a mathematical value.
pub struct CandidateView {
    pub path: Seq<PathChunk>,
    pub pred: PredicateIndex,
    pub origin: AnnotatedClause,
}

impl View for Candidate {
    type V = CandidateView;

    open spec fn view(&self) -> CandidateView {
        CandidateView { path: self.path@, pred: self.pred, origin: self.origin }
    }
}

/// The candidates that the first `k` clauses in scope give rise to: one for
/// each trait clause, with an empty path, in the order of the clauses.
pub open spec fn start_queue(starting_points: Seq<AnnotatedClause>, k: int) -> Seq<CandidateView>
    decreases k,
{
    if k <= 0 {
        Seq::empty()
    } else {
        let before = start_queue(starting_points, k - 1);
        match starting_points[k - 1].trait_predicate {
            Some(p) => before.push(
                CandidateView { path: Seq::empty(), pred: p, origin: starting_points[k - 1] },
            ),
            None => before,
        }
    }
}

/// The candidates reached from `c` through its first `k` supertrait
/// predicates.
pub open spec fn parent_children(graph: ClauseGraph, c: CandidateView, k: int) -> Seq<
    CandidateView,
>
    decreases k,
{
    if k <= 0 {
        Seq::empty()
    } else {
        let p = graph.nodes@[c.pred as int].parents@[k - 1];
        parent_children(graph, c, k - 1).push(
            CandidateView {
                path: c.path.push(PathChunk::Parent { predicate: p, index: (k - 1) as usize }),
                pred: p,
                origin: c.origin,
            },
        )
    }
}

/// The candidates reached from `c` through the first `k` bounds of its
/// associated item at position `a`.
pub open spec fn bound_children(graph: ClauseGraph, c: CandidateView, a: int, k: int) -> Seq<
    CandidateView,
>
    decreases k,
{
    if k <= 0 {
        Seq::empty()
    } else {
        let item = graph.nodes@[c.pred as int].assoc@[a];
        let p = item.bounds@[k - 1];
        bound_children(graph, c, a, k - 1).push(
            CandidateView {
                path: c.path.push(
                    PathChunk::AssocItem { item: item.item, predicate: p, index: (k - 1) as usize },
                ),
                pred: p,
                origin: c.origin,
            },
        )
    }
}

/// The candidates reached from `c` through the bounds of its first `a`
/// associated items.
pub open spec fn assoc_children(graph: ClauseGraph, c: CandidateView, a: int) -> Seq<CandidateView>
    decreases a,
{
    if a <= 0 {
        Seq::empty()
    } else {
        assoc_children(graph, c, a - 1) + bound_children(
            graph,
            c,
            a - 1,
            graph.nodes@[c.pred as int].assoc@[a - 1].bounds@.len() as int,
        )
    }
}

/// Everything one hop away from `c`: supertraits first, then the bounds of
/// each associated item, all in declared order.
pub open spec fn children(graph: ClauseGraph, c: CandidateView) -> Seq<CandidateView> {
    let node = graph.nodes@[c.pred as int];
    parent_children(graph, c, node.parents@.len() as int) + assoc_children(
        graph,
        c,
        node.assoc@.len() as int,
    )
}

/// Whether `p` counts as the same as one of the predicates in `seen`.
pub open spec fn is_seen(graph: ClauseGraph, seen: Seq<PredicateIndex>, p: PredicateIndex) -> bool {
    exists|j: int| 0 <= j < seen.len() && graph.spec_predicate_equality(p, #[trigger] seen[j])
}

/// How many of the first `k` predicates of the graph are not yet seen.
pub open spec fn unseen(graph: ClauseGraph, seen: Seq<PredicateIndex>, k: nat) -> nat
    decreases k,
{
    if k == 0 {
        0
    } else {
        let rest = unseen(graph, seen, (k - 1) as nat);
        if is_seen(graph, seen, (k - 1) as usize) {
            rest
        } else {
            rest + 1
        }
    }
}

/// Marking `p` as seen does not raise the count of unseen predicates, and
/// lowers it from `p` on when `p` was not seen before.
pub proof fn lemma_unseen_push(
    graph: ClauseGraph,
    seen: Seq<PredicateIndex>,
    p: PredicateIndex,
    k: nat,
)
    requires
        k <= usize::MAX,
    ensures
        unseen(graph, seen.push(p), k) <= unseen(graph, seen, k),
        !is_seen(graph, seen, p) && p < k ==> unseen(graph, seen.push(p), k) < unseen(
            graph,
            seen,
            k,
        ),
    decreases k,
{
    if k > 0 {
        lemma_unseen_push(graph, seen, p, (k - 1) as nat);
        let q = (k - 1) as usize;
        let pushed = seen.push(p);
        if is_seen(graph, seen, q) {
            let j = choose|j: int|
                0 <= j < seen.len() && graph.spec_predicate_equality(q, #[trigger] seen[j]);
            assert(pushed[j] == seen[j]);
            assert(is_seen(graph, pushed, q));
        }
        if q == p {
            assert(pushed[seen.len() as int] == p);
            assert(is_seen(graph, pushed, q));
        }
    }
}

/// The outcome of the search from a queue of candidates and the predicates
/// already taken off it. The head of the queue is dropped if it is the same
/// as a seen predicate, returned if it is the same as the target, and
/// otherwise marked seen and replaced, at the back, by its children.
pub open spec fn search(
    graph: ClauseGraph,
    queue: Seq<CandidateView>,
    seen: Seq<PredicateIndex>,
    target: Seq<char>,
) -> Option<(Seq<PathChunk>, AnnotatedClause)>
    decreases unseen(graph, seen, graph.nodes@.len()), queue.len(),
{
    if queue.len() == 0 {
        None
    } else {
        let c = queue[0];
        let rest = queue.drop_first();
        if c.pred >= graph.nodes@.len() || is_seen(graph, seen, c.pred) {
            search(graph, rest, seen, target)
        } else if graph.repr(c.pred) == target {
            Some((c.path, c.origin))
        } else {
            proof {
                assert(graph.nodes@.len() == graph.nodes.len());
                lemma_unseen_push(graph, seen, c.pred, graph.nodes@.len());
            }
            search(graph, rest + children(graph, c), seen.push(c.pred), target)
        }
    }
}

/// The derivation that the search finds of a predicate whose text is
/// `target` from the trait clauses among `starting_points`, with the clause
/// it starts from: the first one that the search meets, going breadth
/// first through the clauses and the declared hops in their order, and not
/// expanding a predicate whose text it has seen. Where predicates of the
/// same text lead to predicates of the same text, that derivation is a
/// shortest one in hops, and there is one whenever the target can be
/// derived; where they do not, a predicate that is pruned may hide a
/// shorter derivation, or the only one.
pub open spec fn spec_path_to(
    graph: ClauseGraph,
    starting_points: Seq<AnnotatedClause>,
    target: Seq<char>,
) -> Option<(Seq<PathChunk>, AnnotatedClause)> {
    search(graph, start_queue(starting_points, starting_points.len() as int), Seq::empty(), target)
}

/// The candidates of a queue as mathematical values.
pub open spec fn views(queue: Seq<Candidate>) -> Seq<CandidateView> {
    Seq::new(queue.len(), |i: int| queue[i]@)
}

/// A copy of a path.
pub fn copy_path(path: &Path) -> (r: Path)
    ensures
        r@ == path@,
{
    let mut out: Vec<PathChunk> = Vec::new();
    let mut i: usize = 0;
    while i < path.len()
        invariant
            i <= path@.len(),
            out@ == path@.subrange(0, i as int),
        decreases path@.len() - i,
    {
        out.push(path[i]);
        i += 1;
        assert(out@ =~= path@.subrange(0, i as int));
    }
    assert(path@.subrange(0, path@.len() as int) =~= path@);
    out
}

/// Decides `is_seen`.
pub fn seen_contains(graph: &ClauseGraph, seen: &Vec<PredicateIndex>, p: PredicateIndex) -> (r:
    bool)
    requires
        p < graph.nodes@.len(),
        forall|j: int| 0 <= j < seen@.len() ==> (#[trigger] seen@[j]) < graph.nodes@.len(),
    ensures
        r == is_seen(*graph, seen@, p),
{
    let mut j: usize = 0;
    while j < seen.len()
        invariant
            j <= seen@.len(),
            p < graph.nodes@.len(),
            forall|i: int| 0 <= i < seen@.len() ==> (#[trigger] seen@[i]) < graph.nodes@.len(),
            forall|i: int| 0 <= i < j ==> !graph.spec_predicate_equality(p, #[trigger] seen@[i]),
        decreases seen@.len() - j,
    {
        if graph.predicate_equality(p, seen[j]) {
            return true;
        }
        j += 1;
    }
    false
}

/// Searches, breadth first, for a derivation of a predicate whose normalised
/// text is `target` from the trait clauses among `starting_points`. A
/// predicate that is the same as one taken off the queue before is not
/// expanded again. Returns the hops of the first derivation found and the
/// clause it starts from; `None` when the queue runs empty. What is found
/// is always a derivation of the target; it is a shortest one, and `None`
/// means that there is none, when the graph is coherent, that is, when
/// predicates of the same text lead to predicates of the same text.
pub fn path_to(
    graph: &ClauseGraph,
    starting_points: &Vec<AnnotatedClause>,
    target: &String,
) -> (r: Option<(Path, AnnotatedClause)>)
    ensures
        match spec_path_to(*graph, starting_points@, target@) {
            Some((path, origin)) => r.is_some() && r.unwrap().0@ == path && r.unwrap().1 == origin,
            None => r.is_none(),
        },
{
    let n = graph.nodes.len();
    let mut queue: Vec<Candidate> = Vec::new();
    let mut i: usize = 0;
    while i < starting_points.len()
        invariant
            i <= starting_points@.len(),
            views(queue@) == start_queue(starting_points@, i as int),
        decreases starting_points@.len() - i,
    {
        let ghost before = queue@;
        match starting_points[i].trait_predicate {
            Some(p) => {
                let c = Candidate { path: Vec::new(), pred: p, origin: starting_points[i] };
                queue.push(c);
                assert(views(queue@) =~= views(before).push(c@));
            },
            None => {},
        }
        i += 1;
    }
    let mut head: usize = 0;
    let mut seen: Vec<PredicateIndex> = Vec::new();
    let ghost mut q: Seq<CandidateView> = views(queue@);
    assert(views(queue@).subrange(0, queue@.len() as int) =~= q);
    while head < queue.len()
        invariant
            n == graph.nodes@.len(),
            head <= queue@.len(),
            views(queue@).subrange(head as int, queue@.len() as int) == q,
            forall|j: int| 0 <= j < seen@.len() ==> (#[trigger] seen@[j]) < n,
            search(*graph, q, seen@, target@) == spec_path_to(*graph, starting_points@, target@),
        decreases unseen(*graph, seen@, n as nat), q.len(),
    {
        let pred = queue[head].pred;
        let origin = queue[head].origin;
        let ghost c = q[0];
        let ghost rest = q.drop_first();
        assert(c == queue@[head as int]@);
        if pred >= n || seen_contains(graph, &seen, pred) {
            head += 1;
            proof {
                assert(views(queue@).subrange(head as int, queue@.len() as int) =~= rest);
                q = rest;
            }
        } else if graph.nodes[pred].repr == *target {
            let path = copy_path(&queue[head].path);
            return Some((path, origin));
        } else {
            let base = copy_path(&queue[head].path);
            head += 1;
            let ghost start = views(queue@);
            let node = &graph.nodes[pred];
            let mut k: usize = 0;
            while k < node.parents.len()
                invariant
                    k <= node.parents@.len(),
                    pred < graph.nodes@.len(),
                    *node == graph.nodes@[pred as int],
                    base@ == c.path,
                    pred == c.pred,
                    origin == c.origin,
                    head <= queue@.len(),
                    views(queue@) == start + parent_children(*graph, c, k as int),
                decreases node.parents@.len() - k,
            {
                let ghost before = queue@;
                let mut path = copy_path(&base);
                path.push(PathChunk::Parent { predicate: node.parents[k], index: k });
                let child = Candidate { path, pred: node.parents[k], origin };
                queue.push(child);
                k += 1;
                assert(views(queue@) =~= views(before).push(child@));
                assert(views(queue@) =~= start + parent_children(*graph, c, k as int));
            }
            let ghost mid = views(queue@);
            let mut a: usize = 0;
            while a < node.assoc.len()
                invariant
                    a <= node.assoc@.len(),
                    pred < graph.nodes@.len(),
                    *node == graph.nodes@[pred as int],
                    base@ == c.path,
                    pred == c.pred,
                    origin == c.origin,
                    head <= queue@.len(),
                    views(queue@) == mid + assoc_children(*graph, c, a as int),
                decreases node.assoc@.len() - a,
            {
                let item = &node.assoc[a];
                let ghost inner = views(queue@);
                let mut k: usize = 0;
                while k < item.bounds.len()
                    invariant
                        k <= item.bounds@.len(),
                        a < node.assoc@.len(),
                        pred < graph.nodes@.len(),
                        *node == graph.nodes@[pred as int],
                        *item == node.assoc@[a as int],
                        base@ == c.path,
                        pred == c.pred,
                        origin == c.origin,
                        head <= queue@.len(),
                        views(queue@) == inner + bound_children(*graph, c, a as int, k as int),
                    decreases item.bounds@.len() - k,
                {
                    let ghost before = queue@;
                    let mut path = copy_path(&base);
                    path.push(
                        PathChunk::AssocItem {
                            item: item.item,
                            predicate: item.bounds[k],
                            index: k,
                        },
                    );
                    let child = Candidate { path, pred: item.bounds[k], origin };
                    queue.push(child);
                    k += 1;
                    assert(views(queue@) =~= views(before).push(child@));
                    assert(views(queue@) =~= inner + bound_children(
                        *graph,
                        c,
                        a as int,
                        k as int,
                    ));
                }
                a += 1;
                assert(views(queue@) =~= mid + assoc_children(*graph, c, a as int));
            }
            let ghost seen_before = seen@;
            seen.push(pred);
            proof {
                assert(seen@ == seen_before.push(pred));
                lemma_unseen_push(*graph, seen_before, pred, n as nat);
                assert(views(queue@) =~= start + children(*graph, c));
                assert(start.subrange(head as int, start.len() as int) =~= rest);
                assert(views(queue@).subrange(head as int, queue@.len() as int) =~= rest
                    + children(*graph, c));
                q = rest + children(*graph, c);
            }
        }
    }
    assert(q.len() == 0);
    None
}

} // verus!
