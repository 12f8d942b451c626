//! Why the search finds a shortest derivation.
use crate::traits::graph::AnnotatedClause;
use crate::traits::graph::ClauseGraph;
use crate::traits::graph::PathChunk;
use crate::traits::graph::PredicateIndex;
use crate::traits::search::assoc_children;
use crate::traits::search::bound_children;
use crate::traits::search::children;
use crate::traits::search::is_seen;
use crate::traits::search::lemma_unseen_push;
use crate::traits::search::parent_children;
use crate::traits::search::search;
use crate::traits::search::spec_path_to;
use crate::traits::search::start_queue;
use crate::traits::search::unseen;
use crate::traits::search::CandidateView;
use vstd::prelude::*;

verus! {

/// Whether the predicate `child` is one hop away from the predicate `a`.
pub open spec fn hop_child(graph: ClauseGraph, a: PredicateIndex, child: PredicateIndex) -> bool {
    let node = graph.nodes@[a as int];
    &&& a < graph.nodes@.len()
    &&& {
        ||| exists|k: int| 0 <= k < node.parents@.len() && #[trigger] node.parents@[k] == child
        ||| exists|i: int, k: int|
            0 <= i < node.assoc@.len() && 0 <= k < node.assoc@[i].bounds@.len()
                && #[trigger] node.assoc@[i].bounds@[k] == child
    }
}

/// Whether the predicate at `i + 1` of `nodes` is one hop from the
/// predicate at `i`.
pub open spec fn link(graph: ClauseGraph, nodes: Seq<PredicateIndex>, i: int) -> bool {
    hop_child(graph, nodes[i], nodes[i + 1])
}

/// Whether `nodes` are the predicates along a derivation that ends at a
/// predicate whose text is `target`: each is one hop from the one before.
/// The derivation has one hop less than it has predicates.
pub open spec fn chain_ok(graph: ClauseGraph, nodes: Seq<PredicateIndex>, target: Seq<char>)
    -> bool {
    &&& nodes.len() >= 1
    &&& forall|i: int| 0 <= i < nodes.len() ==> (#[trigger] nodes[i]) < graph.nodes@.len()
    &&& forall|i: int| 0 <= i < nodes.len() - 1 ==> #[trigger] link(graph, nodes, i)
    &&& graph.repr(nodes.last()) == target
}

/// Whether the hops `hops`, taken in order from the predicate `from`, are
/// hops of the graph.
pub open spec fn valid_path(graph: ClauseGraph, from: PredicateIndex, hops: Seq<PathChunk>) -> bool
    decreases hops.len(),
{
    hops.len() == 0 || (graph.is_hop(from, hops[0]) && from < graph.nodes@.len() && valid_path(
        graph,
        hops[0].spec_predicate(),
        hops.drop_first(),
    ))
}

/// The predicate that the hops `hops` from `from` end at.
pub open spec fn path_end(from: PredicateIndex, hops: Seq<PathChunk>) -> PredicateIndex {
    if hops.len() == 0 {
        from
    } else {
        hops.last().spec_predicate()
    }
}

/// Predicates that count as the same lead to predicates that count as the
/// same: whatever is one hop from one of them has its like one hop from
/// the other.
pub open spec fn coherent(graph: ClauseGraph) -> bool {
    forall|a: PredicateIndex, b: PredicateIndex, child: PredicateIndex|
        #![trigger same_class(graph, a, b), hop_child(graph, a, child)]
        same_class(graph, a, b) && hop_child(graph, a, child) ==> exists|other: PredicateIndex|
            #[trigger] hop_child(graph, b, other) && graph.repr(other) == graph.repr(child)
}

/// Whether two predicates of the graph count as the same.
pub open spec fn same_class(graph: ClauseGraph, a: PredicateIndex, b: PredicateIndex) -> bool {
    a < graph.nodes@.len() && b < graph.nodes@.len() && graph.repr(a) == graph.repr(b)
}

/// In a well-formed graph, what is one hop away is a predicate of the graph.
pub proof fn lemma_hop_child_valid(graph: ClauseGraph, a: PredicateIndex, child: PredicateIndex)
    requires
        graph.wf(),
        hop_child(graph, a, child),
    ensures
        child < graph.nodes@.len(),
{
    let node = graph.nodes@[a as int];
    assert(node.hops_below(graph.nodes@.len()));
}

/// What is left of a derivation after its first hop is a derivation.
pub proof fn lemma_chain_tail(graph: ClauseGraph, nodes: Seq<PredicateIndex>, target: Seq<char>)
    requires
        chain_ok(graph, nodes, target),
        nodes.len() >= 2,
    ensures
        chain_ok(graph, nodes.drop_first(), target),
        hop_child(graph, nodes[0], nodes[1]),
{
    let tail = nodes.drop_first();
    assert(link(graph, nodes, 0));
    assert forall|i: int| 0 <= i < tail.len() - 1 implies #[trigger] link(graph, tail, i) by {
        assert(link(graph, nodes, i + 1));
    }
    assert(tail.last() == nodes.last());
}

/// A hop in front of a derivation makes a derivation.
pub proof fn lemma_chain_cons(
    graph: ClauseGraph,
    first: PredicateIndex,
    nodes: Seq<PredicateIndex>,
    target: Seq<char>,
)
    requires
        chain_ok(graph, nodes, target),
        hop_child(graph, first, nodes[0]),
    ensures
        chain_ok(graph, seq![first] + nodes, target),
{
    let whole = seq![first] + nodes;
    assert forall|i: int| 0 <= i < whole.len() - 1 implies #[trigger] link(graph, whole, i) by {
        if i > 0 {
            assert(link(graph, nodes, i - 1));
        }
    }
    assert(whole.last() == nodes.last());
}

/// In a coherent graph, a derivation from a predicate has its like, of the
/// same length, from any predicate that counts as the same.
pub proof fn lemma_transfer(
    graph: ClauseGraph,
    nodes: Seq<PredicateIndex>,
    b: PredicateIndex,
    target: Seq<char>,
) -> (r: Seq<PredicateIndex>)
    requires
        graph.wf(),
        coherent(graph),
        chain_ok(graph, nodes, target),
        same_class(graph, nodes[0], b),
    ensures
        chain_ok(graph, r, target),
        r[0] == b,
        r.len() == nodes.len(),
    decreases nodes.len(),
{
    if nodes.len() == 1 {
        let r = seq![b];
        assert(r.last() == b);
        r
    } else {
        lemma_chain_tail(graph, nodes, target);
        let child = nodes[1];
        let other = choose|other: PredicateIndex|
            #[trigger] hop_child(graph, b, other) && graph.repr(other) == graph.repr(child);
        lemma_hop_child_valid(graph, b, other);
        let tail = lemma_transfer(graph, nodes.drop_first(), other, target);
        lemma_chain_cons(graph, b, tail, target);
        seq![b] + tail
    }
}

/// A hop of the graph leads one hop away.
pub proof fn lemma_is_hop_child(graph: ClauseGraph, from: PredicateIndex, hop: PathChunk)
    requires
        from < graph.nodes@.len(),
        graph.is_hop(from, hop),
    ensures
        hop_child(graph, from, hop.spec_predicate()),
{
    let node = graph.nodes@[from as int];
    match hop {
        PathChunk::Parent { predicate, index } => {
            assert(node.parents@[index as int] == predicate);
        },
        PathChunk::AssocItem { item, predicate, index } => {
            let a = choose|a: int|
                {
                    &&& 0 <= a < node.assoc@.len()
                    &&& (#[trigger] node.assoc@[a]).item == item
                    &&& index < node.assoc@[a].bounds@.len()
                    &&& node.assoc@[a].bounds@[index as int] == predicate
                };
            assert(node.assoc@[a].bounds@[index as int] == predicate);
        },
    }
}

/// The predicates along a derivation given by its hops.
pub open spec fn nodes_of(from: PredicateIndex, hops: Seq<PathChunk>) -> Seq<PredicateIndex> {
    seq![from] + Seq::new(hops.len(), |i: int| hops[i].spec_predicate())
}

/// The hops of a derivation that ends at a predicate whose text is `target`
/// pass through predicates that form such a derivation.
pub proof fn lemma_valid_path_chain(
    graph: ClauseGraph,
    from: PredicateIndex,
    hops: Seq<PathChunk>,
    target: Seq<char>,
)
    requires
        graph.wf(),
        from < graph.nodes@.len(),
        valid_path(graph, from, hops),
        graph.repr(path_end(from, hops)) == target,
    ensures
        chain_ok(graph, nodes_of(from, hops), target),
    decreases hops.len(),
{
    let nodes = nodes_of(from, hops);
    if hops.len() > 0 {
        let next = hops[0].spec_predicate();
        let rest = hops.drop_first();
        lemma_is_hop_child(graph, from, hops[0]);
        lemma_hop_child_valid(graph, from, next);
        assert(path_end(next, rest) == path_end(from, hops)) by {
            if rest.len() > 0 {
                assert(rest.last() == hops.last());
            }
        }
        lemma_valid_path_chain(graph, next, rest, target);
        lemma_chain_cons(graph, from, nodes_of(next, rest), target);
        assert(nodes =~= seq![from] + nodes_of(next, rest));
    } else {
        assert(nodes =~= seq![from]);
        assert(nodes.last() == from);
    }
}

/// Whether one of the candidates `kids` is at the predicate `child`.
pub open spec fn has_child(kids: Seq<CandidateView>, child: PredicateIndex) -> bool {
    exists|idx: int| 0 <= idx < kids.len() && (#[trigger] kids[idx]).pred == child
}

/// Whether every candidate of `kids` is one hop further than `c`.
pub open spec fn one_further(kids: Seq<CandidateView>, c: CandidateView) -> bool {
    forall|idx: int|
        0 <= idx < kids.len() ==> (#[trigger] kids[idx]).path.len() == c.path.len() + 1
}

/// The candidates through the first `k` supertraits: one for each, at that
/// supertrait, one hop further than `c`.
pub proof fn lemma_parent_children(graph: ClauseGraph, c: CandidateView, k: int)
    requires
        0 <= k <= graph.nodes@[c.pred as int].parents@.len(),
    ensures
        parent_children(graph, c, k).len() == k,
        one_further(parent_children(graph, c, k), c),
        forall|i: int|
            0 <= i < k ==> (#[trigger] parent_children(graph, c, k)[i]).pred
                == graph.nodes@[c.pred as int].parents@[i],
    decreases k,
{
    if k > 0 {
        lemma_parent_children(graph, c, k - 1);
    }
}

/// The candidates through the first `k` bounds of an associated item: one
/// for each, at that bound, one hop further than `c`.
pub proof fn lemma_bound_children(graph: ClauseGraph, c: CandidateView, a: int, k: int)
    requires
        0 <= a < graph.nodes@[c.pred as int].assoc@.len(),
        0 <= k <= graph.nodes@[c.pred as int].assoc@[a].bounds@.len(),
    ensures
        bound_children(graph, c, a, k).len() == k,
        one_further(bound_children(graph, c, a, k), c),
        forall|i: int|
            0 <= i < k ==> (#[trigger] bound_children(graph, c, a, k)[i]).pred
                == graph.nodes@[c.pred as int].assoc@[a].bounds@[i],
    decreases k,
{
    if k > 0 {
        lemma_bound_children(graph, c, a, k - 1);
    }
}

/// The candidates through the first `a` associated items: one hop further
/// than `c`, with one at every bound of those items.
pub proof fn lemma_assoc_children(graph: ClauseGraph, c: CandidateView, a: int)
    requires
        0 <= a <= graph.nodes@[c.pred as int].assoc@.len(),
    ensures
        one_further(assoc_children(graph, c, a), c),
        forall|i: int, k: int|
            0 <= i < a && 0 <= k < graph.nodes@[c.pred as int].assoc@[i].bounds@.len()
                ==> has_child(
                assoc_children(graph, c, a),
                #[trigger] graph.nodes@[c.pred as int].assoc@[i].bounds@[k],
            ),
    decreases a,
{
    if a > 0 {
        let node = graph.nodes@[c.pred as int];
        let before = assoc_children(graph, c, a - 1);
        let last = bound_children(graph, c, a - 1, node.assoc@[a - 1].bounds@.len() as int);
        let all = assoc_children(graph, c, a);
        lemma_assoc_children(graph, c, a - 1);
        lemma_bound_children(graph, c, a - 1, node.assoc@[a - 1].bounds@.len() as int);
        assert(all == before + last);
        assert forall|idx: int| 0 <= idx < all.len() implies (#[trigger] all[idx]).path.len()
            == c.path.len() + 1 by {
            if idx < before.len() {
                assert(all[idx] == before[idx]);
            } else {
                assert(all[idx] == last[idx - before.len()]);
            }
        }
        assert forall|i: int, k: int|
            0 <= i < a && 0 <= k < node.assoc@[i].bounds@.len() implies has_child(
            all,
            #[trigger] node.assoc@[i].bounds@[k],
        ) by {
            let child = node.assoc@[i].bounds@[k];
            if i < a - 1 {
                assert(has_child(before, child));
                let idx = choose|idx: int|
                    0 <= idx < before.len() && (#[trigger] before[idx]).pred == child;
                assert(all[idx] == before[idx]);
            } else {
                assert(last[k].pred == child);
                assert(all[before.len() + k] == last[k]);
            }
        }
    }
}

/// The children of a candidate are one hop further than it, and there is
/// one at every predicate that is one hop from its own.
pub proof fn lemma_children(graph: ClauseGraph, c: CandidateView)
    requires
        c.pred < graph.nodes@.len(),
    ensures
        one_further(children(graph, c), c),
        forall|child: PredicateIndex|
            hop_child(graph, c.pred, child) ==> has_child(children(graph, c), child),
{
    let node = graph.nodes@[c.pred as int];
    let first = parent_children(graph, c, node.parents@.len() as int);
    let second = assoc_children(graph, c, node.assoc@.len() as int);
    let all = children(graph, c);
    lemma_parent_children(graph, c, node.parents@.len() as int);
    lemma_assoc_children(graph, c, node.assoc@.len() as int);
    assert(all == first + second);
    assert forall|idx: int| 0 <= idx < all.len() implies (#[trigger] all[idx]).path.len()
        == c.path.len() + 1 by {
        if idx < first.len() {
            assert(all[idx] == first[idx]);
        } else {
            assert(all[idx] == second[idx - first.len()]);
        }
    }
    assert forall|child: PredicateIndex| hop_child(graph, c.pred, child) implies has_child(
        all,
        child,
    ) by {
        if exists|k: int| 0 <= k < node.parents@.len() && #[trigger] node.parents@[k] == child {
            let k = choose|k: int| 0 <= k < node.parents@.len() && #[trigger] node.parents@[k]
                == child;
            assert(first[k].pred == child);
            assert(all[k] == first[k]);
        } else {
            let (i, k) = choose|i: int, k: int|
                0 <= i < node.assoc@.len() && 0 <= k < node.assoc@[i].bounds@.len()
                    && #[trigger] node.assoc@[i].bounds@[k] == child;
            assert(has_child(second, node.assoc@[i].bounds@[k]));
            let idx = choose|idx: int|
                0 <= idx < second.len() && (#[trigger] second[idx]).pred == child;
            assert(all[first.len() + idx] == second[idx]);
        }
    }
}

/// Whether the candidates of a queue stand in the order of the length of
/// their paths, and none is more than one hop further than the first.
pub open spec fn sorted(queue: Seq<CandidateView>) -> bool {
    &&& forall|i: int, j: int|
        0 <= i <= j < queue.len() ==> (#[trigger] queue[i]).path.len() <= (
        #[trigger] queue[j]).path.len()
    &&& forall|j: int|
        0 <= j < queue.len() ==> (#[trigger] queue[j]).path.len() <= queue[0].path.len() + 1
}

/// Whether `chain` is a derivation of the target from the candidate at `j`.
pub open spec fn covers(
    graph: ClauseGraph,
    queue: Seq<CandidateView>,
    j: int,
    chain: Seq<PredicateIndex>,
    target: Seq<char>,
) -> bool {
    &&& 0 <= j < queue.len()
    &&& chain_ok(graph, chain, target)
    &&& chain[0] == queue[j].pred
}

/// Whether some candidate of the queue has a derivation of the target that
/// is shorter than `limit` and, with the candidate's own path, no longer
/// than `bound`.
pub open spec fn covered(
    graph: ClauseGraph,
    queue: Seq<CandidateView>,
    bound: int,
    limit: int,
    target: Seq<char>,
) -> bool {
    exists|j: int, chain: Seq<PredicateIndex>| #[trigger]
        covers(graph, queue, j, chain, target) && queue[j].path.len() + chain.len() - 1 <= bound
            && chain.len() - 1 < limit
}

/// Whether `chain` is a derivation of the target from the seen predicate at
/// `i`.
pub open spec fn from_seen(
    graph: ClauseGraph,
    seen: Seq<PredicateIndex>,
    i: int,
    chain: Seq<PredicateIndex>,
    target: Seq<char>,
) -> bool {
    &&& 0 <= i < seen.len()
    &&& chain_ok(graph, chain, target)
    &&& chain[0] == seen[i]
}

/// Whether every derivation of the target from a seen predicate has a
/// strictly shorter one from a candidate of the queue, which, with the
/// candidate's path, is no longer than the derivation with the path of the
/// first candidate.
pub open spec fn seen_covered(
    graph: ClauseGraph,
    queue: Seq<CandidateView>,
    seen: Seq<PredicateIndex>,
    target: Seq<char>,
) -> bool {
    forall|i: int, chain: Seq<PredicateIndex>| #[trigger]
        from_seen(graph, seen, i, chain, target) ==> covered(
            graph,
            queue,
            queue[0].path.len() + chain.len() - 1,
            chain.len() - 1,
            target,
        )
}

/// Whether every seen predicate is a predicate of the graph.
pub open spec fn seen_valid(graph: ClauseGraph, seen: Seq<PredicateIndex>) -> bool {
    forall|i: int| 0 <= i < seen.len() ==> (#[trigger] seen[i]) < graph.nodes@.len()
}

/// What holds for a bound and a limit holds for any greater ones.
pub proof fn lemma_covered_weaken(
    graph: ClauseGraph,
    queue: Seq<CandidateView>,
    bound: int,
    limit: int,
    bound2: int,
    limit2: int,
    target: Seq<char>,
)
    requires
        covered(graph, queue, bound, limit, target),
        bound <= bound2,
        limit <= limit2,
    ensures
        covered(graph, queue, bound2, limit2, target),
{
    let (j, chain) = choose|j: int, chain: Seq<PredicateIndex>| #[trigger]
        covers(graph, queue, j, chain, target) && queue[j].path.len() + chain.len() - 1 <= bound
            && chain.len() - 1 < limit;
    assert(covers(graph, queue, j, chain, target));
}

/// When the first candidate is expanded, a derivation from it goes on, one
/// hop shorter, from one of its children.
pub proof fn lemma_head_child(
    graph: ClauseGraph,
    queue: Seq<CandidateView>,
    chain: Seq<PredicateIndex>,
    target: Seq<char>,
)
    requires
        graph.wf(),
        queue.len() > 0,
        chain_ok(graph, chain, target),
        chain[0] == queue[0].pred,
        chain.len() >= 2,
    ensures
        covered(
            graph,
            queue.drop_first() + children(graph, queue[0]),
            queue[0].path.len() + chain.len() - 1,
            chain.len() - 1,
            target,
        ),
{
    let c = queue[0];
    let rest = queue.drop_first();
    let kids = children(graph, c);
    let next = rest + kids;
    lemma_chain_tail(graph, chain, target);
    lemma_children(graph, c);
    assert(has_child(kids, chain[1]));
    let idx = choose|idx: int| 0 <= idx < kids.len() && (#[trigger] kids[idx]).pred == chain[1];
    let j = rest.len() + idx;
    assert(next[j] == kids[idx]);
    assert(covers(graph, next, j, chain.drop_first(), target));
}

/// When the first candidate is expanded, what the queue covered is still
/// covered.
pub proof fn lemma_expand(
    graph: ClauseGraph,
    queue: Seq<CandidateView>,
    bound: int,
    limit: int,
    target: Seq<char>,
)
    requires
        graph.wf(),
        queue.len() > 0,
        queue[0].pred < graph.nodes@.len(),
        graph.repr(queue[0].pred) != target,
        covered(graph, queue, bound, limit, target),
    ensures
        covered(graph, queue.drop_first() + children(graph, queue[0]), bound, limit, target),
{
    let c = queue[0];
    let rest = queue.drop_first();
    let next = rest + children(graph, c);
    let (j, chain) = choose|j: int, chain: Seq<PredicateIndex>| #[trigger]
        covers(graph, queue, j, chain, target) && queue[j].path.len() + chain.len() - 1 <= bound
            && chain.len() - 1 < limit;
    if j >= 1 {
        assert(next[j - 1] == queue[j]);
        assert(covers(graph, next, j - 1, chain, target));
    } else {
        if chain.len() == 1 {
            assert(chain.last() == chain[0]);
        }
        lemma_head_child(graph, queue, chain, target);
        lemma_covered_weaken(
            graph,
            next,
            c.path.len() + chain.len() - 1,
            chain.len() - 1,
            bound,
            limit,
            target,
        );
    }
}

/// When the first candidate is dropped, because it is at no predicate of
/// the graph or at a seen one, what the queue covered is still covered.
pub proof fn lemma_drop_head(
    graph: ClauseGraph,
    queue: Seq<CandidateView>,
    seen: Seq<PredicateIndex>,
    bound: int,
    limit: int,
    target: Seq<char>,
)
    requires
        graph.wf(),
        coherent(graph),
        queue.len() > 0,
        seen_valid(graph, seen),
        seen_covered(graph, queue, seen, target),
        queue[0].pred >= graph.nodes@.len() || is_seen(graph, seen, queue[0].pred),
        covered(graph, queue, bound, limit, target),
    ensures
        covered(graph, queue.drop_first(), bound, limit, target),
    decreases limit,
{
    let c = queue[0];
    let rest = queue.drop_first();
    let (j, chain) = choose|j: int, chain: Seq<PredicateIndex>| #[trigger]
        covers(graph, queue, j, chain, target) && queue[j].path.len() + chain.len() - 1 <= bound
            && chain.len() - 1 < limit;
    if j >= 1 {
        assert(rest[j - 1] == queue[j]);
        assert(covers(graph, rest, j - 1, chain, target));
    } else {
        assert(chain[0] < graph.nodes@.len());
        let i = choose|i: int|
            0 <= i < seen.len() && graph.spec_predicate_equality(c.pred, #[trigger] seen[i]);
        assert(seen[i] < graph.nodes@.len());
        let moved = lemma_transfer(graph, chain, seen[i], target);
        assert(from_seen(graph, seen, i, moved, target));
        let shorter = chain.len() - 1;
        lemma_drop_head(graph, queue, seen, c.path.len() + shorter, shorter, target);
        lemma_covered_weaken(graph, rest, c.path.len() + shorter, shorter, bound, limit, target);
    }
}

/// When the first candidate is dropped, the derivations from seen
/// predicates are still covered.
pub proof fn lemma_drop_keeps_seen(
    graph: ClauseGraph,
    queue: Seq<CandidateView>,
    seen: Seq<PredicateIndex>,
    target: Seq<char>,
)
    requires
        graph.wf(),
        coherent(graph),
        queue.len() > 0,
        sorted(queue),
        seen_valid(graph, seen),
        seen_covered(graph, queue, seen, target),
        queue[0].pred >= graph.nodes@.len() || is_seen(graph, seen, queue[0].pred),
    ensures
        seen_covered(graph, queue.drop_first(), seen, target),
{
    let rest = queue.drop_first();
    assert forall|i: int, chain: Seq<PredicateIndex>| #[trigger]
        from_seen(graph, seen, i, chain, target) implies covered(
        graph,
        rest,
        rest[0].path.len() + chain.len() - 1,
        chain.len() - 1,
        target,
    ) by {
        let len = chain.len() - 1;
        lemma_drop_head(graph, queue, seen, queue[0].path.len() + len, len, target);
        let (j, other) = choose|j: int, other: Seq<PredicateIndex>| #[trigger]
            covers(graph, rest, j, other, target) && rest[j].path.len() + other.len() - 1
                <= queue[0].path.len() + len && other.len() - 1 < len;
        assert(rest[0] == queue[1]);
        lemma_covered_weaken(
            graph,
            rest,
            queue[0].path.len() + len,
            len,
            rest[0].path.len() + len,
            len,
            target,
        );
    }
}

/// When the first candidate is expanded, the queue stays in order.
pub proof fn lemma_expand_sorted(graph: ClauseGraph, queue: Seq<CandidateView>)
    requires
        queue.len() > 0,
        queue[0].pred < graph.nodes@.len(),
        sorted(queue),
    ensures
        sorted(queue.drop_first() + children(graph, queue[0])),
        forall|j: int|
            0 <= j < (queue.drop_first() + children(graph, queue[0])).len() ==> queue[0].path.len()
                <= (#[trigger] (queue.drop_first() + children(graph, queue[0]))[j]).path.len()
                <= queue[0].path.len() + 1,
{
    let c = queue[0];
    let rest = queue.drop_first();
    let kids = children(graph, c);
    let next = rest + kids;
    lemma_children(graph, c);
    assert forall|j: int| 0 <= j < next.len() implies c.path.len() <= (
    #[trigger] next[j]).path.len() <= c.path.len() + 1 by {
        if j < rest.len() {
            assert(next[j] == queue[j + 1]);
        } else {
            assert(next[j] == kids[j - rest.len()]);
        }
    }
    assert forall|i: int, j: int| 0 <= i <= j < next.len() implies (
    #[trigger] next[i]).path.len() <= (#[trigger] next[j]).path.len() by {
        if j < rest.len() {
            assert(next[i] == queue[i + 1]);
            assert(next[j] == queue[j + 1]);
        } else {
            assert(next[j] == kids[j - rest.len()]);
        }
    }
}

/// When the first candidate is expanded and marked seen, the derivations
/// from seen predicates are covered.
pub proof fn lemma_expand_keeps_seen(
    graph: ClauseGraph,
    queue: Seq<CandidateView>,
    seen: Seq<PredicateIndex>,
    target: Seq<char>,
)
    requires
        graph.wf(),
        queue.len() > 0,
        queue[0].pred < graph.nodes@.len(),
        graph.repr(queue[0].pred) != target,
        sorted(queue),
        seen_covered(graph, queue, seen, target),
    ensures
        seen_covered(
            graph,
            queue.drop_first() + children(graph, queue[0]),
            seen.push(queue[0].pred),
            target,
        ),
{
    let c = queue[0];
    let next = queue.drop_first() + children(graph, c);
    let marked = seen.push(c.pred);
    lemma_expand_sorted(graph, queue);
    assert forall|i: int, chain: Seq<PredicateIndex>| #[trigger]
        from_seen(graph, marked, i, chain, target) implies covered(
        graph,
        next,
        next[0].path.len() + chain.len() - 1,
        chain.len() - 1,
        target,
    ) by {
        let len = chain.len() - 1;
        if i < seen.len() {
            assert(marked[i] == seen[i]);
            assert(from_seen(graph, seen, i, chain, target));
            lemma_expand(graph, queue, c.path.len() + len, len, target);
        } else {
            if chain.len() == 1 {
                assert(chain.last() == chain[0]);
            }
            lemma_head_child(graph, queue, chain, target);
        }
        let (j, other) = choose|j: int, other: Seq<PredicateIndex>| #[trigger]
            covers(graph, next, j, other, target) && next[j].path.len() + other.len() - 1
                <= c.path.len() + len && other.len() - 1 < len;
        assert(c.path.len() <= next[0].path.len());
        lemma_covered_weaken(
            graph,
            next,
            c.path.len() + len,
            len,
            next[0].path.len() + len,
            len,
            target,
        );
    }
}

/// From a queue in order that covers a derivation of the target no longer
/// than `bound`, the search finds a derivation no longer than `bound`.
pub proof fn lemma_search_shortest(
    graph: ClauseGraph,
    queue: Seq<CandidateView>,
    seen: Seq<PredicateIndex>,
    target: Seq<char>,
    bound: int,
)
    requires
        graph.wf(),
        coherent(graph),
        sorted(queue),
        seen_valid(graph, seen),
        seen_covered(graph, queue, seen, target),
        covered(graph, queue, bound, bound + 1, target),
    ensures
        search(graph, queue, seen, target).is_some(),
        search(graph, queue, seen, target).unwrap().0.len() <= bound,
    decreases unseen(graph, seen, graph.nodes@.len()), queue.len(),
{
    let (j, chain) = choose|j: int, chain: Seq<PredicateIndex>| #[trigger]
        covers(graph, queue, j, chain, target) && queue[j].path.len() + chain.len() - 1 <= bound
            && chain.len() - 1 < bound + 1;
    let c = queue[0];
    let rest = queue.drop_first();
    if c.pred >= graph.nodes@.len() || is_seen(graph, seen, c.pred) {
        lemma_drop_head(graph, queue, seen, bound, bound + 1, target);
        lemma_drop_keeps_seen(graph, queue, seen, target);
        assert(sorted(rest)) by {
            assert forall|a: int, b: int| 0 <= a <= b < rest.len() implies (
            #[trigger] rest[a]).path.len() <= (#[trigger] rest[b]).path.len() by {
                assert(rest[a] == queue[a + 1]);
                assert(rest[b] == queue[b + 1]);
            }
            assert forall|b: int| 0 <= b < rest.len() implies (#[trigger] rest[b]).path.len()
                <= rest[0].path.len() + 1 by {
                assert(rest[b] == queue[b + 1]);
                assert(rest[0] == queue[1]);
            }
        }
        lemma_search_shortest(graph, rest, seen, target, bound);
    } else if graph.repr(c.pred) == target {
        assert(queue[0].path.len() <= queue[j].path.len());
    } else {
        assert(graph.nodes@.len() == graph.nodes.len());
        lemma_unseen_push(graph, seen, c.pred, graph.nodes@.len());
        lemma_expand(graph, queue, bound, bound + 1, target);
        lemma_expand_sorted(graph, queue);
        lemma_expand_keeps_seen(graph, queue, seen, target);
        let marked = seen.push(c.pred);
        assert forall|i: int| 0 <= i < marked.len() implies (#[trigger] marked[i])
            < graph.nodes@.len() by {
            if i < seen.len() {
                assert(marked[i] == seen[i]);
            }
        }
        lemma_search_shortest(graph, rest + children(graph, c), marked, target, bound);
    }
}

/// The candidates that the first `k` clauses give rise to have empty paths,
/// and there is one at the trait predicate of each of those clauses.
pub proof fn lemma_start_queue(starting_points: Seq<AnnotatedClause>, k: int)
    requires
        0 <= k <= starting_points.len(),
    ensures
        forall|j: int|
            0 <= j < start_queue(starting_points, k).len() ==> (#[trigger] start_queue(
                starting_points,
                k,
            )[j]).path.len() == 0,
        forall|i: int|
            0 <= i < k && (#[trigger] starting_points[i]).trait_predicate.is_some() ==> has_child(
                start_queue(starting_points, k),
                starting_points[i].trait_predicate.unwrap(),
            ),
    decreases k,
{
    if k > 0 {
        lemma_start_queue(starting_points, k - 1);
        let before = start_queue(starting_points, k - 1);
        let now = start_queue(starting_points, k);
        assert forall|i: int|
            0 <= i < k && (#[trigger] starting_points[i]).trait_predicate.is_some() implies has_child(
            now,
            starting_points[i].trait_predicate.unwrap(),
        ) by {
            let p = starting_points[i].trait_predicate.unwrap();
            if i < k - 1 {
                let idx = choose|idx: int| 0 <= idx < before.len() && (#[trigger] before[idx]).pred
                    == p;
                assert(now[idx] == before[idx]);
            } else {
                assert(now[before.len() as int].pred == p);
            }
        }
    }
}

/// The search finds a shortest derivation. In a well-formed and coherent
/// graph, whenever some derivation leads from a trait clause in scope to a
/// predicate whose text is `target`, the search returns a derivation, and
/// one that has no more hops than that one.
pub proof fn lemma_path_to_shortest(
    graph: ClauseGraph,
    starting_points: Seq<AnnotatedClause>,
    target: Seq<char>,
    i: int,
    hops: Seq<PathChunk>,
)
    requires
        graph.wf(),
        coherent(graph),
        0 <= i < starting_points.len(),
        starting_points[i].trait_predicate.is_some(),
        starting_points[i].trait_predicate.unwrap() < graph.nodes@.len(),
        valid_path(graph, starting_points[i].trait_predicate.unwrap(), hops),
        graph.repr(path_end(starting_points[i].trait_predicate.unwrap(), hops)) == target,
    ensures
        spec_path_to(graph, starting_points, target).is_some(),
        spec_path_to(graph, starting_points, target).unwrap().0.len() <= hops.len(),
{
    let start = starting_points[i].trait_predicate.unwrap();
    let queue = start_queue(starting_points, starting_points.len() as int);
    let seen = Seq::<PredicateIndex>::empty();
    lemma_start_queue(starting_points, starting_points.len() as int);
    lemma_valid_path_chain(graph, start, hops, target);
    let chain = nodes_of(start, hops);
    assert(has_child(queue, start));
    let j = choose|j: int| 0 <= j < queue.len() && (#[trigger] queue[j]).pred == start;
    assert(covers(graph, queue, j, chain, target));
    assert(chain.len() == hops.len() + 1);
    assert(covered(graph, queue, hops.len() as int, hops.len() as int + 1, target));
    lemma_search_shortest(graph, queue, seen, target, hops.len() as int);
}

/// Whether the path of a candidate is a derivation from the trait clause
/// that the candidate started from, one of `starting_points`, to the
/// predicate that the candidate is at.
pub open spec fn anchored(
    graph: ClauseGraph,
    starting_points: Seq<AnnotatedClause>,
    c: CandidateView,
) -> bool {
    &&& starting_points.contains(c.origin)
    &&& c.origin.trait_predicate.is_some()
    &&& valid_path(graph, c.origin.trait_predicate.unwrap(), c.path)
    &&& path_end(c.origin.trait_predicate.unwrap(), c.path) == c.pred
}

/// Whether every candidate of the queue is anchored.
pub open spec fn all_anchored(
    graph: ClauseGraph,
    starting_points: Seq<AnnotatedClause>,
    queue: Seq<CandidateView>,
) -> bool {
    forall|j: int| 0 <= j < queue.len() ==> anchored(graph, starting_points, #[trigger] queue[j])
}

/// A derivation with one more hop of the graph at its end is a derivation.
pub proof fn lemma_valid_path_push(
    graph: ClauseGraph,
    from: PredicateIndex,
    hops: Seq<PathChunk>,
    hop: PathChunk,
)
    requires
        valid_path(graph, from, hops),
        path_end(from, hops) < graph.nodes@.len(),
        graph.is_hop(path_end(from, hops), hop),
    ensures
        valid_path(graph, from, hops.push(hop)),
        path_end(from, hops.push(hop)) == hop.spec_predicate(),
    decreases hops.len(),
{
    let longer = hops.push(hop);
    if hops.len() == 0 {
        assert(longer.drop_first() =~= Seq::<PathChunk>::empty());
        assert(valid_path(graph, hop.spec_predicate(), longer.drop_first()));
    } else {
        let next = hops[0].spec_predicate();
        let rest = hops.drop_first();
        assert(path_end(next, rest) == path_end(from, hops)) by {
            if rest.len() > 0 {
                assert(rest.last() == hops.last());
            }
        }
        lemma_valid_path_push(graph, next, rest, hop);
        assert(longer.drop_first() =~= rest.push(hop));
        assert(longer[0] == hops[0]);
    }
}

/// The children of an anchored candidate at a predicate of the graph are
/// anchored.
pub proof fn lemma_children_anchored(
    graph: ClauseGraph,
    starting_points: Seq<AnnotatedClause>,
    c: CandidateView,
)
    requires
        c.pred < graph.nodes@.len(),
        anchored(graph, starting_points, c),
    ensures
        all_anchored(graph, starting_points, children(graph, c)),
{
    let node = graph.nodes@[c.pred as int];
    let start = c.origin.trait_predicate.unwrap();
    let first = parent_children(graph, c, node.parents@.len() as int);
    let second = assoc_children(graph, c, node.assoc@.len() as int);
    let all = children(graph, c);
    lemma_parents_anchored(graph, starting_points, c, node.parents@.len() as int);
    lemma_assoc_anchored(graph, starting_points, c, node.assoc@.len() as int);
    assert forall|j: int| 0 <= j < all.len() implies anchored(
        graph,
        starting_points,
        #[trigger] all[j],
    ) by {
        if j < first.len() {
            assert(all[j] == first[j]);
        } else {
            assert(all[j] == second[j - first.len()]);
        }
    }
}

/// The candidates through the first `k` supertraits of an anchored
/// candidate are anchored.
pub proof fn lemma_parents_anchored(
    graph: ClauseGraph,
    starting_points: Seq<AnnotatedClause>,
    c: CandidateView,
    k: int,
)
    requires
        c.pred < graph.nodes@.len(),
        anchored(graph, starting_points, c),
        0 <= k <= graph.nodes@[c.pred as int].parents@.len(),
    ensures
        all_anchored(graph, starting_points, parent_children(graph, c, k)),
    decreases k,
{
    if k > 0 {
        lemma_parents_anchored(graph, starting_points, c, k - 1);
        let node = graph.nodes@[c.pred as int];
        let before = parent_children(graph, c, k - 1);
        let now = parent_children(graph, c, k);
        let hop = PathChunk::Parent { predicate: node.parents@[k - 1], index: (k - 1) as usize };
        assert(node.parents@.len() == node.parents.len());
        assert(graph.is_hop(c.pred, hop));
        lemma_valid_path_push(graph, c.origin.trait_predicate.unwrap(), c.path, hop);
        assert forall|j: int| 0 <= j < now.len() implies anchored(
            graph,
            starting_points,
            #[trigger] now[j],
        ) by {
            if j < before.len() {
                assert(now[j] == before[j]);
            }
        }
    }
}

/// The candidates through the first `k` bounds of an associated item of an
/// anchored candidate are anchored.
pub proof fn lemma_bounds_anchored(
    graph: ClauseGraph,
    starting_points: Seq<AnnotatedClause>,
    c: CandidateView,
    a: int,
    k: int,
)
    requires
        c.pred < graph.nodes@.len(),
        anchored(graph, starting_points, c),
        0 <= a < graph.nodes@[c.pred as int].assoc@.len(),
        0 <= k <= graph.nodes@[c.pred as int].assoc@[a].bounds@.len(),
    ensures
        all_anchored(graph, starting_points, bound_children(graph, c, a, k)),
    decreases k,
{
    if k > 0 {
        lemma_bounds_anchored(graph, starting_points, c, a, k - 1);
        let node = graph.nodes@[c.pred as int];
        let item = node.assoc@[a];
        let before = bound_children(graph, c, a, k - 1);
        let now = bound_children(graph, c, a, k);
        let hop = PathChunk::AssocItem {
            item: item.item,
            predicate: item.bounds@[k - 1],
            index: (k - 1) as usize,
        };
        assert(item.bounds@.len() == item.bounds.len());
        assert(node.assoc@[a].item == item.item);
        assert(graph.is_hop(c.pred, hop));
        lemma_valid_path_push(graph, c.origin.trait_predicate.unwrap(), c.path, hop);
        assert forall|j: int| 0 <= j < now.len() implies anchored(
            graph,
            starting_points,
            #[trigger] now[j],
        ) by {
            if j < before.len() {
                assert(now[j] == before[j]);
            }
        }
    }
}

/// The candidates through the first `a` associated items of an anchored
/// candidate are anchored.
pub proof fn lemma_assoc_anchored(
    graph: ClauseGraph,
    starting_points: Seq<AnnotatedClause>,
    c: CandidateView,
    a: int,
)
    requires
        c.pred < graph.nodes@.len(),
        anchored(graph, starting_points, c),
        0 <= a <= graph.nodes@[c.pred as int].assoc@.len(),
    ensures
        all_anchored(graph, starting_points, assoc_children(graph, c, a)),
    decreases a,
{
    if a > 0 {
        let node = graph.nodes@[c.pred as int];
        lemma_assoc_anchored(graph, starting_points, c, a - 1);
        lemma_bounds_anchored(
            graph,
            starting_points,
            c,
            a - 1,
            node.assoc@[a - 1].bounds@.len() as int,
        );
        let before = assoc_children(graph, c, a - 1);
        let last = bound_children(graph, c, a - 1, node.assoc@[a - 1].bounds@.len() as int);
        let now = assoc_children(graph, c, a);
        assert forall|j: int| 0 <= j < now.len() implies anchored(
            graph,
            starting_points,
            #[trigger] now[j],
        ) by {
            if j < before.len() {
                assert(now[j] == before[j]);
            } else {
                assert(now[j] == last[j - before.len()]);
            }
        }
    }
}

/// What the search returns from a queue of anchored candidates is a
/// derivation of the target from the clause that it names.
pub proof fn lemma_search_sound(
    graph: ClauseGraph,
    starting_points: Seq<AnnotatedClause>,
    queue: Seq<CandidateView>,
    seen: Seq<PredicateIndex>,
    target: Seq<char>,
)
    requires
        all_anchored(graph, starting_points, queue),
    ensures
        search(graph, queue, seen, target) matches Some((path, origin)) ==> {
            &&& starting_points.contains(origin)
            &&& origin.trait_predicate.is_some()
            &&& valid_path(graph, origin.trait_predicate.unwrap(), path)
            &&& path_end(origin.trait_predicate.unwrap(), path) < graph.nodes@.len()
            &&& graph.repr(path_end(origin.trait_predicate.unwrap(), path)) == target
        },
    decreases unseen(graph, seen, graph.nodes@.len()), queue.len(),
{
    if queue.len() > 0 {
        let c = queue[0];
        let rest = queue.drop_first();
        assert(anchored(graph, starting_points, c));
        assert forall|j: int| 0 <= j < rest.len() implies anchored(
            graph,
            starting_points,
            #[trigger] rest[j],
        ) by {
            assert(rest[j] == queue[j + 1]);
        }
        if c.pred >= graph.nodes@.len() || is_seen(graph, seen, c.pred) {
            lemma_search_sound(graph, starting_points, rest, seen, target);
        } else if graph.repr(c.pred) == target {
        } else {
            assert(graph.nodes@.len() == graph.nodes.len());
            lemma_unseen_push(graph, seen, c.pred, graph.nodes@.len());
            lemma_children_anchored(graph, starting_points, c);
            let kids = children(graph, c);
            let next = rest + kids;
            assert forall|j: int| 0 <= j < next.len() implies anchored(
                graph,
                starting_points,
                #[trigger] next[j],
            ) by {
                if j < rest.len() {
                    assert(next[j] == rest[j]);
                } else {
                    assert(next[j] == kids[j - rest.len()]);
                }
            }
            lemma_search_sound(graph, starting_points, next, seen.push(c.pred), target);
        }
    }
}

/// The candidates that the clauses in scope give rise to are anchored.
pub proof fn lemma_start_anchored(
    graph: ClauseGraph,
    starting_points: Seq<AnnotatedClause>,
    k: int,
)
    requires
        0 <= k <= starting_points.len(),
    ensures
        all_anchored(graph, starting_points, start_queue(starting_points, k)),
    decreases k,
{
    if k > 0 {
        lemma_start_anchored(graph, starting_points, k - 1);
        let before = start_queue(starting_points, k - 1);
        let now = start_queue(starting_points, k);
        assert(starting_points.contains(starting_points[k - 1]));
        assert forall|j: int| 0 <= j < now.len() implies anchored(
            graph,
            starting_points,
            #[trigger] now[j],
        ) by {
            if j < before.len() {
                assert(now[j] == before[j]);
            }
        }
    }
}

/// What the search returns is a derivation: its hops are hops of the graph,
/// taken from the trait predicate of the clause in scope that it names, and
/// they end at a predicate whose text is `target`.
pub proof fn lemma_path_to_sound(
    graph: ClauseGraph,
    starting_points: Seq<AnnotatedClause>,
    target: Seq<char>,
)
    ensures
        spec_path_to(graph, starting_points, target) matches Some((path, origin)) ==> {
            &&& starting_points.contains(origin)
            &&& origin.trait_predicate.is_some()
            &&& valid_path(graph, origin.trait_predicate.unwrap(), path)
            &&& path_end(origin.trait_predicate.unwrap(), path) < graph.nodes@.len()
            &&& graph.repr(path_end(origin.trait_predicate.unwrap(), path)) == target
        },
{
    lemma_start_anchored(graph, starting_points, starting_points.len() as int);
    lemma_search_sound(
        graph,
        starting_points,
        start_queue(starting_points, starting_points.len() as int),
        Seq::empty(),
        target,
    );
}

/// Whether the hops `hops` are a derivation of a predicate whose text is
/// `target` from the trait predicate of the clause at `i`.
pub open spec fn derives(
    graph: ClauseGraph,
    starting_points: Seq<AnnotatedClause>,
    target: Seq<char>,
    i: int,
    hops: Seq<PathChunk>,
) -> bool {
    &&& 0 <= i < starting_points.len()
    &&& starting_points[i].trait_predicate.is_some()
    &&& starting_points[i].trait_predicate.unwrap() < graph.nodes@.len()
    &&& valid_path(graph, starting_points[i].trait_predicate.unwrap(), hops)
    &&& graph.repr(path_end(starting_points[i].trait_predicate.unwrap(), hops)) == target
}

/// Whether the target can be derived from some trait clause in scope.
pub open spec fn derivable(
    graph: ClauseGraph,
    starting_points: Seq<AnnotatedClause>,
    target: Seq<char>,
) -> bool {
    exists|i: int, hops: Seq<PathChunk>| #[trigger]
        derives(graph, starting_points, target, i, hops)
}

/// What the search returns is a derivation of the target, in any graph. So
/// the search finds nothing when nothing can be derived.
pub proof fn lemma_found_is_derivable(
    graph: ClauseGraph,
    starting_points: Seq<AnnotatedClause>,
    target: Seq<char>,
)
    requires
        spec_path_to(graph, starting_points, target).is_some(),
    ensures
        derivable(graph, starting_points, target),
{
    lemma_path_to_sound(graph, starting_points, target);
    let (path, origin) = spec_path_to(graph, starting_points, target).unwrap();
    let i = choose|i: int| 0 <= i < starting_points.len() && starting_points[i] == origin;
    let start = origin.trait_predicate.unwrap();
    if path.len() == 0 {
        assert(path_end(start, path) == start);
    }
    assert(derives(graph, starting_points, target, i, path));
}

/// In a well-formed and coherent graph, the search finds nothing exactly
/// when nothing can be derived. Without coherence only one half holds: a
/// predicate that is pruned for its text may have been the only way to the
/// target.
pub proof fn lemma_none_iff_underivable(
    graph: ClauseGraph,
    starting_points: Seq<AnnotatedClause>,
    target: Seq<char>,
)
    requires
        graph.wf(),
        coherent(graph),
    ensures
        spec_path_to(graph, starting_points, target).is_none() <==> !derivable(
            graph,
            starting_points,
            target,
        ),
{
    if spec_path_to(graph, starting_points, target).is_some() {
        lemma_found_is_derivable(graph, starting_points, target);
    }
    if derivable(graph, starting_points, target) {
        let (i, hops) = choose|i: int, hops: Seq<PathChunk>| #[trigger]
            derives(graph, starting_points, target, i, hops);
        lemma_path_to_shortest(graph, starting_points, target, i, hops);
    }
}

/// Whether something one hop from `b` counts as the same as `child`.
pub open spec fn has_like(graph: ClauseGraph, b: PredicateIndex, child: PredicateIndex) -> bool {
    exists|other: PredicateIndex| #[trigger]
        hop_child(graph, b, other) && graph.repr(other) == graph.repr(child)
}

/// Whether everything one hop from `a` has its like one hop from `b`.
pub open spec fn hops_alike(graph: ClauseGraph, a: PredicateIndex, b: PredicateIndex) -> bool {
    forall|child: PredicateIndex| #[trigger]
        hop_child(graph, a, child) ==> has_like(graph, b, child)
}

/// Decides `has_like`.
pub fn has_like_child(graph: &ClauseGraph, b: PredicateIndex, child: PredicateIndex) -> (r: bool)
    requires
        graph.wf(),
        b < graph.nodes@.len(),
        child < graph.nodes@.len(),
    ensures
        r == has_like(*graph, b, child),
{
    let node = &graph.nodes[b];
    assert(node.hops_below(graph.nodes@.len()));
    let mut k: usize = 0;
    while k < node.parents.len()
        invariant
            k <= node.parents@.len(),
            b < graph.nodes@.len(),
            child < graph.nodes@.len(),
            *node == graph.nodes@[b as int],
            node.hops_below(graph.nodes@.len()),
            forall|k2: int|
                0 <= k2 < k ==> graph.repr(#[trigger] node.parents@[k2]) != graph.repr(child),
        decreases node.parents@.len() - k,
    {
        if graph.predicate_equality(node.parents[k], child) {
            assert(hop_child(*graph, b, node.parents@[k as int]));
            return true;
        }
        k += 1;
    }
    let mut i: usize = 0;
    while i < node.assoc.len()
        invariant
            i <= node.assoc@.len(),
            b < graph.nodes@.len(),
            child < graph.nodes@.len(),
            *node == graph.nodes@[b as int],
            node.hops_below(graph.nodes@.len()),
            forall|k2: int|
                0 <= k2 < node.parents@.len() ==> graph.repr(#[trigger] node.parents@[k2])
                    != graph.repr(child),
            forall|i2: int, k2: int|
                0 <= i2 < i && 0 <= k2 < node.assoc@[i2].bounds@.len() ==> graph.repr(
                    #[trigger] node.assoc@[i2].bounds@[k2],
                ) != graph.repr(child),
        decreases node.assoc@.len() - i,
    {
        let bounds = &node.assoc[i].bounds;
        let mut k: usize = 0;
        while k < bounds.len()
            invariant
                k <= bounds@.len(),
                i < node.assoc@.len(),
                b < graph.nodes@.len(),
                child < graph.nodes@.len(),
                *node == graph.nodes@[b as int],
                *bounds == node.assoc@[i as int].bounds,
                node.hops_below(graph.nodes@.len()),
                forall|k2: int|
                    0 <= k2 < k ==> graph.repr(#[trigger] bounds@[k2]) != graph.repr(child),
            decreases bounds@.len() - k,
        {
            assert(node.assoc@[i as int].bounds@[k as int] < graph.nodes@.len());
            if graph.predicate_equality(bounds[k], child) {
                assert(hop_child(*graph, b, node.assoc@[i as int].bounds@[k as int]));
                return true;
            }
            k += 1;
        }
        i += 1;
    }
    assert forall|other: PredicateIndex| #[trigger]
        hop_child(*graph, b, other) implies graph.repr(other) != graph.repr(child) by {
        if exists|k: int| 0 <= k < node.parents@.len() && #[trigger] node.parents@[k] == other {
            let k = choose|k: int| 0 <= k < node.parents@.len() && #[trigger] node.parents@[k]
                == other;
        } else {
            let (i, k) = choose|i: int, k: int|
                0 <= i < node.assoc@.len() && 0 <= k < node.assoc@[i].bounds@.len()
                    && #[trigger] node.assoc@[i].bounds@[k] == other;
        }
    }
    false
}

/// Decides `hops_alike`.
pub fn has_like_children(graph: &ClauseGraph, a: PredicateIndex, b: PredicateIndex) -> (r: bool)
    requires
        graph.wf(),
        a < graph.nodes@.len(),
        b < graph.nodes@.len(),
    ensures
        r == hops_alike(*graph, a, b),
{
    let node = &graph.nodes[a];
    assert(node.hops_below(graph.nodes@.len()));
    let mut k: usize = 0;
    while k < node.parents.len()
        invariant
            k <= node.parents@.len(),
            graph.wf(),
            a < graph.nodes@.len(),
            b < graph.nodes@.len(),
            *node == graph.nodes@[a as int],
            node.hops_below(graph.nodes@.len()),
            forall|k2: int| 0 <= k2 < k ==> has_like(*graph, b, #[trigger] node.parents@[k2]),
        decreases node.parents@.len() - k,
    {
        if !has_like_child(graph, b, node.parents[k]) {
            assert(hop_child(*graph, a, node.parents@[k as int]));
            return false;
        }
        k += 1;
    }
    let mut i: usize = 0;
    while i < node.assoc.len()
        invariant
            i <= node.assoc@.len(),
            graph.wf(),
            a < graph.nodes@.len(),
            b < graph.nodes@.len(),
            *node == graph.nodes@[a as int],
            node.hops_below(graph.nodes@.len()),
            forall|k2: int|
                0 <= k2 < node.parents@.len() ==> has_like(*graph, b, #[trigger] node.parents@[k2]),
            forall|i2: int, k2: int|
                0 <= i2 < i && 0 <= k2 < node.assoc@[i2].bounds@.len() ==> has_like(
                    *graph,
                    b,
                    #[trigger] node.assoc@[i2].bounds@[k2],
                ),
        decreases node.assoc@.len() - i,
    {
        let bounds = &node.assoc[i].bounds;
        let mut k: usize = 0;
        while k < bounds.len()
            invariant
                k <= bounds@.len(),
                i < node.assoc@.len(),
                graph.wf(),
                a < graph.nodes@.len(),
                b < graph.nodes@.len(),
                *node == graph.nodes@[a as int],
                *bounds == node.assoc@[i as int].bounds,
                node.hops_below(graph.nodes@.len()),
                forall|k2: int| 0 <= k2 < k ==> has_like(*graph, b, #[trigger] bounds@[k2]),
            decreases bounds@.len() - k,
        {
            assert(node.assoc@[i as int].bounds@[k as int] < graph.nodes@.len());
            if !has_like_child(graph, b, bounds[k]) {
                assert(hop_child(*graph, a, node.assoc@[i as int].bounds@[k as int]));
                return false;
            }
            k += 1;
        }
        i += 1;
    }
    assert forall|child: PredicateIndex| #[trigger] hop_child(*graph, a, child) implies has_like(
        *graph,
        b,
        child,
    ) by {
        if exists|k: int| 0 <= k < node.parents@.len() && #[trigger] node.parents@[k] == child {
            let k = choose|k: int| 0 <= k < node.parents@.len() && #[trigger] node.parents@[k]
                == child;
        } else {
            let (i, k) = choose|i: int, k: int|
                0 <= i < node.assoc@.len() && 0 <= k < node.assoc@[i].bounds@.len()
                    && #[trigger] node.assoc@[i].bounds@[k] == child;
        }
    }
    true
}

/// Decides whether a well-formed graph is coherent: whether any two
/// predicates that count as the same lead, hop for hop, to predicates that
/// count as the same.
pub fn is_coherent(graph: &ClauseGraph) -> (r: bool)
    requires
        graph.wf(),
    ensures
        r == coherent(*graph),
{
    let n = graph.nodes.len();
    let mut a: usize = 0;
    while a < n
        invariant
            a <= n,
            n == graph.nodes@.len(),
            graph.wf(),
            forall|a2: PredicateIndex, b2: PredicateIndex|
                a2 < a && #[trigger] same_class(*graph, a2, b2) ==> hops_alike(*graph, a2, b2),
        decreases n - a,
    {
        let mut b: usize = 0;
        while b < n
            invariant
                b <= n,
                a < n,
                n == graph.nodes@.len(),
                graph.wf(),
                forall|b2: PredicateIndex|
                    b2 < b && #[trigger] same_class(*graph, a, b2) ==> hops_alike(*graph, a, b2),
            decreases n - b,
        {
            if graph.predicate_equality(a, b) {
                if !has_like_children(graph, a, b) {
                    proof {
                        assert(same_class(*graph, a, b));
                        let child = choose|child: PredicateIndex| #[trigger]
                            hop_child(*graph, a, child) && !has_like(*graph, b, child);
                        assert(hop_child(*graph, a, child));
                        if coherent(*graph) {
                            let other = choose|other: PredicateIndex| #[trigger]
                                hop_child(*graph, b, other) && graph.repr(other) == graph.repr(
                                    child,
                                );
                            assert(has_like(*graph, b, child));
                        }
                    }
                    return false;
                }
            }
            b += 1;
        }
        a += 1;
    }
    assert forall|x: PredicateIndex, y: PredicateIndex, child: PredicateIndex|
        #![trigger same_class(*graph, x, y), hop_child(*graph, x, child)]
        same_class(*graph, x, y) && hop_child(*graph, x, child) implies exists|
        other: PredicateIndex,
    | #[trigger]
        hop_child(*graph, y, other) && graph.repr(other) == graph.repr(child) by {
        assert(hops_alike(*graph, x, y));
        assert(has_like(*graph, y, child));
    }
    true
}

} // verus!
