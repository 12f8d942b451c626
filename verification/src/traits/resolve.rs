//! From a selected obligation to the tree that witnesses it.
use crate::ident::spec_texts;
use crate::traits::graph::AnnotatedClause;
use crate::traits::graph::ClauseGraph;
use crate::traits::graph::Path;
use crate::traits::graph::PathChunk;
use crate::traits::search::path_to;
use crate::traits::search::spec_path_to;
use vstd::prelude::*;
use vstd::string::StringExecFns;

verus! {

/// One hop of the derivation of a witness from a clause in scope.
pub type ImplExprPathChunk = PathChunk;

/// A trait reference to be witnessed.
#[derive(Clone, Debug)]
pub struct Goal {
    /// Handle of the trait reference.
    pub trait_ref: usize,
    /// The reference as a predicate, normalised, in the textual form by
    /// which predicates are compared.
    pub repr: String,
    /// The reference as it is shown in diagnostics.
    pub debug: String,
}

/// How selection classified an obligation, with the obligations that the
/// chosen source brings along, each classified in turn.
#[derive(Debug)]
pub enum Selection {
    /// An `impl` item was found.
    UserDefined { impl_def_id: usize, generics: usize, nested: Vec<Obligation> },
    /// A bound in scope satisfies the obligation.
    Param { nested: Vec<Obligation> },
    /// The compiler supplies the implementation; `is_object` tells the
    /// coercion of a trait object from the rest.
    Builtin { is_object: bool },
    /// Selection failed; `error` is the failure as shown in diagnostics.
    Failed { error: String },
}

/// A requirement that comes with an implementation or a bound.
#[derive(Debug)]
pub enum Obligation {
    /// A trait bound, with the outcome of its selection.
    Trait { goal: Goal, selection: Selection },
    /// Any other requirement; those need no witness.
    Other,
}

/// The root of a witness.
#[derive(Clone, Debug, PartialEq, Eq)]
pub enum ImplExprAtom {
    /// A concrete `impl Trait for Type {}` item.
    Concrete { def_id: usize, generics: usize },
    /// A clause of the context, like `where T: Trait`: the handle of the
    /// clause, the hops from it, and the trait reference that they lead to.
    LocalBound { predicate: usize, trait_ref: usize, path: Path },
    /// The clause `Self: Trait` that holds inside an `impl Trait for Type {}`
    /// item: the hops from it, and the trait reference that they lead to.
    SelfImpl { trait_ref: usize, path: Path },
    /// The implementation that a trait object carries.
    Dyn,
    /// An implementation that the compiler computes, like that of `Sync`.
    Builtin { trait_ref: usize },
    /// No witness was found.
    Error(String),
}

/// A witness of a trait reference: its root and, for each trait bound that
/// the root asks for, the witness of that bound, in declared order.
#[derive(Debug, PartialEq, Eq)]
pub struct ImplExpr {
    /// Handle of the trait reference witnessed.
    pub trait_ref: usize,
    /// The root of the tree.
    pub atom: ImplExprAtom,
    /// The witnesses that the root needs.
    pub args: Vec<ImplExpr>,
}

/// An atom as a mathematical value.
pub enum ImplExprAtomView {
    Concrete { def_id: usize, generics: usize },
    LocalBound { predicate: usize, trait_ref: usize, path: Seq<PathChunk> },
    SelfImpl { trait_ref: usize, path: Seq<PathChunk> },
    Dyn,
    Builtin { trait_ref: usize },
    Error(Seq<char>),
}

/// A witness as a mathematical value.
pub struct ImplExprView {
    pub trait_ref: usize,
    pub atom: ImplExprAtomView,
    pub args: Seq<ImplExprView>,
}

impl View for ImplExprAtom {
    type V = ImplExprAtomView;

    open spec fn view(&self) -> ImplExprAtomView {
        match *self {
            ImplExprAtom::Concrete { def_id, generics } => ImplExprAtomView::Concrete {
                def_id,
                generics,
            },
            ImplExprAtom::LocalBound {
                predicate,
                trait_ref,
                path,
            } => ImplExprAtomView::LocalBound { predicate, trait_ref, path: path@ },
            ImplExprAtom::SelfImpl { trait_ref, path } => ImplExprAtomView::SelfImpl {
                trait_ref,
                path: path@,
            },
            ImplExprAtom::Dyn => ImplExprAtomView::Dyn,
            ImplExprAtom::Builtin { trait_ref } => ImplExprAtomView::Builtin { trait_ref },
            ImplExprAtom::Error(msg) => ImplExprAtomView::Error(msg@),
        }
    }
}

impl View for ImplExpr {
    type V = ImplExprView;

    open spec fn view(&self) -> ImplExprView {
        witness_view(*self)
    }
}

/// A witness as a mathematical value: its root, and the views of its
/// arguments in order.
pub open spec fn witness_view(x: ImplExpr) -> ImplExprView
    decreases x, 0int,
{
    ImplExprView {
        trait_ref: x.trait_ref,
        atom: x.atom@,
        args: views_upto(x.args@, x.args@.len() as int),
    }
}

/// The views of the first `k` witnesses of a list.
pub open spec fn views_upto(args: Seq<ImplExpr>, k: int) -> Seq<ImplExprView>
    decreases args, k,
{
    if k <= 0 || k > args.len() {
        Seq::empty()
    } else {
        views_upto(args, k - 1).push(witness_view(args[k - 1]))
    }
}

/// The views of the witnesses of a list.
pub open spec fn arg_views(args: Seq<ImplExpr>) -> Seq<ImplExprView> {
    views_upto(args, args.len() as int)
}

/// The views of a list are as many as the witnesses, and each is the view
/// of the witness at its place.
pub proof fn lemma_views_upto(args: Seq<ImplExpr>, k: int)
    requires
        0 <= k <= args.len(),
    ensures
        views_upto(args, k).len() == k,
        forall|i: int| 0 <= i < k ==> (#[trigger] views_upto(args, k)[i]) == args[i]@,
    decreases k,
{
    if k > 0 {
        lemma_views_upto(args, k - 1);
    }
}

/// The views of a list with one more witness at its end.
pub proof fn lemma_arg_views_push(args: Seq<ImplExpr>, x: ImplExpr)
    ensures
        arg_views(args.push(x)) == arg_views(args).push(x@),
{
    let longer = args.push(x);
    lemma_views_upto(longer, longer.len() as int);
    lemma_views_upto(args, args.len() as int);
    assert forall|i: int| 0 <= i < longer.len() implies arg_views(longer)[i] == arg_views(
        args,
    ).push(x@)[i] by {
        if i < args.len() {
            assert(longer[i] == args[i]);
        }
    }
    assert(arg_views(longer) =~= arg_views(args).push(x@));
}

/// The diagnostic for a bound that no clause in scope leads to.
pub open spec fn no_clause_message(debug: Seq<char>) -> Seq<char> {
    "Could not find a clause for `"@ + debug + "` in the item parameters"@
}

/// The diagnostic for an obligation whose selection failed.
pub open spec fn selection_error_message(error: Seq<char>, debug: Seq<char>) -> Seq<char> {
    "Cannot handle error `"@ + error + "` selecting `"@ + debug + "`"@
}

/// The witness of `goal`, given how selection classified it:
/// - an `impl` item gives `Concrete`, with the witnesses of its nested
///   obligations;
/// - a bound in scope gives the derivation found among `predicates`, as
///   `SelfImpl` when it starts from an extra self predicate and as
///   `LocalBound` otherwise, or the `Error` atom when there is none, in each
///   case with the witnesses of its nested obligations;
/// - a built-in source gives `Dyn` for a trait object and `Builtin` otherwise,
///   without nested witnesses;
/// - a failed selection gives the `Error` atom with the failure, without
///   nested witnesses.
/// There is always a witness: what could not be resolved is marked in the
/// tree, where it occurs.
pub open spec fn spec_impl_expr(
    graph: ClauseGraph,
    predicates: Seq<AnnotatedClause>,
    goal: Goal,
    selection: Selection,
) -> ImplExprView
    decreases selection, 0int,
{
    match selection {
        Selection::Failed { error } => ImplExprView {
            trait_ref: goal.trait_ref,
            atom: ImplExprAtomView::Error(selection_error_message(error@, goal.debug@)),
            args: Seq::empty(),
        },
        Selection::UserDefined { impl_def_id, generics, nested } => ImplExprView {
            trait_ref: goal.trait_ref,
            atom: ImplExprAtomView::Concrete { def_id: impl_def_id, generics },
            args: spec_impl_exprs(graph, predicates, nested@, nested@.len() as int),
        },
        Selection::Param { nested } => {
            let atom = match spec_path_to(graph, predicates, goal.repr@) {
                None => ImplExprAtomView::Error(no_clause_message(goal.debug@)),
                Some((path, origin)) => if origin.is_extra_self_predicate {
                    ImplExprAtomView::SelfImpl { trait_ref: goal.trait_ref, path }
                } else {
                    ImplExprAtomView::LocalBound {
                        predicate: origin.clause,
                        trait_ref: goal.trait_ref,
                        path,
                    }
                },
            };
            ImplExprView {
                trait_ref: goal.trait_ref,
                atom,
                args: spec_impl_exprs(graph, predicates, nested@, nested@.len() as int),
            }
        },
        Selection::Builtin { is_object } => {
            let atom = if is_object {
                ImplExprAtomView::Dyn
            } else {
                ImplExprAtomView::Builtin { trait_ref: goal.trait_ref }
            };
            ImplExprView { trait_ref: goal.trait_ref, atom, args: Seq::empty() }
        },
    }
}

/// The witnesses of the trait bounds among the first `k` obligations, in
/// order: one for each.
pub open spec fn spec_impl_exprs(
    graph: ClauseGraph,
    predicates: Seq<AnnotatedClause>,
    obligations: Seq<Obligation>,
    k: int,
) -> Seq<ImplExprView>
    decreases obligations, k,
{
    if k <= 0 || k > obligations.len() {
        Seq::empty()
    } else {
        let before = spec_impl_exprs(graph, predicates, obligations, k - 1);
        match obligations[k - 1] {
            Obligation::Other => before,
            Obligation::Trait { goal, selection } => before.push(
                spec_impl_expr(graph, predicates, goal, selection),
            ),
        }
    }
}

/// Builds `no_clause_message`.
pub fn make_no_clause_message(debug: &String) -> (r: String)
    ensures
        r@ == no_clause_message(debug@),
{
    String::from_str("Could not find a clause for `").concat(debug.as_str()).concat(
        "` in the item parameters",
    )
}

/// Builds `selection_error_message`.
pub fn make_selection_error_message(error: &String, debug: &String) -> (r: String)
    ensures
        r@ == selection_error_message(error@, debug@),
{
    String::from_str("Cannot handle error `").concat(error.as_str()).concat(
        "` selecting `",
    ).concat(debug.as_str()).concat("`")
}

impl ImplExprAtom {
    /// The witness with this atom as its root.
    pub fn with_args(self, args: Vec<ImplExpr>, trait_ref: usize) -> (r: ImplExpr)
        ensures
            r.atom == self,
            r.args == args,
            r.trait_ref == trait_ref,
            r@ == (ImplExprView { trait_ref, atom: self@, args: arg_views(args@) }),
    {
        let r = ImplExpr { atom: self, args, trait_ref };
        proof {
            lemma_view_unfold(r);
        }
        r
    }
}

/// The view of a witness, one level deep.
pub proof fn lemma_view_unfold(x: ImplExpr)
    ensures
        x@ == (ImplExprView { trait_ref: x.trait_ref, atom: x.atom@, args: arg_views(x.args@) }),
{
}

/// Resolves the trait bounds among `obligations`, in order, against the
/// clauses in scope: one witness for each.
pub fn impl_exprs(
    graph: &ClauseGraph,
    predicates: &Vec<AnnotatedClause>,
    obligations: &Vec<Obligation>,
) -> (r: Vec<ImplExpr>)
    ensures
        arg_views(r@) == spec_impl_exprs(
            *graph,
            predicates@,
            obligations@,
            obligations@.len() as int,
        ),
    decreases obligations, 1int,
{
    let mut out: Vec<ImplExpr> = Vec::new();
    let mut i: usize = 0;
    assert(arg_views(out@) =~= Seq::<ImplExprView>::empty());
    while i < obligations.len()
        invariant
            i <= obligations@.len(),
            arg_views(out@) == spec_impl_exprs(*graph, predicates@, obligations@, i as int),
        decreases obligations@.len() - i,
    {
        let ghost before = out@;
        match &obligations[i] {
            Obligation::Other => {},
            Obligation::Trait { goal, selection } => {
                let x = impl_expr(graph, predicates, goal, selection);
                out.push(x);
                proof {
                    lemma_arg_views_push(before, x);
                }
            },
        }
        i += 1;
    }
    out
}

/// Resolves one trait bound: builds the witness of `goal` from the outcome
/// of its selection and the clauses in scope. Resolution does not fail: a
/// bound in scope that no clause leads to, and a bound whose selection
/// failed, are recorded in the tree as `Error` atoms, with their diagnostic,
/// and the rest of the tree is resolved around them.
pub fn impl_expr(
    graph: &ClauseGraph,
    predicates: &Vec<AnnotatedClause>,
    goal: &Goal,
    selection: &Selection,
) -> (r: ImplExpr)
    ensures
        r@ == spec_impl_expr(*graph, predicates@, *goal, *selection),
    decreases selection, 0int,
{
    match selection {
        Selection::Failed { error } => {
            let msg = make_selection_error_message(error, &goal.debug);
            let r = ImplExprAtom::Error(msg).with_args(Vec::new(), goal.trait_ref);
            assert(r@.args =~= Seq::<ImplExprView>::empty());
            r
        },
        Selection::UserDefined { impl_def_id, generics, nested } => {
            let args = impl_exprs(graph, predicates, nested);
            ImplExprAtom::Concrete { def_id: *impl_def_id, generics: *generics }.with_args(
                args,
                goal.trait_ref,
            )
        },
        Selection::Param { nested } => {
            let args = impl_exprs(graph, predicates, nested);
            let atom = match path_to(graph, predicates, &goal.repr) {
                None => ImplExprAtom::Error(make_no_clause_message(&goal.debug)),
                Some((path, origin)) => if origin.is_extra_self_predicate {
                    ImplExprAtom::SelfImpl { trait_ref: goal.trait_ref, path }
                } else {
                    ImplExprAtom::LocalBound {
                        predicate: origin.clause,
                        trait_ref: goal.trait_ref,
                        path,
                    }
                },
            };
            atom.with_args(args, goal.trait_ref)
        },
        Selection::Builtin { is_object } => {
            let atom = if *is_object {
                ImplExprAtom::Dyn
            } else {
                ImplExprAtom::Builtin { trait_ref: goal.trait_ref }
            };
            let r = atom.with_args(Vec::new(), goal.trait_ref);
            assert(r@.args =~= Seq::<ImplExprView>::empty());
            r
        },
    }
}

/// Resolution is a function of what it is given: two resolutions of the
/// same goal, with the same outcome of selection, against the same graph
/// and the same clauses in scope, give the same witness, hop for hop.
pub proof fn lemma_resolution_deterministic(
    graph: ClauseGraph,
    predicates: Seq<AnnotatedClause>,
    goal: Goal,
    selection: Selection,
    first: ImplExpr,
    second: ImplExpr,
)
    requires
        first@ == spec_impl_expr(graph, predicates, goal, selection),
        second@ == spec_impl_expr(graph, predicates, goal, selection),
    ensures
        first@ == second@,
{
}

/// A witness has one argument for each trait bound among the obligations of
/// its root, in their order: as many as there are such bounds.
pub proof fn lemma_args_per_obligation(
    graph: ClauseGraph,
    predicates: Seq<AnnotatedClause>,
    obligations: Seq<Obligation>,
    k: int,
)
    requires
        0 <= k <= obligations.len(),
    ensures
        spec_impl_exprs(graph, predicates, obligations, k).len() == count_trait(obligations, k),
    decreases k,
{
    if k > 0 {
        lemma_args_per_obligation(graph, predicates, obligations, k - 1);
    }
}

/// A bound in scope that no clause leads to does not fail a resolution.
/// Whatever its nested obligations are, the witness is there: it is of the
/// trait asked for, its root is the `Error` atom with the diagnostic that
/// names the bound, and its arguments are the witnesses of the nested
/// obligations, one for each trait bound among them.
pub proof fn lemma_no_clause_is_an_error_atom(
    graph: ClauseGraph,
    predicates: Seq<AnnotatedClause>,
    goal: Goal,
    nested: Vec<Obligation>,
)
    requires
        spec_path_to(graph, predicates, goal.repr@).is_none(),
    ensures
        ({
            let witness = spec_impl_expr(graph, predicates, goal, Selection::Param { nested });
            &&& witness.trait_ref == goal.trait_ref
            &&& witness.atom == ImplExprAtomView::Error(no_clause_message(goal.debug@))
            &&& witness.args == spec_impl_exprs(graph, predicates, nested@, nested@.len() as int)
            &&& witness.args.len() == count_trait(nested@, nested@.len() as int)
        }),
{
    lemma_args_per_obligation(graph, predicates, nested@, nested@.len() as int);
}

/// A bound whose selection failed does not fail a resolution either: its
/// witness is the `Error` atom with the failure, without arguments.
pub proof fn lemma_failed_selection_is_an_error_atom(
    graph: ClauseGraph,
    predicates: Seq<AnnotatedClause>,
    goal: Goal,
    error: String,
)
    ensures
        spec_impl_expr(graph, predicates, goal, Selection::Failed { error }) == (ImplExprView {
            trait_ref: goal.trait_ref,
            atom: ImplExprAtomView::Error(selection_error_message(error@, goal.debug@)),
            args: Seq::empty(),
        }),
{
}

/// How many of the first `k` obligations are trait bounds.
pub open spec fn count_trait(obligations: Seq<Obligation>, k: int) -> nat
    decreases k,
{
    if k <= 0 {
        0
    } else if obligations[k - 1] is Trait {
        count_trait(obligations, k - 1) + 1
    } else {
        count_trait(obligations, k - 1)
    }
}

/// The diagnostics that a witness calls for: the message of every `Error`
/// atom of the tree, those of the arguments of a node, in order, before
/// that of the node itself.
pub open spec fn spec_warnings(v: ImplExprView) -> Seq<Seq<char>>
    decreases v, 0int,
{
    let below = spec_warnings_upto(v.args, v.args.len() as int);
    match v.atom {
        ImplExprAtomView::Error(msg) => below.push(msg),
        _ => below,
    }
}

/// The diagnostics that the first `k` witnesses of a list call for.
pub open spec fn spec_warnings_upto(args: Seq<ImplExprView>, k: int) -> Seq<Seq<char>>
    decreases args, k,
{
    if k <= 0 || k > args.len() {
        Seq::empty()
    } else {
        spec_warnings_upto(args, k - 1) + spec_warnings(args[k - 1])
    }
}

/// Collects the diagnostics that a witness calls for. A bound that no
/// clause in scope leads to does not fail a resolution: it is marked in the
/// tree, and it is reported here.
pub fn warnings(e: &ImplExpr) -> (r: Vec<String>)
    ensures
        spec_texts(r@) == spec_warnings(e@),
    decreases e,
{
    let mut out: Vec<String> = Vec::new();
    let mut i: usize = 0;
    proof {
        lemma_view_unfold(*e);
        lemma_views_upto(e.args@, e.args@.len() as int);
        assert(spec_texts(out@) =~= Seq::<Seq<char>>::empty());
    }
    while i < e.args.len()
        invariant
            i <= e.args@.len(),
            e@.args.len() == e.args@.len(),
            forall|j: int| 0 <= j < e.args@.len() ==> (#[trigger] e@.args[j]) == e.args@[j]@,
            spec_texts(out@) == spec_warnings_upto(e@.args, i as int),
        decreases e.args@.len() - i,
    {
        let ghost before = out@;
        let mut below = warnings(&e.args[i]);
        let ghost added = below@;
        out.append(&mut below);
        assert(spec_texts(out@) =~= spec_texts(before) + spec_texts(added));
        i += 1;
    }
    match &e.atom {
        ImplExprAtom::Error(msg) => {
            let ghost before = out@;
            out.push(msg.clone());
            assert(spec_texts(out@) =~= spec_texts(before).push(msg@));
        },
        _ => {},
    }
    out
}

} // verus!
