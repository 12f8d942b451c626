//! The trait requirements of the items that a body uses.
use crate::mir::call::GenericArgIndex;
use crate::mir::call::TraitInfo;
use crate::traits::graph::AnnotatedClause;
use crate::traits::graph::ClauseGraph;
use crate::traits::resolve::impl_expr;
use crate::traits::resolve::spec_impl_expr;
use crate::traits::resolve::Goal;
use crate::traits::resolve::ImplExprView;
use crate::traits::resolve::Obligation;
use crate::traits::resolve::Selection;
use crate::types::ty::GenericParamDefKind;
use vstd::prelude::*;

verus! {

/// The numbers of parameters and clauses that a definition declares itself.
/// The generics of a definition include those of the block around it:
///
/// ```text
/// impl Foo<T> {
///         ^^^
///       generics of the block
///   fn bar<U>(...)  { ... }
///         ^^^
///       generics of the function
/// }
/// ```
///
/// and a reference to a trait method has to tell the two apart: the call
/// `x.baz(...)` of a method of `impl<T> Foo for Bar<T>` is `Foo<T>::baz<U>`,
/// not `baz<T, U>`. Only the block immediately around a definition can be
/// referred to, so one level is all there is to count.
#[derive(Clone, Copy, Debug, PartialEq, Eq)]
pub struct ParamsInfo {
    /// The number of generic parameters: regions, types and constants.
    /// Trait clauses are no generic parameters.
    pub num_generic_params: usize,
    pub num_region_params: usize,
    pub num_type_params: usize,
    pub num_const_generic_params: usize,
    pub num_trait_clauses: usize,
    pub num_regions_outlive: usize,
    pub num_types_outlive: usize,
    pub num_trait_type_constraints: usize,
}

/// The kinds of clauses.
#[derive(Clone, Copy, Debug, PartialEq, Eq)]
pub enum ClauseKind {
    Trait,
    RegionOutlives,
    TypeOutlives,
    Projection,
    /// Any other clause.
    Other,
}

/// The kind of generic parameter, without what a declaration says besides.
#[derive(Clone, Copy, Debug, PartialEq, Eq)]
pub enum ParamKind {
    Lifetime,
    Type,
    Const,
}

impl GenericParamDefKind {
    pub open spec fn spec_param_kind(self) -> ParamKind {
        match self {
            GenericParamDefKind::Lifetime => ParamKind::Lifetime,
            GenericParamDefKind::Type { .. } => ParamKind::Type,
            GenericParamDefKind::Const { .. } => ParamKind::Const,
        }
    }

    /// Which kind of parameter the declaration declares.
    pub fn param_kind(&self) -> (r: ParamKind)
        ensures
            r == self.spec_param_kind(),
    {
        match self {
            GenericParamDefKind::Lifetime => ParamKind::Lifetime,
            GenericParamDefKind::Type { .. } => ParamKind::Type,
            GenericParamDefKind::Const { .. } => ParamKind::Const,
        }
    }
}

/// How many of the first `k` parameters are of kind `kind`.
pub open spec fn count_params(params: Seq<GenericParamDefKind>, kind: ParamKind, k: int) -> nat
    decreases k,
{
    if k <= 0 {
        0
    } else if params[k - 1].spec_param_kind() == kind {
        count_params(params, kind, k - 1) + 1
    } else {
        count_params(params, kind, k - 1)
    }
}

/// How many of the first `k` clauses are of kind `kind`.
pub open spec fn count_clauses(clauses: Seq<ClauseKind>, kind: ClauseKind, k: int) -> nat
    decreases k,
{
    if k <= 0 {
        0
    } else if clauses[k - 1] == kind {
        count_clauses(clauses, kind, k - 1) + 1
    } else {
        count_clauses(clauses, kind, k - 1)
    }
}

/// The counts of a definition with the parameters `params` and the clauses
/// `clauses`.
pub open spec fn spec_params_info(params: Seq<GenericParamDefKind>, clauses: Seq<ClauseKind>)
    -> ParamsInfo {
    let n = params.len() as int;
    let m = clauses.len() as int;
    ParamsInfo {
        num_generic_params: params.len() as usize,
        num_region_params: count_params(params, ParamKind::Lifetime, n) as usize,
        num_type_params: count_params(params, ParamKind::Type, n) as usize,
        num_const_generic_params: count_params(params, ParamKind::Const, n) as usize,
        num_trait_clauses: count_clauses(clauses, ClauseKind::Trait, m) as usize,
        num_regions_outlive: count_clauses(clauses, ClauseKind::RegionOutlives, m) as usize,
        num_types_outlive: count_clauses(clauses, ClauseKind::TypeOutlives, m) as usize,
        num_trait_type_constraints: count_clauses(clauses, ClauseKind::Projection, m) as usize,
    }
}

/// A count of parameters is at most their number.
pub proof fn lemma_count_params_bound(params: Seq<GenericParamDefKind>, kind: ParamKind, k: int)
    requires
        0 <= k <= params.len(),
    ensures
        count_params(params, kind, k) <= k,
    decreases k,
{
    if k > 0 {
        lemma_count_params_bound(params, kind, k - 1);
    }
}

/// A count of clauses is at most their number.
pub proof fn lemma_count_clauses_bound(clauses: Seq<ClauseKind>, kind: ClauseKind, k: int)
    requires
        0 <= k <= clauses.len(),
    ensures
        count_clauses(clauses, kind, k) <= k,
    decreases k,
{
    if k > 0 {
        lemma_count_clauses_bound(clauses, kind, k - 1);
    }
}

/// Every parameter is a region, a type or a constant: the three counts add
/// up to the number of parameters.
pub proof fn lemma_param_counts_add_up(params: Seq<GenericParamDefKind>, k: int)
    requires
        0 <= k <= params.len(),
    ensures
        count_params(params, ParamKind::Lifetime, k) + count_params(params, ParamKind::Type, k)
            + count_params(params, ParamKind::Const, k) == k,
    decreases k,
{
    if k > 0 {
        lemma_param_counts_add_up(params, k - 1);
    }
}

/// Counts the parameters and the clauses that a definition declares itself,
/// by kind. `params` are its own generic parameters and `clauses` the
/// clauses defined on it, without the clause by which a trait requires
/// itself.
pub fn get_params_info(params: &Vec<GenericParamDefKind>, clauses: &Vec<ClauseKind>) -> (r:
    ParamsInfo)
    ensures
        r == spec_params_info(params@, clauses@),
{
    let mut num_region_params: usize = 0;
    let mut num_type_params: usize = 0;
    let mut num_const_generic_params: usize = 0;
    let mut i: usize = 0;
    while i < params.len()
        invariant
            i <= params@.len(),
            num_region_params == count_params(params@, ParamKind::Lifetime, i as int),
            num_type_params == count_params(params@, ParamKind::Type, i as int),
            num_const_generic_params == count_params(params@, ParamKind::Const, i as int),
        decreases params@.len() - i,
    {
        proof {
            lemma_count_params_bound(params@, ParamKind::Lifetime, i as int);
            lemma_count_params_bound(params@, ParamKind::Type, i as int);
            lemma_count_params_bound(params@, ParamKind::Const, i as int);
        }
        match params[i].param_kind() {
            ParamKind::Lifetime => {
                num_region_params += 1;
            },
            ParamKind::Type => {
                num_type_params += 1;
            },
            ParamKind::Const => {
                num_const_generic_params += 1;
            },
        }
        i += 1;
    }
    let mut num_trait_clauses: usize = 0;
    let mut num_regions_outlive: usize = 0;
    let mut num_types_outlive: usize = 0;
    let mut num_trait_type_constraints: usize = 0;
    let mut j: usize = 0;
    while j < clauses.len()
        invariant
            j <= clauses@.len(),
            num_trait_clauses == count_clauses(clauses@, ClauseKind::Trait, j as int),
            num_regions_outlive == count_clauses(clauses@, ClauseKind::RegionOutlives, j as int),
            num_types_outlive == count_clauses(clauses@, ClauseKind::TypeOutlives, j as int),
            num_trait_type_constraints == count_clauses(clauses@, ClauseKind::Projection, j as int),
        decreases clauses@.len() - j,
    {
        proof {
            lemma_count_clauses_bound(clauses@, ClauseKind::Trait, j as int);
            lemma_count_clauses_bound(clauses@, ClauseKind::RegionOutlives, j as int);
            lemma_count_clauses_bound(clauses@, ClauseKind::TypeOutlives, j as int);
            lemma_count_clauses_bound(clauses@, ClauseKind::Projection, j as int);
        }
        match clauses[j] {
            ClauseKind::Trait => {
                num_trait_clauses += 1;
            },
            ClauseKind::RegionOutlives => {
                num_regions_outlive += 1;
            },
            ClauseKind::TypeOutlives => {
                num_types_outlive += 1;
            },
            ClauseKind::Projection => {
                num_trait_type_constraints += 1;
            },
            ClauseKind::Other => {},
        }
        j += 1;
    }
    ParamsInfo {
        num_generic_params: params.len(),
        num_region_params,
        num_type_params,
        num_const_generic_params,
        num_trait_clauses,
        num_regions_outlive,
        num_types_outlive,
        num_trait_type_constraints,
    }
}

/// The first `n` generic arguments, or all of them when there are fewer.
pub open spec fn spec_truncated(generic_args: Seq<GenericArgIndex>, n: usize) -> Seq<
    GenericArgIndex,
> {
    if n <= generic_args.len() {
        generic_args.subrange(0, n as int)
    } else {
        generic_args
    }
}

/// Resolves the reference to a trait. The generic arguments at a method
/// call are those of the trait followed by those of the method: the
/// reference keeps only as many as the trait declares parameters.
pub fn solve_trait(
    graph: &ClauseGraph,
    predicates: &Vec<AnnotatedClause>,
    goal: &Goal,
    selection: &Selection,
    generic_args: Vec<GenericArgIndex>,
    params_info: &ParamsInfo,
) -> (r: TraitInfo)
    ensures
        r.witness@ == spec_impl_expr(*graph, predicates@, *goal, *selection),
        r.generic_args@ == spec_truncated(generic_args@, params_info.num_generic_params),
{
    let witness = impl_expr(graph, predicates, goal, selection);
    let mut generic_args = generic_args;
    generic_args.truncate(params_info.num_generic_params);
    TraitInfo { witness, generic_args }
}

/// A trait requirement of an item, instantiated: the obligation with the
/// outcome of its selection, the generic arguments of its trait reference,
/// and the counts of the trait.
#[derive(Debug)]
pub struct ItemRequirement {
    pub obligation: Obligation,
    pub generic_args: Vec<GenericArgIndex>,
    pub params_info: ParamsInfo,
}

/// The witnesses of the trait requirements among the first `k`, in order,
/// each with the generic arguments of its trait.
pub open spec fn spec_item_traits(
    graph: ClauseGraph,
    predicates: Seq<AnnotatedClause>,
    requirements: Seq<ItemRequirement>,
    k: int,
) -> Seq<(ImplExprView, Seq<GenericArgIndex>)>
    decreases k,
{
    if k <= 0 {
        Seq::empty()
    } else {
        let before = spec_item_traits(graph, predicates, requirements, k - 1);
        match requirements[k - 1].obligation {
            Obligation::Other => before,
            Obligation::Trait { goal, selection } => before.push(
                (
                    spec_impl_expr(graph, predicates, goal, selection),
                    spec_truncated(
                        requirements[k - 1].generic_args@,
                        requirements[k - 1].params_info.num_generic_params,
                    ),
                ),
            ),
        }
    }
}

/// The witnesses of a list, each with its generic arguments.
pub open spec fn trait_info_views(infos: Seq<TraitInfo>) -> Seq<
    (ImplExprView, Seq<GenericArgIndex>),
> {
    Seq::new(infos.len(), |i: int| (infos[i].witness@, infos[i].generic_args@))
}

/// Solves the trait requirements of an item at one of its uses, such as a
/// call or the construction of a value. Only the requirements that are
/// trait clauses are solved: there is one witness for each, in order.
pub fn solve_item_traits(
    graph: &ClauseGraph,
    predicates: &Vec<AnnotatedClause>,
    requirements: Vec<ItemRequirement>,
) -> (r: Vec<TraitInfo>)
    ensures
        trait_info_views(r@) == spec_item_traits(
            *graph,
            predicates@,
            requirements@,
            requirements@.len() as int,
        ),
{
    let n = requirements.len();
    let mut rest = crate::project::reversed(requirements);
    let mut out: Vec<TraitInfo> = Vec::new();
    let ghost mut done: int = 0;
    assert(trait_info_views(out@) =~= Seq::empty());
    while rest.len() > 0
        invariant
            n == requirements@.len(),
            0 <= done <= n,
            rest@.len() == n - done,
            forall|i: int| 0 <= i < rest@.len() ==> rest@[i] == requirements@[n - 1 - i],
            trait_info_views(out@) == spec_item_traits(*graph, predicates@, requirements@, done),
        decreases rest@.len(),
    {
        let req = rest.pop().unwrap();
        assert(req == requirements@[done]);
        let ghost before = out@;
        match &req.obligation {
            Obligation::Other => {},
            Obligation::Trait { goal, selection } => {
                let info = solve_trait(
                    graph,
                    predicates,
                    goal,
                    selection,
                    req.generic_args,
                    &req.params_info,
                );
                out.push(info);
                assert(trait_info_views(out@) =~= trait_info_views(before).push(
                    (info.witness@, info.generic_args@),
                ));
            },
        }
        proof {
            done = done + 1;
        }
    }
    out
}

} // verus!
