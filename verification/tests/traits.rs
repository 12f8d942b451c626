use hax_frontend_exporter::traits::bounds::ClauseRef;
use hax_frontend_exporter::traits::bounds::ItemBounds;
use hax_frontend_exporter::traits::bounds::ItemTable;
use hax_frontend_exporter::traits::bounds::predicates_to_poly_trait_predicates;
use hax_frontend_exporter::traits::graph::AnnotatedClause;
use hax_frontend_exporter::traits::graph::AssocBounds;
use hax_frontend_exporter::traits::graph::ClauseGraph;
use hax_frontend_exporter::traits::graph::ClauseNode;
use hax_frontend_exporter::traits::graph::PathChunk;
use hax_frontend_exporter::traits::resolve::impl_expr;
use hax_frontend_exporter::traits::resolve::impl_exprs;
use hax_frontend_exporter::traits::resolve::warnings;
use hax_frontend_exporter::traits::resolve::Goal;
use hax_frontend_exporter::traits::resolve::ImplExpr;
use hax_frontend_exporter::traits::resolve::ImplExprAtom;
use hax_frontend_exporter::traits::resolve::Obligation;
use hax_frontend_exporter::traits::resolve::Selection;
use hax_frontend_exporter::traits::search::copy_path;
use hax_frontend_exporter::traits::search::path_to;
use hax_frontend_exporter::traits::search::seen_contains;

fn node(repr: &str, parents: Vec<usize>, assoc: Vec<AssocBounds>) -> ClauseNode {
    ClauseNode { repr: repr.to_string(), parents, assoc }
}

fn clause(handle: usize, pred: Option<usize>, extra: bool) -> AnnotatedClause {
    AnnotatedClause { is_extra_self_predicate: extra, clause: handle, trait_predicate: pred, span: 0 }
}

fn goal(trait_ref: usize, repr: &str) -> Goal {
    Goal { trait_ref, repr: repr.to_string(), debug: format!("<{}>", repr) }
}

fn builtin(trait_ref: usize) -> ImplExpr {
    ImplExpr { trait_ref, atom: ImplExprAtom::Builtin { trait_ref }, args: vec![] }
}

#[test]
fn clone_for_a_pair_of_bytes() {
    let graph = ClauseGraph { nodes: vec![] };
    let nested = vec![
        Obligation::Trait {
            goal: goal(2, "u8: Clone"),
            selection: Selection::Builtin { is_object: false },
        },
        Obligation::Trait {
            goal: goal(2, "u8: Clone"),
            selection: Selection::Builtin { is_object: false },
        },
    ];
    let selection = Selection::UserDefined { impl_def_id: 7, generics: 3, nested };
    let r = impl_expr(&graph, &vec![], &goal(1, "(u8, u8): Clone"), &selection);
    assert_eq!(
        r,
        ImplExpr {
            trait_ref: 1,
            atom: ImplExprAtom::Concrete { def_id: 7, generics: 3 },
            args: vec![builtin(2), builtin(2)],
        }
    );
}

#[test]
fn method_of_a_supertrait_through_a_local_bound() {
    let graph = ClauseGraph {
        nodes: vec![node("T: Bar", vec![1], vec![]), node("T: Parent", vec![], vec![])],
    };
    let scope = vec![clause(10, Some(0), false)];
    let r = impl_expr(&graph, &scope, &goal(21, "T: Parent"), &Selection::Param { nested: vec![] });
    assert_eq!(
        r,
        ImplExpr {
            trait_ref: 21,
            atom: ImplExprAtom::LocalBound {
                predicate: 10,
                trait_ref: 21,
                path: vec![PathChunk::Parent { predicate: 1, index: 0 }],
            },
            args: vec![],
        }
    );
}

#[test]
fn no_clause_in_scope_is_an_error_atom() {
    let graph = ClauseGraph { nodes: vec![node("T: Bar", vec![], vec![])] };
    let scope = vec![clause(10, Some(0), false)];
    let nested = vec![Obligation::Trait {
        goal: goal(5, "T: Sized"),
        selection: Selection::Builtin { is_object: false },
    }];
    let expr = impl_expr(&graph, &scope, &goal(4, "T: Missing"), &Selection::Param { nested });
    assert_eq!(expr.trait_ref, 4);
    assert_eq!(
        expr.atom,
        ImplExprAtom::Error(
            "Could not find a clause for `<T: Missing>` in the item parameters".to_string()
        )
    );
    assert_eq!(expr.args, vec![builtin(5)]);
}

#[test]
fn extra_self_predicate_gives_self_impl() {
    let graph = ClauseGraph { nodes: vec![node("Self: Tr", vec![], vec![])] };
    let scope = vec![clause(3, Some(0), true)];
    let r = impl_expr(&graph, &scope, &goal(9, "Self: Tr"), &Selection::Param { nested: vec![] });
    assert_eq!(
        r,
        ImplExpr {
            trait_ref: 9,
            atom: ImplExprAtom::SelfImpl { trait_ref: 9, path: vec![] },
            args: vec![],
        }
    );
}

#[test]
fn trait_object_gives_dyn() {
    let graph = ClauseGraph { nodes: vec![] };
    let r = impl_expr(&graph, &vec![], &goal(1, "dyn Tr: Tr"), &Selection::Builtin { is_object: true });
    assert_eq!(r, ImplExpr { trait_ref: 1, atom: ImplExprAtom::Dyn, args: vec![] });
}

#[test]
fn a_failed_selection_is_an_error_atom() {
    let graph = ClauseGraph { nodes: vec![] };
    let sel = Selection::Failed { error: "Ambiguity".to_string() };
    let r = impl_expr(&graph, &vec![], &goal(1, "X: Y"), &sel);
    assert_eq!(
        r,
        ImplExpr {
            trait_ref: 1,
            atom: ImplExprAtom::Error("Cannot handle error `Ambiguity` selecting `<X: Y>`".to_string()),
            args: vec![],
        }
    );
}

#[test]
fn a_failure_below_is_marked_where_it_occurs_and_the_rest_is_resolved() {
    let graph = ClauseGraph { nodes: vec![] };
    let nested = vec![
        Obligation::Other,
        Obligation::Trait {
            goal: goal(2, "A: B"),
            selection: Selection::Failed { error: "Unimplemented".to_string() },
        },
        Obligation::Trait { goal: goal(3, "u8: D"), selection: Selection::Builtin { is_object: false } },
        Obligation::Trait {
            goal: goal(4, "C: D"),
            selection: Selection::Failed { error: "Ambiguity".to_string() },
        },
    ];
    let error = |trait_ref: usize, msg: &str| ImplExpr {
        trait_ref,
        atom: ImplExprAtom::Error(msg.to_string()),
        args: vec![],
    };
    let sel = Selection::UserDefined { impl_def_id: 0, generics: 0, nested };
    let r = impl_expr(&graph, &vec![], &goal(1, "X: Y"), &sel);
    assert_eq!(
        r,
        ImplExpr {
            trait_ref: 1,
            atom: ImplExprAtom::Concrete { def_id: 0, generics: 0 },
            args: vec![
                error(2, "Cannot handle error `Unimplemented` selecting `<A: B>`"),
                builtin(3),
                error(4, "Cannot handle error `Ambiguity` selecting `<C: D>`"),
            ],
        }
    );
    assert_eq!(
        warnings(&r),
        vec![
            "Cannot handle error `Unimplemented` selecting `<A: B>`".to_string(),
            "Cannot handle error `Ambiguity` selecting `<C: D>`".to_string(),
        ]
    );
}

#[test]
fn no_clause_in_scope_with_a_failure_below_is_still_an_error_atom() {
    let graph = ClauseGraph { nodes: vec![node("T: Bar", vec![], vec![])] };
    let scope = vec![clause(10, Some(0), false)];
    let nested = vec![Obligation::Trait {
        goal: goal(5, "T: Q"),
        selection: Selection::Failed { error: "Unimplemented".to_string() },
    }];
    let r = impl_expr(&graph, &scope, &goal(4, "T: Missing"), &Selection::Param { nested });
    assert_eq!(r.trait_ref, 4);
    assert_eq!(
        r.atom,
        ImplExprAtom::Error(
            "Could not find a clause for `<T: Missing>` in the item parameters".to_string()
        )
    );
    assert_eq!(r.args.len(), 1);
    assert_eq!(
        r.args[0].atom,
        ImplExprAtom::Error("Cannot handle error `Unimplemented` selecting `<T: Q>`".to_string())
    );
}

#[test]
fn obligations_that_are_no_trait_bounds_have_no_witness() {
    let graph = ClauseGraph { nodes: vec![] };
    let obligations = vec![
        Obligation::Other,
        Obligation::Trait {
            goal: goal(2, "u8: Copy"),
            selection: Selection::Builtin { is_object: false },
        },
        Obligation::Other,
    ];
    assert_eq!(impl_exprs(&graph, &vec![], &obligations), vec![builtin(2)]);
}

#[test]
fn with_args_builds_the_tree() {
    let e = ImplExprAtom::Dyn.with_args(vec![builtin(1)], 8);
    assert_eq!(e, ImplExpr { trait_ref: 8, atom: ImplExprAtom::Dyn, args: vec![builtin(1)] });
}

#[test]
fn search_returns_the_empty_path_for_a_clause_in_scope() {
    let graph = ClauseGraph { nodes: vec![node("T: A", vec![], vec![])] };
    let scope = vec![clause(1, None, false), clause(2, Some(0), false)];
    let r = path_to(&graph, &scope, &"T: A".to_string());
    assert_eq!(r, Some((vec![], clause(2, Some(0), false))));
}

#[test]
fn search_fails_when_the_queue_runs_empty() {
    let graph = ClauseGraph { nodes: vec![node("T: A", vec![0], vec![])] };
    let scope = vec![clause(2, Some(0), false)];
    assert_eq!(path_to(&graph, &scope, &"T: Z".to_string()), None);
    assert_eq!(path_to(&graph, &vec![], &"T: A".to_string()), None);
}

#[test]
fn search_prefers_the_shorter_derivation() {
    // 0 -> 1 -> 2 -> 3 and 4 -> 3: the second start reaches the target in one hop.
    let graph = ClauseGraph {
        nodes: vec![
            node("a", vec![1], vec![]),
            node("b", vec![2], vec![]),
            node("c", vec![3], vec![]),
            node("goal", vec![], vec![]),
            node("e", vec![3], vec![]),
        ],
    };
    let scope = vec![clause(0, Some(0), false), clause(1, Some(4), false)];
    let r = path_to(&graph, &scope, &"goal".to_string());
    assert_eq!(
        r,
        Some((vec![PathChunk::Parent { predicate: 3, index: 0 }], clause(1, Some(4), false)))
    );
}

#[test]
fn search_breaks_ties_by_the_order_of_clauses_and_hops() {
    let graph = ClauseGraph {
        nodes: vec![
            node("a", vec![2, 3], vec![]),
            node("b", vec![3], vec![]),
            node("x", vec![], vec![]),
            node("goal", vec![], vec![]),
        ],
    };
    let scope = vec![clause(0, Some(0), false), clause(1, Some(1), false)];
    let r = path_to(&graph, &scope, &"goal".to_string());
    assert_eq!(
        r,
        Some((vec![PathChunk::Parent { predicate: 3, index: 1 }], clause(0, Some(0), false)))
    );
}

#[test]
fn search_goes_through_associated_items_after_supertraits() {
    let graph = ClauseGraph {
        nodes: vec![
            node(
                "T: Iterator",
                vec![1],
                vec![
                    AssocBounds { item: 40, bounds: vec![1] },
                    AssocBounds { item: 41, bounds: vec![1, 2] },
                ],
            ),
            node("x", vec![], vec![]),
            node("T::Item: Debug", vec![], vec![]),
        ],
    };
    let scope = vec![clause(0, Some(0), false)];
    let r = path_to(&graph, &scope, &"T::Item: Debug".to_string());
    assert_eq!(
        r,
        Some((
            vec![PathChunk::AssocItem { item: 41, predicate: 2, index: 1 }],
            clause(0, Some(0), false)
        ))
    );
}

#[test]
fn search_terminates_on_cycles_and_prunes_equal_predicates() {
    // 0 and 1 have the same text: 1 is never expanded, so its edge to the goal is not taken.
    let graph = ClauseGraph {
        nodes: vec![
            node("same", vec![0, 1], vec![]),
            node("same", vec![2], vec![]),
            node("goal", vec![], vec![]),
        ],
    };
    let scope = vec![clause(0, Some(0), false)];
    assert_eq!(path_to(&graph, &scope, &"goal".to_string()), None);
}

#[test]
fn search_ignores_handles_outside_the_graph() {
    let graph = ClauseGraph { nodes: vec![node("a", vec![9], vec![])] };
    let scope = vec![clause(0, Some(5), false), clause(1, Some(0), false)];
    assert_eq!(path_to(&graph, &scope, &"zzz".to_string()), None);
    assert_eq!(
        path_to(&graph, &scope, &"a".to_string()),
        Some((vec![], clause(1, Some(0), false)))
    );
}

#[test]
fn predicate_equality_is_equality_of_texts() {
    let graph = ClauseGraph {
        nodes: vec![node("p", vec![], vec![]), node("q", vec![], vec![]), node("p", vec![], vec![])],
    };
    assert!(graph.predicate_equality(0, 2));
    assert!(!graph.predicate_equality(0, 1));
    assert!(seen_contains(&graph, &vec![1, 2], 0));
    assert!(!seen_contains(&graph, &vec![1], 0));
}

#[test]
fn well_formedness_of_a_graph_is_decided() {
    let good = ClauseGraph {
        nodes: vec![node("a", vec![0], vec![AssocBounds { item: 0, bounds: vec![0] }])],
    };
    let bad_parent = ClauseGraph { nodes: vec![node("a", vec![1], vec![])] };
    let bad_bound = ClauseGraph {
        nodes: vec![node("a", vec![], vec![AssocBounds { item: 0, bounds: vec![0, 3] }])],
    };
    assert!(good.is_wf());
    assert!(!bad_parent.is_wf());
    assert!(!bad_bound.is_wf());
    assert!(good.nodes[0].check_hops_below(1));
    assert!(!good.nodes[0].check_hops_below(0));
}

#[test]
fn a_hop_reaches_its_predicate() {
    assert_eq!(PathChunk::Parent { predicate: 4, index: 1 }.predicate(), 4);
    assert_eq!(PathChunk::AssocItem { item: 2, predicate: 6, index: 0 }.predicate(), 6);
    let p = vec![PathChunk::Parent { predicate: 4, index: 1 }];
    assert_eq!(copy_path(&p), p);
}

fn cref(clause: usize, pred: Option<usize>) -> ClauseRef {
    ClauseRef { clause, trait_predicate: pred, span: clause + 100 }
}

fn items() -> ItemTable {
    ItemTable {
        items: vec![
            // 0: an impl block: declares clause 1; clause 0 is its implicit self clause.
            ItemBounds {
                predicates: vec![cref(0, Some(0)), cref(1, Some(1))],
                is_opaque_ty: false,
                item_bounds: vec![cref(7, None)],
                defined_on: vec![1],
                parent: None,
            },
            // 1: a method in it.
            ItemBounds {
                predicates: vec![cref(2, None), cref(3, Some(2))],
                is_opaque_ty: false,
                item_bounds: vec![],
                defined_on: vec![2, 3],
                parent: Some(0),
            },
            // 2: an opaque type in the method.
            ItemBounds {
                predicates: vec![],
                is_opaque_ty: true,
                item_bounds: vec![cref(4, Some(3))],
                defined_on: vec![],
                parent: Some(1),
            },
        ],
    }
}

fn annotated(extra: bool, clause: usize, pred: Option<usize>) -> AnnotatedClause {
    AnnotatedClause {
        is_extra_self_predicate: extra,
        clause,
        trait_predicate: pred,
        span: clause + 100,
    }
}

#[test]
fn clauses_of_an_item_are_annotated() {
    let t = items();
    assert_eq!(
        t.annotated_predicates_of(0),
        (vec![annotated(true, 0, Some(0)), annotated(false, 1, Some(1))], None)
    );
    assert_eq!(t.annotated_predicates_of(2), (vec![annotated(true, 4, Some(3))], Some(1)));
    assert!(t.items[1].declares(3));
    assert!(!t.items[1].declares(0));
}

#[test]
fn clauses_in_scope_go_from_the_inside_out() {
    let t = items();
    assert!(t.is_wf());
    assert_eq!(
        t.predicates_defined_on_or_above(2),
        vec![
            annotated(true, 4, Some(3)),
            annotated(false, 2, None),
            annotated(false, 3, Some(2)),
            annotated(true, 0, Some(0)),
            annotated(false, 1, Some(1)),
        ]
    );
    assert_eq!(
        t.predicates_defined_on_or_above(0),
        vec![annotated(true, 0, Some(0)), annotated(false, 1, Some(1))]
    );
}

#[test]
fn a_table_where_a_parent_comes_later_is_not_well_formed() {
    let mut t = items();
    t.items[0].parent = Some(2);
    assert!(!t.is_wf());
}

#[test]
fn trait_predicates_keep_their_order() {
    let t = items();
    let scope = t.predicates_defined_on_or_above(1);
    assert_eq!(predicates_to_poly_trait_predicates(&scope), vec![2, 0, 1]);
    assert_eq!(t.parents_trait_predicates(1), vec![2, 0, 1]);
}

#[test]
fn resolving_twice_gives_the_same_witness() {
    let graph = ClauseGraph {
        nodes: vec![
            node("a", vec![1, 2], vec![AssocBounds { item: 3, bounds: vec![2] }]),
            node("b", vec![2], vec![]),
            node("goal", vec![], vec![]),
        ],
    };
    let scope = vec![clause(0, Some(1), false), clause(1, Some(0), true)];
    let run = || impl_expr(&graph, &scope, &goal(5, "goal"), &Selection::Param { nested: vec![] });
    let first = run();
    assert_eq!(first, run());
    assert_eq!(
        first,
        ImplExpr {
            trait_ref: 5,
            atom: ImplExprAtom::LocalBound {
                predicate: 0,
                trait_ref: 5,
                path: vec![PathChunk::Parent { predicate: 2, index: 0 }],
            },
            args: vec![],
        }
    );
}

#[test]
fn coherence_of_a_graph_is_decided() {
    // Two predicates with the same text that lead to predicates with the same text.
    let alike = ClauseGraph {
        nodes: vec![
            node("same", vec![2], vec![]),
            node("same", vec![], vec![AssocBounds { item: 0, bounds: vec![3] }]),
            node("next", vec![], vec![]),
            node("next", vec![], vec![]),
        ],
    };
    assert!(hax_frontend_exporter::traits::shortest::is_coherent(&alike));
    assert!(hax_frontend_exporter::traits::shortest::has_like_child(&alike, 1, 2));
    assert!(!hax_frontend_exporter::traits::shortest::has_like_child(&alike, 2, 2));
    assert!(hax_frontend_exporter::traits::shortest::has_like_children(&alike, 0, 1));
    // The graph of the pruning test: one of the two leads on, the other does not.
    let unlike = ClauseGraph {
        nodes: vec![
            node("same", vec![0, 1], vec![]),
            node("same", vec![2], vec![]),
            node("goal", vec![], vec![]),
        ],
    };
    assert!(!hax_frontend_exporter::traits::shortest::is_coherent(&unlike));
    assert!(hax_frontend_exporter::traits::shortest::is_coherent(&ClauseGraph { nodes: vec![] }));
}

#[test]
fn every_error_atom_is_reported_arguments_first() {
    let error = |msg: &str, args: Vec<ImplExpr>| ImplExpr {
        trait_ref: 0,
        atom: ImplExprAtom::Error(msg.to_string()),
        args,
    };
    let tree = ImplExpr {
        trait_ref: 1,
        atom: ImplExprAtom::Dyn,
        args: vec![
            error("outer", vec![builtin(2), error("inner", vec![])]),
            builtin(3),
            error("last", vec![]),
        ],
    };
    assert_eq!(
        warnings(&tree),
        vec!["inner".to_string(), "outer".to_string(), "last".to_string()]
    );
    assert_eq!(warnings(&builtin(1)), Vec::<String>::new());
    // The export goes on past a bound without a witness: the siblings are resolved.
    let graph = ClauseGraph { nodes: vec![] };
    let nested = vec![
        Obligation::Trait { goal: goal(2, "T: A"), selection: Selection::Param { nested: vec![] } },
        Obligation::Trait { goal: goal(3, "u8: B"), selection: Selection::Builtin { is_object: false } },
    ];
    let sel = Selection::UserDefined { impl_def_id: 1, generics: 1, nested };
    let r = impl_expr(&graph, &vec![], &goal(1, "X: Y"), &sel);
    assert_eq!(r.args.len(), 2);
    assert_eq!(r.args[1], builtin(3));
    assert_eq!(
        warnings(&r),
        vec!["Could not find a clause for `<T: A>` in the item parameters".to_string()]
    );
}
