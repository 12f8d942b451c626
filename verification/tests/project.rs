use hax_frontend_exporter::ident::DefId;
use hax_frontend_exporter::ident::DefPathItem;
use hax_frontend_exporter::ident::DisambiguatedDefPathItem;
use hax_frontend_exporter::project::flatten_kind;
use hax_frontend_exporter::project::local_ident;
use hax_frontend_exporter::project::project_adt_expr;
use hax_frontend_exporter::project::project_callee;
use hax_frontend_exporter::project::project_expr;
use hax_frontend_exporter::project::project_leaf_pattern;
use hax_frontend_exporter::project::project_pat;
use hax_frontend_exporter::project::project_under;
use hax_frontend_exporter::project::reversed;
use hax_frontend_exporter::project::Fault;
use hax_frontend_exporter::project::FieldReceiver;
use hax_frontend_exporter::project::PatStaticTy;
use hax_frontend_exporter::project::RawBlock;
use hax_frontend_exporter::project::RawExpr;
use hax_frontend_exporter::project::RawExprKind;
use hax_frontend_exporter::project::RawFieldExpr;
use hax_frontend_exporter::project::RawFieldPat;
use hax_frontend_exporter::project::RawPatKind;
use hax_frontend_exporter::project::StaticTy;
use hax_frontend_exporter::state::LocalContextS;
use hax_frontend_exporter::traits::resolve::ImplExpr;
use hax_frontend_exporter::traits::resolve::ImplExprAtom;
use hax_frontend_exporter::types::attr::AttrKind;
use hax_frontend_exporter::types::attr::AttrStyle;
use hax_frontend_exporter::types::attr::Attribute;
use hax_frontend_exporter::types::attr::CommentKind;
use hax_frontend_exporter::types::attr::MacroInvokation;
use hax_frontend_exporter::types::span::FileName;
use hax_frontend_exporter::types::span::Loc;
use hax_frontend_exporter::types::span::Span;
use hax_frontend_exporter::types::span::Spanned;
use hax_frontend_exporter::types::thir::AdtExpr;
use hax_frontend_exporter::types::thir::Block;
use hax_frontend_exporter::types::thir::BlockSafety;
use hax_frontend_exporter::types::thir::BorrowKind;
use hax_frontend_exporter::types::thir::Decorated;
use hax_frontend_exporter::types::thir::Expr;
use hax_frontend_exporter::types::thir::ExprKind;
use hax_frontend_exporter::types::thir::FieldExpr;
use hax_frontend_exporter::types::thir::FieldPat;
use hax_frontend_exporter::types::thir::HirId;
use hax_frontend_exporter::types::thir::LitIntType;
use hax_frontend_exporter::types::thir::LitKind;
use hax_frontend_exporter::types::thir::LocalIdent;
use hax_frontend_exporter::types::thir::Pat;
use hax_frontend_exporter::types::thir::PatKind;
use hax_frontend_exporter::types::thir::Scope;
use hax_frontend_exporter::types::thir::ScopeData;
use hax_frontend_exporter::types::thir::Stmt;
use hax_frontend_exporter::types::thir::StmtKind;
use hax_frontend_exporter::types::thir::VariantInformations;
use hax_frontend_exporter::types::ty::IntTy;
use hax_frontend_exporter::types::ty::Ty;
use hax_frontend_exporter::types::ty::UintTy;

fn span(line: usize) -> Span {
    Span {
        lo: Loc { line, col: 0 },
        hi: Loc { line, col: 10 },
        filename: FileName::Custom("lib.rs".to_string()),
    }
}

fn def(name: &str) -> DefId {
    DefId {
        krate: "k".to_string(),
        path: vec![DisambiguatedDefPathItem {
            data: DefPathItem::ValueNs(name.to_string()),
            disambiguator: 0,
        }],
    }
}

fn attr(id: usize) -> Attribute {
    Attribute {
        kind: AttrKind::DocComment(CommentKind::Line, "doc".to_string()),
        id,
        style: AttrStyle::Outer,
        span: span(99),
    }
}

fn raw(ty: Ty, static_ty: StaticTy, line: usize, kind: RawExprKind) -> RawExpr {
    RawExpr { ty, static_ty, span: span(line), macro_invocation: None, kind: Box::new(kind) }
}

fn other(line: usize, kind: ExprKind) -> RawExpr {
    raw(Ty::Bool, StaticTy::Other, line, RawExprKind::Other(kind))
}

fn scoped(line: usize, hir_id: Option<(usize, usize)>, attributes: Vec<Attribute>, value: RawExpr) -> RawExpr {
    raw(Ty::Char, StaticTy::Other, line, RawExprKind::Scope { hir_id, attributes, value })
}

fn node(ty: Ty, line: usize, contents: ExprKind) -> Expr {
    Decorated { ty, span: span(line), contents: Box::new(contents), hir_id: None, attributes: vec![] }
}

fn int_lit(v: u128) -> LitKind {
    LitKind::Int(v, LitIntType::Unsigned(UintTy::U8))
}

fn ret() -> ExprKind {
    ExprKind::Return { value: None }
}

#[test]
fn a_plain_node_is_kept() {
    let r = project_expr(other(1, ret()));
    assert_eq!(r, Ok(node(Ty::Bool, 1, ret())));
}

#[test]
fn scopes_are_looked_through_and_the_outermost_gives_the_attributes() {
    let inner = scoped(2, Some((5, 6)), vec![attr(2)], other(3, ret()));
    let outer = scoped(1, Some((7, 8)), vec![attr(1)], inner);
    let r = project_expr(outer).unwrap();
    assert_eq!(
        r,
        Decorated {
            ty: Ty::Bool,
            span: span(3),
            contents: Box::new(ret()),
            hir_id: Some((7, 8)),
            attributes: vec![attr(1)],
        }
    );
}

#[test]
fn unrolling_scopes_is_idempotent() {
    let e = scoped(1, None, vec![], scoped(2, None, vec![attr(1)], other(3, ret())));
    assert_eq!(e.unrolled(), &other(3, ret()));
    let once = e.unroll_scope();
    assert_eq!(once, other(3, ret()));
    let twice = once.unroll_scope();
    assert_eq!(twice, other(3, ret()));
}

#[test]
fn a_node_is_taken_apart_from_its_scope() {
    let e = scoped(1, Some((1, 2)), vec![attr(4)], scoped(2, None, vec![], other(3, ret())));
    assert_eq!(e.hir_id_and_attributes(), (Some((1, 2)), vec![attr(4)], other(3, ret())));
    assert_eq!(other(3, ret()).hir_id_and_attributes(), (None, vec![], other(3, ret())));
}

#[test]
fn projecting_a_projected_node_changes_nothing() {
    let first = project_expr(scoped(1, Some((7, 8)), vec![attr(1)], other(3, ret()))).unwrap();
    let again = RawExpr {
        ty: Ty::Bool,
        static_ty: StaticTy::Other,
        span: span(3),
        macro_invocation: None,
        kind: Box::new(RawExprKind::Scope {
            hir_id: first.hir_id,
            attributes: first.attributes,
            value: RawExpr {
                ty: first.ty,
                static_ty: StaticTy::Other,
                span: first.span,
                macro_invocation: None,
                kind: Box::new(RawExprKind::Other(*first.contents)),
            },
        }),
    };
    let second = project_expr(again).unwrap();
    assert_eq!(
        second,
        Decorated {
            ty: Ty::Bool,
            span: span(3),
            contents: Box::new(ret()),
            hir_id: Some((7, 8)),
            attributes: vec![attr(1)],
        }
    );
}

#[test]
fn an_expression_in_a_macro_invocation_becomes_the_invocation() {
    let m = MacroInvokation { macro_ident: def("println"), argument: "\"hi\"".to_string(), span: span(4) };
    let mut e = raw(Ty::Char, StaticTy::Other, 2, RawExprKind::NonHirLiteral { lit: int_lit(1) });
    e.macro_invocation = Some(MacroInvokation {
        macro_ident: def("println"),
        argument: "\"hi\"".to_string(),
        span: span(4),
    });
    assert_eq!(project_expr(e), Ok(node(Ty::Char, 2, ExprKind::MacroInvokation(m))));
}

#[test]
fn a_compiler_made_literal_becomes_a_literal() {
    let e = raw(Ty::Uint(UintTy::U8), StaticTy::Other, 2, RawExprKind::NonHirLiteral { lit: int_lit(7) });
    assert_eq!(
        project_expr(e),
        Ok(node(
            Ty::Uint(UintTy::U8),
            2,
            ExprKind::Literal { lit: Spanned { node: int_lit(7), span: span(2) }, neg: false }
        ))
    );
}

#[test]
fn a_zero_sized_literal_names_its_function() {
    let e = raw(Ty::Never, StaticTy::FnDef(def("f")), 2, RawExprKind::ZstLiteral { user_ty: None });
    // The span is that of the outermost node.
    let wrapped = scoped(1, Some((0, 1)), vec![], e);
    assert_eq!(
        project_expr(wrapped),
        Ok(Decorated {
            ty: Ty::Never,
            span: span(1),
            contents: Box::new(ExprKind::GlobalName { id: def("f") }),
            hir_id: Some((0, 1)),
            attributes: vec![],
        })
    );
    let bad = raw(Ty::Never, StaticTy::FnPtr, 2, RawExprKind::ZstLiteral { user_ty: None });
    assert_eq!(project_expr(bad), Err(Fault::ZstLiteralNotFnDef));
}

fn field(receiver: FieldReceiver, variant_index: usize, name: usize) -> RawExpr {
    let lhs = raw(Ty::Str, StaticTy::Other, 5, RawExprKind::Other(ret()));
    raw(Ty::Bool, StaticTy::Other, 4, RawExprKind::Field { lhs, variant_index, name, receiver })
}

fn adt(name: &str) -> FieldReceiver {
    FieldReceiver::Adt { field: def(name) }
}

#[test]
fn a_field_of_an_algebraic_data_type_is_named() {
    let r = project_expr(field(adt("x"), 0, 3));
    assert_eq!(
        r,
        Ok(node(Ty::Bool, 4, ExprKind::Field { field: def("x"), lhs: node(Ty::Str, 5, ret()) }))
    );
}

#[test]
fn a_field_of_a_tuple_is_a_position() {
    let r = project_expr(field(FieldReceiver::Tuple, 0, 3));
    assert_eq!(
        r,
        Ok(node(Ty::Bool, 4, ExprKind::TupleField { field: 3, lhs: node(Ty::Str, 5, ret()) }))
    );
}

#[test]
fn a_field_of_anything_else_is_a_fault() {
    assert_eq!(project_expr(field(FieldReceiver::Other, 0, 3)), Err(Fault::ExprKindFieldBadTy));
    assert_eq!(project_expr(field(FieldReceiver::Other, 0, 0)), Err(Fault::ExprKindFieldBadTy));
}

#[test]
fn a_field_in_another_variant_of_an_algebraic_data_type_is_a_fault() {
    assert_eq!(project_expr(field(adt("x"), 1, 3)), Err(Fault::ExprKindFieldIdxNonZero));
    // A tuple has no variants to tell apart, and nothing else has fields.
    assert_eq!(
        project_expr(field(FieldReceiver::Tuple, 2, 3)),
        Ok(node(Ty::Bool, 4, ExprKind::TupleField { field: 3, lhs: node(Ty::Str, 5, ret()) }))
    );
    assert_eq!(project_expr(field(FieldReceiver::Other, 2, 3)), Err(Fault::ExprKindFieldBadTy));
}

#[test]
fn a_kind_that_is_not_supported_becomes_a_leaf_and_does_not_fail() {
    let e = raw(
        Ty::Char,
        StaticTy::Other,
        2,
        RawExprKind::Unsupported { description: "InlineAsm".to_string() },
    );
    let wrapped = scoped(1, Some((3, 3)), vec![attr(2)], e);
    assert_eq!(
        project_expr(wrapped),
        Ok(Decorated {
            ty: Ty::Char,
            span: span(2),
            contents: Box::new(ExprKind::Todo("InlineAsm".to_string())),
            hir_id: Some((3, 3)),
            attributes: vec![attr(2)],
        })
    );
    // The nodes around it are projected as they are.
    let lhs = raw(Ty::Str, StaticTy::Other, 5, RawExprKind::Unsupported { description: "x".to_string() });
    let access = raw(
        Ty::Bool,
        StaticTy::Other,
        4,
        RawExprKind::Field { lhs, variant_index: 0, name: 1, receiver: FieldReceiver::Tuple },
    );
    assert_eq!(
        project_expr(access),
        Ok(node(
            Ty::Bool,
            4,
            ExprKind::TupleField { field: 1, lhs: node(Ty::Str, 5, ExprKind::Todo("x".to_string())) }
        ))
    );
}

#[test]
fn a_fault_in_the_receiver_is_the_fault_of_the_access() {
    let lhs = raw(Ty::Never, StaticTy::Other, 6, RawExprKind::ZstLiteral { user_ty: None });
    let e = raw(
        Ty::Bool,
        StaticTy::Other,
        4,
        RawExprKind::Field { lhs, variant_index: 0, name: 0, receiver: adt("x") },
    );
    assert_eq!(project_expr(e), Err(Fault::ZstLiteralNotFnDef));
    let lhs = raw(Ty::Never, StaticTy::Other, 6, RawExprKind::ZstLiteral { user_ty: None });
    let e = raw(
        Ty::Bool,
        StaticTy::Other,
        4,
        RawExprKind::Field { lhs, variant_index: 0, name: 0, receiver: FieldReceiver::Tuple },
    );
    assert_eq!(project_expr(e), Err(Fault::ZstLiteralNotFnDef));
}

fn scope() -> Scope {
    Scope { id: 1, data: ScopeData::Node }
}

fn block(stmts: Vec<Stmt>, expr: Option<RawExpr>, safety_mode: BlockSafety, targeted: bool) -> RawExpr {
    raw(
        Ty::Char,
        StaticTy::Other,
        1,
        RawExprKind::Block {
            block: RawBlock {
                targeted_by_break: targeted,
                region_scope: scope(),
                opt_destruction_scope: None,
                span: span(8),
                stmts,
                expr,
                safety_mode,
            },
        },
    )
}

fn stmt() -> Stmt {
    Stmt {
        kind: StmtKind::Expr { scope: scope(), expr: node(Ty::Bool, 9, ret()) },
        opt_destruction_scope: None,
    }
}

fn kept_block(stmts: Vec<Stmt>, expr: Option<Expr>, safety_mode: BlockSafety, targeted: bool) -> Expr {
    node(
        Ty::Char,
        1,
        ExprKind::Block {
            block: Block {
                targeted_by_break: targeted,
                region_scope: scope(),
                opt_destruction_scope: None,
                span: span(8),
                stmts,
                expr,
                safety_mode,
            },
        },
    )
}

#[test]
fn a_block_that_is_only_its_expression_is_flattened() {
    let inner = scoped(2, Some((1, 1)), vec![attr(3)], other(3, ret()));
    let r = project_expr(block(vec![], Some(inner), BlockSafety::Safe, false));
    // The node keeps the type and the span of the block; the contents are those of the expression.
    assert_eq!(r, Ok(node(Ty::Char, 1, ret())));
    // Blocks within blocks flatten all the way.
    let nested = block(
        vec![],
        Some(block(vec![], Some(other(3, ret())), BlockSafety::Safe, false)),
        BlockSafety::Safe,
        false,
    );
    assert_eq!(project_expr(nested), Ok(node(Ty::Char, 1, ret())));
}

#[test]
fn any_other_block_stays_a_block() {
    let r = project_expr(block(vec![stmt()], Some(other(3, ret())), BlockSafety::Safe, false));
    assert_eq!(r, Ok(kept_block(vec![stmt()], Some(node(Ty::Bool, 3, ret())), BlockSafety::Safe, false)));
    let r = project_expr(block(vec![], Some(other(3, ret())), BlockSafety::ExplicitUnsafe, false));
    assert_eq!(r, Ok(kept_block(vec![], Some(node(Ty::Bool, 3, ret())), BlockSafety::ExplicitUnsafe, false)));
    let r = project_expr(block(vec![], Some(other(3, ret())), BlockSafety::BuiltinUnsafe, false));
    assert_eq!(r, Ok(kept_block(vec![], Some(node(Ty::Bool, 3, ret())), BlockSafety::BuiltinUnsafe, false)));
    let r = project_expr(block(vec![], None, BlockSafety::Safe, false));
    assert_eq!(r, Ok(kept_block(vec![], None, BlockSafety::Safe, false)));
}

#[test]
fn a_block_that_a_break_targets_is_flattened_like_any_other() {
    let r = project_expr(block(vec![], Some(other(3, ret())), BlockSafety::Safe, true));
    assert_eq!(r, Ok(node(Ty::Char, 1, ret())));
}

#[test]
fn no_block_that_comes_out_can_still_be_flattened() {
    // A block given as it is, without a statement and with a trailing expression, is flattened too.
    let given = ExprKind::Block {
        block: Block {
            targeted_by_break: false,
            region_scope: scope(),
            opt_destruction_scope: None,
            span: span(8),
            stmts: vec![],
            expr: Some(node(Ty::Str, 5, ret())),
            safety_mode: BlockSafety::Safe,
        },
    };
    assert_eq!(project_expr(other(1, given)), Ok(node(Ty::Bool, 1, ret())));
    assert_eq!(flatten_kind(ret()), ret());
    // One with a statement is kept, and so is what it holds.
    let kept = || ExprKind::Block {
        block: Block {
            targeted_by_break: false,
            region_scope: scope(),
            opt_destruction_scope: None,
            span: span(8),
            stmts: vec![stmt()],
            expr: Some(node(Ty::Str, 5, ret())),
            safety_mode: BlockSafety::Safe,
        },
    };
    assert_eq!(project_expr(other(1, kept())), Ok(node(Ty::Bool, 1, kept())));
    let eligible = block(vec![], Some(other(1, kept())), BlockSafety::Safe, false);
    assert_eq!(project_expr(eligible), Ok(node(Ty::Char, 1, kept())));
}

fn witness(trait_ref: usize) -> ImplExpr {
    ImplExpr { trait_ref, atom: ImplExprAtom::Builtin { trait_ref }, args: vec![] }
}

fn call(callee_ty: StaticTy, fun: RawExpr) -> RawExpr {
    raw(
        Ty::Bool,
        StaticTy::Other,
        1,
        RawExprKind::Call {
            callee_ty,
            ty: Ty::Never,
            fun,
            args: vec![node(Ty::Char, 7, ret())],
            from_hir_call: true,
            fn_span: span(6),
            trait_refs: vec![witness(1), witness(2)],
        },
    )
}

fn call_with(fun: Expr, trait_refs: Vec<ImplExpr>) -> Expr {
    node(
        Ty::Bool,
        1,
        ExprKind::Call {
            ty: Ty::Never,
            fun,
            args: vec![node(Ty::Char, 7, ret())],
            from_hir_call: true,
            fn_span: span(6),
            trait_refs,
        },
    )
}

/// A call of a known function, with the witnesses of what the function requires.
fn static_call(fun: Expr) -> Expr {
    call_with(fun, vec![witness(1), witness(2)])
}

/// A call through a value, which carries no witnesses.
fn projected_call(fun: Expr) -> Expr {
    call_with(fun, vec![])
}

#[test]
fn a_call_of_a_known_function_names_it() {
    let zst = raw(Ty::Str, StaticTy::Other, 3, RawExprKind::ZstLiteral { user_ty: None });
    let fun = scoped(2, Some((4, 4)), vec![attr(1)], zst);
    let r = project_expr(call(StaticTy::FnDef(def("g")), fun));
    // The callee has the type and the span of the literal, and carries nothing of its scope.
    assert_eq!(r, Ok(static_call(node(Ty::Str, 3, ExprKind::GlobalName { id: def("g") }))));
}

#[test]
fn a_call_through_a_function_pointer_projects_the_callee() {
    let fun = scoped(2, Some((4, 4)), vec![attr(1)], other(3, ret()));
    let r = project_expr(call(StaticTy::FnPtr, fun));
    assert_eq!(r, Ok(projected_call(node(Ty::Bool, 3, ret()))));
    let r = project_callee(other(3, ret()), StaticTy::FnPtr);
    assert_eq!(r, Ok(node(Ty::Bool, 3, ret())));
}

#[test]
fn a_call_of_anything_else_is_a_fault() {
    let zst = raw(Ty::Str, StaticTy::Other, 3, RawExprKind::ZstLiteral { user_ty: None });
    assert_eq!(project_expr(call(StaticTy::Other, zst)), Err(Fault::ZstCallNotTyFnDef));
    assert_eq!(project_expr(call(StaticTy::Other, other(3, ret()))), Err(Fault::RefCallNotTyFnPtr));
}

#[test]
fn a_callee_is_classified_by_its_type_alone() {
    // The type of a function names the callee, whatever the node is.
    let fun = scoped(2, Some((4, 4)), vec![attr(1)], other(3, ret()));
    let r = project_expr(call(StaticTy::FnDef(def("g")), fun));
    assert_eq!(r, Ok(static_call(node(Ty::Bool, 3, ExprKind::GlobalName { id: def("g") }))));
    // A closure is called through its value, like a function pointer.
    let r = project_expr(call(StaticTy::Closure, other(3, ret())));
    assert_eq!(r, Ok(projected_call(node(Ty::Bool, 3, ret()))));
    // A callee that is projected is projected like any node: its own faults are its own.
    let zst = raw(Ty::Str, StaticTy::FnPtr, 3, RawExprKind::ZstLiteral { user_ty: None });
    assert_eq!(project_expr(call(StaticTy::FnPtr, zst)), Err(Fault::ZstLiteralNotFnDef));
}

#[test]
fn projecting_under_a_given_node() {
    let r = project_under(other(3, ret()), span(1), Some((2, 3)), vec![attr(5)]);
    assert_eq!(
        r,
        Ok(Decorated {
            ty: Ty::Bool,
            span: span(3),
            contents: Box::new(ret()),
            hir_id: Some((2, 3)),
            attributes: vec![attr(5)],
        })
    );
}

#[test]
fn a_borrow_is_stripped_once() {
    let inner = node(Ty::Bool, 2, ret());
    let borrow = node(
        Ty::Char,
        1,
        ExprKind::Borrow { borrow_kind: BorrowKind::Shared, arg: node(Ty::Bool, 2, ret()) },
    );
    assert_eq!(borrow.unwrap_borrow(), inner);
    assert_eq!(node(Ty::Bool, 2, ret()).unwrap_borrow(), inner);
}

fn wild(line: usize) -> Pat {
    Decorated { ty: Ty::Bool, span: span(line), contents: Box::new(PatKind::Wild), hir_id: None, attributes: vec![] }
}

fn info() -> VariantInformations {
    VariantInformations {
        type_namespace: def("m"),
        typ: def("S"),
        variant: def("S"),
        typ_is_record: true,
        variant_is_record: true,
        typ_is_struct: true,
    }
}

fn sub(field: usize, field_def: Option<DefId>, line: usize) -> RawFieldPat {
    RawFieldPat { field, field_def, pattern: wild(line) }
}

#[test]
fn a_leaf_pattern_on_a_struct_is_a_variant_pattern() {
    let r = project_leaf_pattern(
        PatStaticTy::Adt { info: info(), substs: vec![] },
        vec![sub(1, Some(def("b")), 1), sub(0, Some(def("a")), 2)],
    );
    assert_eq!(
        r,
        Ok(PatKind::Variant {
            info: info(),
            substs: vec![],
            subpatterns: vec![
                FieldPat { field: def("b"), pattern: wild(1) },
                FieldPat { field: def("a"), pattern: wild(2) },
            ],
        })
    );
    let r = project_leaf_pattern(
        PatStaticTy::Adt { info: info(), substs: vec![] },
        vec![sub(1, Some(def("b")), 1), sub(0, None, 2)],
    );
    assert_eq!(r, Err(Fault::PatLeafUnknownField));
}

#[test]
fn a_leaf_pattern_on_a_tuple_is_a_tuple_pattern() {
    let r = project_leaf_pattern(PatStaticTy::Tuple, vec![sub(0, None, 1), sub(1, None, 2)]);
    assert_eq!(r, Ok(PatKind::Tuple { subpatterns: vec![wild(1), wild(2)] }));
    let r = project_leaf_pattern(PatStaticTy::Tuple, vec![]);
    assert_eq!(r, Ok(PatKind::Tuple { subpatterns: vec![] }));
}

#[test]
fn a_leaf_pattern_on_anything_else_is_a_fault() {
    assert_eq!(project_leaf_pattern(PatStaticTy::Other, vec![sub(0, None, 1)]), Err(Fault::PatLeafNonAdtTy));
    let r = project_pat(Ty::Char, PatStaticTy::Other, span(1), RawPatKind::Leaf { subpatterns: vec![] });
    assert_eq!(r, Err(Fault::PatLeafNonAdtTy));
}

#[test]
fn a_pattern_carries_no_attributes() {
    let r = project_pat(Ty::Char, PatStaticTy::Tuple, span(3), RawPatKind::Leaf { subpatterns: vec![sub(0, None, 1)] });
    assert_eq!(
        r,
        Ok(Decorated {
            ty: Ty::Char,
            span: span(3),
            contents: Box::new(PatKind::Tuple { subpatterns: vec![wild(1)] }),
            hir_id: None,
            attributes: vec![],
        })
    );
    let r = project_pat(Ty::Int(IntTy::I32), PatStaticTy::Other, span(3), RawPatKind::Other(PatKind::Wild));
    assert_eq!(
        r,
        Ok(Decorated {
            ty: Ty::Int(IntTy::I32),
            span: span(3),
            contents: Box::new(PatKind::Wild),
            hir_id: None,
            attributes: vec![],
        })
    );
}

#[test]
fn a_constructor_names_its_fields() {
    let fields = vec![
        RawFieldExpr { name: 1, field_def: Some(def("b")), value: node(Ty::Bool, 1, ret()) },
        RawFieldExpr { name: 0, field_def: Some(def("a")), value: node(Ty::Char, 2, ret()) },
    ];
    let r = project_adt_expr(info(), None, fields, None);
    assert_eq!(
        r,
        Ok(AdtExpr {
            info: info(),
            user_ty: None,
            fields: vec![
                FieldExpr { field: def("b"), value: node(Ty::Bool, 1, ret()) },
                FieldExpr { field: def("a"), value: node(Ty::Char, 2, ret()) },
            ],
            base: None,
        })
    );
    let fields = vec![RawFieldExpr { name: 1, field_def: None, value: node(Ty::Bool, 1, ret()) }];
    assert_eq!(project_adt_expr(info(), None, fields, None), Err(Fault::ExprKindFieldUnknown));
}

#[test]
fn reversing_a_list() {
    assert_eq!(reversed(vec![1, 2, 3]), vec![3, 2, 1]);
    assert_eq!(reversed(Vec::<u8>::new()), Vec::<u8>::new());
}

#[test]
fn a_local_variable_is_known_by_the_name_it_was_bound_under() {
    let mut ctx = LocalContextS::new();
    ctx.bind(4, "x".to_string());
    ctx.bind(5, "y".to_string());
    ctx.bind(4, "z".to_string());
    let id = || HirId { owner: def("f"), local_id: 2 };
    assert_eq!(local_ident(&ctx, 4, id()), Some(LocalIdent { name: "z".to_string(), id: id() }));
    assert_eq!(local_ident(&ctx, 5, id()), Some(LocalIdent { name: "y".to_string(), id: id() }));
    assert_eq!(local_ident(&ctx, 6, id()), None);
    assert_eq!(ctx.name_of(6), None);
}
