//! Projection of typed expressions and patterns: the nodes that exist only
//! for the compiler's bookkeeping are eliminated, and the nodes whose
//! meaning depends on a type are resolved by that type.
use crate::ident::DefId;
use crate::mir::place::FieldIdx;
use crate::mir::place::VariantIdx;
use crate::types::attr::Attribute;
use crate::types::attr::MacroInvokation;
use crate::types::span::Span;
use crate::types::span::Spanned;
use crate::types::thir::AdtExpr;
use crate::types::thir::Block;
use crate::types::thir::BlockSafety;
use crate::types::thir::Decorated;
use crate::types::thir::Expr;
use crate::types::thir::ExprKind;
use crate::types::thir::FieldExpr;
use crate::types::thir::FieldPat;
use crate::types::thir::FruInfo;
use crate::types::thir::HirId;
use crate::types::thir::LocalIdent;
use crate::types::thir::LitKind;
use crate::types::thir::Pat;
use crate::types::thir::PatKind;
use crate::types::thir::Scope;
use crate::types::thir::Stmt;
use crate::types::thir::VariantInformations;
use crate::types::ty::CanonicalUserType;
use crate::types::ty::GenericArg;
use crate::types::ty::Ty;
use crate::state::LocalContextS;
use crate::traits::resolve::ImplExpr;
use vstd::prelude::*;

verus! {

/// What projection reads of the static type of a node.
#[derive(Debug, PartialEq, Eq)]
pub enum StaticTy {
    /// The type of one function: it has a single value, which names the
    /// function.
    FnDef(DefId),
    FnPtr,
    Closure,
    /// Any other type.
    Other,
}

/// What a field access reads of the static type of its receiver.
#[derive(Debug, PartialEq, Eq)]
pub enum FieldReceiver {
    /// An algebraic data type; `field` is the definition of the field that
    /// is accessed.
    Adt { field: DefId },
    Tuple,
    /// A type that has no fields to access.
    Other,
}

/// A node whose shape contradicts its static type.
#[derive(Clone, Copy, Debug, PartialEq, Eq)]
pub enum Fault {
    /// A field access into a variant, other than the first, of an algebraic
    /// data type.
    ExprKindFieldIdxNonZero,
    /// A field access on a value that is neither of an algebraic data type
    /// nor a tuple.
    ExprKindFieldBadTy,
    /// A constructor that gives a value to a field that its variant lacks.
    ExprKindFieldUnknown,
    /// A zero-sized literal whose type is not that of a function.
    ZstLiteralNotFnDef,
    /// A call of a zero-sized literal whose type cannot be called.
    ZstCallNotTyFnDef,
    /// A call of a value whose type cannot be called.
    RefCallNotTyFnPtr,
    /// A leaf pattern on a value that is neither of an algebraic data type
    /// nor a tuple.
    PatLeafNonAdtTy,
    /// A leaf pattern on an algebraic data type that lacks a field.
    PatLeafUnknownField,
}

/// The identifier of a node relative to its owner: the owner's and its own
/// position.
pub type NodeId = (usize, usize);

/// An expression of the typed tree, before projection.
#[derive(Debug, PartialEq, Eq)]
pub struct RawExpr {
    /// The type of the expression.
    pub ty: Ty,
    /// What projection reads of that type.
    pub static_ty: StaticTy,
    pub span: Span,
    /// The macro invocation that the expression's span lies in, if any.
    pub macro_invocation: Option<MacroInvokation>,
    pub kind: Box<RawExprKind>,
}

/// A block of the typed tree, before projection.
#[derive(Debug, PartialEq, Eq)]
pub struct RawBlock {
    pub targeted_by_break: bool,
    pub region_scope: Scope,
    pub opt_destruction_scope: Option<Scope>,
    pub span: Span,
    pub stmts: Vec<Stmt>,
    pub expr: Option<RawExpr>,
    pub safety_mode: BlockSafety,
}

/// The kinds of expressions that projection does not map one to one.
#[derive(Debug, PartialEq, Eq)]
pub enum RawExprKind {
    /// A lexical scope around `value`. It has no meaning of its own; the
    /// identifier and attributes of the node it stands for come with it.
    Scope { hir_id: Option<NodeId>, attributes: Vec<Attribute>, value: RawExpr },
    /// A literal that the compiler made, given as the literal it denotes.
    NonHirLiteral { lit: LitKind },
    /// A value of a zero-sized type.
    ZstLiteral { user_ty: Option<CanonicalUserType> },
    /// A field access whose meaning depends on the type of `lhs`, which
    /// `receiver` tells as far as the access reads it.
    Field { lhs: RawExpr, variant_index: VariantIdx, name: FieldIdx, receiver: FieldReceiver },
    Block { block: RawBlock },
    /// A call; `callee_ty` is what projection reads of the type of `fun`,
    /// and `trait_refs` are the witnesses of the trait bounds that the
    /// function named by that type requires, in their order.
    Call {
        callee_ty: StaticTy,
        ty: Ty,
        fun: RawExpr,
        args: Vec<Expr>,
        from_hir_call: bool,
        fn_span: Span,
        trait_refs: Vec<ImplExpr>,
    },
    /// A kind that is not supported, with what it is.
    Unsupported { description: String },
    /// Any other kind, mapped one to one.
    Other(ExprKind),
}

/// The expression under the scopes around `e`.
pub open spec fn spec_unroll_scope(e: RawExpr) -> RawExpr
    decreases e,
{
    match *e.kind {
        RawExprKind::Scope { value, .. } => spec_unroll_scope(value),
        _ => e,
    }
}

/// The identifier and the attributes that `e` carries: those of its scope,
/// when it is one.
pub open spec fn spec_hir_id_and_attributes(e: RawExpr) -> (Option<NodeId>, Seq<Attribute>) {
    match *e.kind {
        RawExprKind::Scope { hir_id, attributes, .. } => (hir_id, attributes@),
        _ => (None, Seq::empty()),
    }
}

/// Whether a block stands for nothing but its trailing expression: no
/// statement, an expression, and default safety.
pub open spec fn spec_flattens(block: RawBlock) -> bool {
    &&& block.stmts@.len() == 0
    &&& block.expr.is_some()
    &&& block.safety_mode == BlockSafety::Safe
}

/// Whether a projected block stands for nothing but its trailing
/// expression: no statement, an expression, and default safety.
pub open spec fn spec_block_flattens(block: Block) -> bool {
    &&& block.stmts@.len() == 0
    &&& block.expr.is_some()
    &&& block.safety_mode == BlockSafety::Safe
}

/// Whether the contents of a node are a block that could still be
/// flattened.
pub open spec fn spec_eligible(k: ExprKind) -> bool {
    k matches ExprKind::Block { block } && spec_block_flattens(block)
}

/// The contents `k` with every block that stands for its trailing
/// expression, at the top, replaced by the contents of that expression.
pub open spec fn spec_flatten_kind(k: ExprKind) -> ExprKind
    decreases k,
{
    match k {
        ExprKind::Block { block } => match block.expr {
            Some(inner) => if spec_block_flattens(block) {
                spec_flatten_kind(*inner.contents)
            } else {
                k
            },
            None => k,
        },
        _ => k,
    }
}

/// Whether `x` is the node with these parts.
pub open spec fn is_node(
    x: Expr,
    ty: Ty,
    span: Span,
    contents: ExprKind,
    hir_id: Option<NodeId>,
    attributes: Seq<Attribute>,
) -> bool {
    &&& x.ty == ty
    &&& x.span == span
    &&& *x.contents == contents
    &&& x.hir_id == hir_id
    &&& x.attributes@ == attributes
}

/// The span of the node that the expression `u`, which is no scope,
/// becomes: that of the outermost node for a zero-sized literal that names a
/// function, its own otherwise.
pub open spec fn spec_node_span(u: RawExpr, outer_span: Span) -> Span {
    if u.macro_invocation.is_none() && *u.kind is ZstLiteral && u.static_ty is FnDef {
        outer_span
    } else {
        u.span
    }
}

/// Whether `r` is the projection of `e` as the node that was written at
/// `outer_span` and carries `hir_id` and `attributes`: the node has the type
/// of the expression under the scopes of `e`, and the contents that `e`
/// projects to.
pub open spec fn projects_under(
    e: RawExpr,
    outer_span: Span,
    hir_id: Option<NodeId>,
    attributes: Seq<Attribute>,
    r: Result<Expr, Fault>,
) -> bool
    decreases e, 1int,
{
    let u = spec_unroll_scope(e);
    match r {
        Ok(x) => {
            &&& x.ty == u.ty
            &&& x.span == spec_node_span(u, outer_span)
            &&& x.hir_id == hir_id
            &&& x.attributes@ == attributes
            &&& contents_of(e, Ok(*x.contents))
        },
        Err(f) => contents_of(e, Err(f)),
    }
}

/// Whether `r` is the projection of `e`: the node under the scopes of `e`,
/// resolved, with the identifier and the attributes of the outermost scope.
pub open spec fn projects_to(e: RawExpr, r: Result<Expr, Fault>) -> bool
    decreases e, 2int,
{
    projects_under(
        e,
        e.span,
        spec_hir_id_and_attributes(e).0,
        spec_hir_id_and_attributes(e).1,
        r,
    )
}

/// Whether `c` is what the expression `e` contains after projection, or the
/// fault that its projection ends in. Scopes are looked through. Then, in
/// this order:
/// - an expression inside a macro invocation becomes that invocation;
/// - a zero-sized literal becomes the name of the function that its type
///   names, and is a fault for any other type;
/// - a compiler-made literal becomes a literal;
/// - a field access becomes the access of a named field of an algebraic
///   data type, which must be in its first variant, or of a position of a
///   tuple, by the type of its receiver; it is a fault for any other type;
/// - a kind that is not supported becomes a `Todo` leaf with its
///   description, and is no fault;
/// - a block that stands for its trailing expression becomes what that
///   expression becomes; any other block stays a block;
/// - the callee of a call is resolved by its type alone: named for the
///   type of a function, and then the call carries the witnesses of the
///   trait bounds that the function requires; projected for a function
///   pointer or a closure, and then the call carries none;
/// - any other kind is kept, but for a block that stands for its trailing
///   expression, which is flattened like any other.
pub open spec fn contents_of(e: RawExpr, c: Result<ExprKind, Fault>) -> bool
    decreases e, 0int,
{
    match *e.kind {
        RawExprKind::Scope { value, .. } => contents_of(value, c),
        kind => if e.macro_invocation.is_some() {
            c == Ok::<ExprKind, Fault>(ExprKind::MacroInvokation(e.macro_invocation.unwrap()))
        } else {
            match kind {
                RawExprKind::ZstLiteral { .. } => match e.static_ty {
                    StaticTy::FnDef(def) => c == Ok::<ExprKind, Fault>(
                        ExprKind::GlobalName { id: def },
                    ),
                    _ => c == Err::<ExprKind, Fault>(Fault::ZstLiteralNotFnDef),
                },
                RawExprKind::NonHirLiteral { lit } => c == Ok::<ExprKind, Fault>(
                    ExprKind::Literal { lit: Spanned { node: lit, span: e.span }, neg: false },
                ),
                RawExprKind::Field { lhs, variant_index, name, receiver } => match receiver {
                    FieldReceiver::Adt { field } => if variant_index != 0 {
                        c == Err::<ExprKind, Fault>(Fault::ExprKindFieldIdxNonZero)
                    } else {
                        match c {
                            Ok(k) => k matches ExprKind::Field { field: f, lhs: l } && f == field
                                && projects_to(lhs, Ok(l)),
                            Err(f) => projects_to(lhs, Err(f)),
                        }
                    },
                    FieldReceiver::Tuple => match c {
                        Ok(k) => k matches ExprKind::TupleField { field: f, lhs: l } && f == name
                            && projects_to(lhs, Ok(l)),
                        Err(f) => projects_to(lhs, Err(f)),
                    },
                    FieldReceiver::Other => c == Err::<ExprKind, Fault>(Fault::ExprKindFieldBadTy),
                },
                RawExprKind::Unsupported { description } => c == Ok::<ExprKind, Fault>(
                    ExprKind::Todo(description),
                ),
                RawExprKind::Block { block } => {
                    if spec_flattens(block) {
                        contents_of(block.expr.unwrap(), c)
                    } else {
                        match c {
                            Ok(k) => {
                                &&& k matches ExprKind::Block { block: b }
                                &&& b.targeted_by_break == block.targeted_by_break
                                &&& b.region_scope == block.region_scope
                                &&& b.opt_destruction_scope == block.opt_destruction_scope
                                &&& b.span == block.span
                                &&& b.stmts == block.stmts
                                &&& b.safety_mode == block.safety_mode
                                &&& match block.expr {
                                    None => b.expr.is_none(),
                                    Some(inner) => b.expr.is_some() && projects_to(
                                        inner,
                                        Ok(b.expr.unwrap()),
                                    ),
                                }
                            },
                            Err(f) => block.expr.is_some() && projects_to(
                                block.expr.unwrap(),
                                Err(f),
                            ),
                        }
                    }
                },
                RawExprKind::Call {
                    callee_ty,
                    ty,
                    fun,
                    args,
                    from_hir_call,
                    fn_span,
                    trait_refs,
                } => {
                    match c {
                        Ok(k) => {
                            &&& k matches ExprKind::Call {
                                ty: t,
                                fun: g,
                                args: a,
                                from_hir_call: h,
                                fn_span: s,
                                trait_refs: w,
                            }
                            &&& t == ty
                            &&& a == args
                            &&& h == from_hir_call
                            &&& s == fn_span
                            &&& callee_of(fun, callee_ty, Ok(g))
                            &&& if callee_ty is FnDef {
                                w == trait_refs
                            } else {
                                w@.len() == 0
                            }
                        },
                        Err(f) => callee_of(fun, callee_ty, Err(f)),
                    }
                },
                RawExprKind::Other(k) => c == Ok::<ExprKind, Fault>(spec_flatten_kind(k)),
                RawExprKind::Scope { .. } => false,
            }
        },
    }
}

/// Whether `r` is the callee of a call whose callee node is `fun`, of a type
/// read as `callee_ty`. The callee is classified by its type alone:
/// - the type of one function names the callee, whatever the node is;
/// - a function pointer or a closure is a value like any other, and the node
///   is projected;
/// - any other type cannot be called, and is a fault.
pub open spec fn callee_of(fun: RawExpr, callee_ty: StaticTy, r: Result<Expr, Fault>) -> bool
    decreases fun, 3int,
{
    let f = spec_unroll_scope(fun);
    match callee_ty {
        StaticTy::FnDef(def) => r matches Ok(x) && is_node(
            x,
            f.ty,
            f.span,
            ExprKind::GlobalName { id: def },
            None,
            Seq::empty(),
        ),
        StaticTy::FnPtr | StaticTy::Closure => projects_under(
            fun,
            f.span,
            None,
            Seq::empty(),
            r,
        ),
        StaticTy::Other => if *f.kind is ZstLiteral {
            r == Err::<Expr, Fault>(Fault::ZstCallNotTyFnDef)
        } else {
            r == Err::<Expr, Fault>(Fault::RefCallNotTyFnPtr)
        },
    }
}

impl RawBlock {
    /// Decides `spec_flattens`.
    pub fn flattens(&self) -> (r: bool)
        ensures
            r == spec_flattens(*self),
    {
        let safe = match self.safety_mode {
            BlockSafety::Safe => true,
            _ => false,
        };
        self.stmts.len() == 0 && self.expr.is_some() && safe
    }
}

/// Flattens, at the top of the contents of a node, every block that stands
/// for its trailing expression: what is left is no such block.
pub fn flatten_kind(k: ExprKind) -> (r: ExprKind)
    ensures
        r == spec_flatten_kind(k),
        !spec_eligible(r),
    decreases k,
{
    match k {
        ExprKind::Block { block } => {
            let safe = match block.safety_mode {
                BlockSafety::Safe => true,
                _ => false,
            };
            if block.stmts.len() == 0 && safe {
                match block.expr {
                    Some(inner) => flatten_kind(*inner.contents),
                    None => ExprKind::Block {
                        block: Block {
                            targeted_by_break: block.targeted_by_break,
                            region_scope: block.region_scope,
                            opt_destruction_scope: block.opt_destruction_scope,
                            span: block.span,
                            stmts: block.stmts,
                            expr: None,
                            safety_mode: block.safety_mode,
                        },
                    },
                }
            } else {
                ExprKind::Block { block }
            }
        },
        other => other,
    }
}

impl RawExpr {
    /// The expression under the scopes around this one.
    pub fn unrolled(&self) -> (r: &RawExpr)
        ensures
            *r == spec_unroll_scope(*self),
        decreases self,
    {
        match &*self.kind {
            RawExprKind::Scope { value, .. } => value.unrolled(),
            _ => self,
        }
    }

    /// Removes the scopes around the expression. What is left is no scope.
    pub fn unroll_scope(self) -> (r: RawExpr)
        ensures
            r == spec_unroll_scope(self),
            !(*r.kind is Scope),
        decreases self,
    {
        match *self.kind {
            RawExprKind::Scope { value, .. } => value.unroll_scope(),
            kind => RawExpr {
                ty: self.ty,
                static_ty: self.static_ty,
                span: self.span,
                macro_invocation: self.macro_invocation,
                kind: Box::new(kind),
            },
        }
    }

    /// Takes the expression apart: the identifier and the attributes that it
    /// carries, which are those of its scope when it is one, and the
    /// expression under its scopes.
    pub fn hir_id_and_attributes(self) -> (r: (Option<NodeId>, Vec<Attribute>, RawExpr))
        ensures
            r.0 == spec_hir_id_and_attributes(self).0,
            r.1@ == spec_hir_id_and_attributes(self).1,
            r.2 == spec_unroll_scope(self),
    {
        match *self.kind {
            RawExprKind::Scope { hir_id, attributes, value } => (
                hir_id,
                attributes,
                value.unroll_scope(),
            ),
            kind => (
                None,
                Vec::new(),
                RawExpr {
                    ty: self.ty,
                    static_ty: self.static_ty,
                    span: self.span,
                    macro_invocation: self.macro_invocation,
                    kind: Box::new(kind),
                },
            ),
        }
    }
}

/// Projects an expression: looks through its scopes, keeps the identifier
/// and the attributes of the outermost one, and resolves the node under
/// them by its kind and its static type.
pub fn project_expr(e: RawExpr) -> (r: Result<Expr, Fault>)
    ensures
        projects_to(e, r),
    decreases e, 2int,
{
    let outer_span = e.span.clone();
    match *e.kind {
        RawExprKind::Scope { hir_id, attributes, value } => project_under(
            value,
            outer_span,
            hir_id,
            attributes,
        ),
        kind => project_under(
            RawExpr {
                ty: e.ty,
                static_ty: e.static_ty,
                span: e.span,
                macro_invocation: e.macro_invocation,
                kind: Box::new(kind),
            },
            outer_span,
            None,
            Vec::new(),
        ),
    }
}

/// Projects the expression `e` as the node that carries `hir_id` and
/// `attributes` and that was written at `outer_span`.
pub fn project_under(
    e: RawExpr,
    outer_span: Span,
    hir_id: Option<NodeId>,
    attributes: Vec<Attribute>,
) -> (r: Result<Expr, Fault>)
    ensures
        projects_under(e, outer_span, hir_id, attributes@, r),
    decreases e, 1int,
{
    let ghost node = e;
    proof {
        reveal_with_fuel(projects_under, 2);
        reveal_with_fuel(contents_of, 2);
    }
    match *e.kind {
        RawExprKind::Scope { value, .. } => project_under(value, outer_span, hir_id, attributes),
        kind => {
            assert(kind == *node.kind);
            if let Some(m) = e.macro_invocation {
                return Ok(
                    Decorated {
                        ty: e.ty,
                        span: e.span,
                        contents: Box::new(ExprKind::MacroInvokation(m)),
                        hir_id,
                        attributes,
                    },
                );
            }
            if let RawExprKind::ZstLiteral { .. } = &kind {
                return match e.static_ty {
                    StaticTy::FnDef(def) => Ok(
                        Decorated {
                            ty: e.ty,
                            span: outer_span,
                            contents: Box::new(ExprKind::GlobalName { id: def }),
                            hir_id,
                            attributes,
                        },
                    ),
                    _ => Err(Fault::ZstLiteralNotFnDef),
                };
            }
            let span = e.span;
            let contents = match kind {
                RawExprKind::NonHirLiteral { lit } => ExprKind::Literal {
                    lit: Spanned { node: lit, span: span.clone() },
                    neg: false,
                },
                RawExprKind::Field { lhs, variant_index, name, receiver } => match receiver {
                    FieldReceiver::Adt { field } => {
                        if variant_index != 0 {
                            return Err(Fault::ExprKindFieldIdxNonZero);
                        }
                        match project_expr(lhs) {
                            Ok(l) => ExprKind::Field { field, lhs: l },
                            Err(f) => {
                                return Err(f);
                            },
                        }
                    },
                    FieldReceiver::Tuple => match project_expr(lhs) {
                        Ok(l) => ExprKind::TupleField { field: name, lhs: l },
                        Err(f) => {
                            return Err(f);
                        },
                    },
                    FieldReceiver::Other => {
                        return Err(Fault::ExprKindFieldBadTy);
                    },
                },
                RawExprKind::Unsupported { description } => ExprKind::Todo(description),
                RawExprKind::Block { block } => {
                    if block.flattens() {
                        match project_expr(block.expr.unwrap()) {
                            Ok(x) => *x.contents,
                            Err(f) => {
                                return Err(f);
                            },
                        }
                    } else {
                        let expr = match block.expr {
                            None => None,
                            Some(inner) => match project_expr(inner) {
                                Ok(x) => Some(x),
                                Err(f) => {
                                    return Err(f);
                                },
                            },
                        };
                        ExprKind::Block {
                            block: Block {
                                targeted_by_break: block.targeted_by_break,
                                region_scope: block.region_scope,
                                opt_destruction_scope: block.opt_destruction_scope,
                                span: block.span,
                                stmts: block.stmts,
                                expr,
                                safety_mode: block.safety_mode,
                            },
                        }
                    }
                },
                RawExprKind::Call {
                    callee_ty,
                    ty,
                    fun,
                    args,
                    from_hir_call,
                    fn_span,
                    trait_refs,
                } => {
                    let is_static = match &callee_ty {
                        StaticTy::FnDef(_) => true,
                        _ => false,
                    };
                    let witnesses = if is_static {
                        trait_refs
                    } else {
                        Vec::new()
                    };
                    match project_callee(fun, callee_ty) {
                        Ok(g) => ExprKind::Call {
                            ty,
                            fun: g,
                            args,
                            from_hir_call,
                            fn_span,
                            trait_refs: witnesses,
                        },
                        Err(f) => {
                            return Err(f);
                        },
                    }
                },
                RawExprKind::Other(k) => flatten_kind(k),
                // Scopes and zero-sized literals were dealt with above.
                _ => {
                    assert(false);
                    return Err(Fault::ZstLiteralNotFnDef);
                },
            };
            Ok(Decorated { ty: e.ty, span, contents: Box::new(contents), hir_id, attributes })
        },
    }
}

/// Projects the callee of a call. A callee whose type is that of one
/// function is referred to by name; a callee of a function pointer's or a
/// closure's type is a value like any other; a callee of any other type is a
/// fault.
pub fn project_callee(fun: RawExpr, callee_ty: StaticTy) -> (r: Result<Expr, Fault>)
    ensures
        callee_of(fun, callee_ty, r),
    decreases fun, 3int,
{
    match callee_ty {
        StaticTy::FnDef(def) => {
            let f = fun.unroll_scope();
            Ok(
                Decorated {
                    ty: f.ty,
                    span: f.span,
                    contents: Box::new(ExprKind::GlobalName { id: def }),
                    hir_id: None,
                    attributes: Vec::new(),
                },
            )
        },
        StaticTy::FnPtr | StaticTy::Closure => {
            let span = fun.unrolled().span.clone();
            project_under(fun, span, None, Vec::new())
        },
        StaticTy::Other => {
            let is_zst = match &*fun.unrolled().kind {
                RawExprKind::ZstLiteral { .. } => true,
                _ => false,
            };
            if is_zst {
                Err(Fault::ZstCallNotTyFnDef)
            } else {
                Err(Fault::RefCallNotTyFnPtr)
            }
        },
    }
}

/// Unrolling scopes twice is unrolling them once: what is left is no scope.
pub proof fn lemma_unroll_scope_idempotent(e: RawExpr)
    ensures
        !(*spec_unroll_scope(e).kind is Scope),
        spec_unroll_scope(spec_unroll_scope(e)) == spec_unroll_scope(e),
    decreases e,
{
    match *e.kind {
        RawExprKind::Scope { value, .. } => {
            lemma_unroll_scope_idempotent(value);
        },
        _ => {},
    }
}

/// A projected node, seen again as an expression to project: its contents
/// as they are, under a scope that carries its identifier and attributes.
pub open spec fn spec_reinject(x: Expr, static_ty: StaticTy) -> RawExpr {
    RawExpr {
        ty: x.ty,
        static_ty,
        span: x.span,
        macro_invocation: None,
        kind: Box::new(
            RawExprKind::Scope {
                hir_id: x.hir_id,
                attributes: x.attributes,
                value: RawExpr {
                    ty: x.ty,
                    static_ty,
                    span: x.span,
                    macro_invocation: None,
                    kind: Box::new(RawExprKind::Other(*x.contents)),
                },
            },
        ),
    }
}

/// What is flattened is no block that could still be flattened, and
/// contents that are no such block are left as they are.
pub proof fn lemma_flatten_kind_eliminated(k: ExprKind)
    ensures
        !spec_eligible(spec_flatten_kind(k)),
        !spec_eligible(k) ==> spec_flatten_kind(k) == k,
    decreases k,
{
    match k {
        ExprKind::Block { block } => match block.expr {
            Some(inner) => {
                if spec_block_flattens(block) {
                    lemma_flatten_kind_eliminated(*inner.contents);
                }
            },
            None => {},
        },
        _ => {},
    }
}

/// No block that comes out of projection can still be flattened: the
/// contents of a projected node are never a block without a statement, with
/// a trailing expression and of default safety.
pub proof fn lemma_contents_eliminated(e: RawExpr, k: ExprKind)
    requires
        contents_of(e, Ok(k)),
    ensures
        !spec_eligible(k),
    decreases e,
{
    match *e.kind {
        RawExprKind::Scope { value, .. } => {
            lemma_contents_eliminated(value, k);
        },
        kind => {
            if e.macro_invocation.is_none() {
                match kind {
                    RawExprKind::Block { block } => {
                        if spec_flattens(block) {
                            lemma_contents_eliminated(block.expr.unwrap(), k);
                        }
                    },
                    RawExprKind::Other(inner) => {
                        lemma_flatten_kind_eliminated(inner);
                    },
                    _ => {},
                }
            }
        },
    }
}

/// A projected node holds no block that could still be flattened.
pub proof fn lemma_projected_is_eliminated(e: RawExpr, x: Expr)
    requires
        projects_to(e, Ok(x)),
    ensures
        !spec_eligible(*x.contents),
{
    lemma_contents_eliminated(e, *x.contents);
}

/// Projecting a node that holds no block to flatten, and no scope to look
/// through, changes nothing: the node comes out with the type, span,
/// contents, identifier and attributes it went in with.
pub proof fn lemma_projection_idempotent(x: Expr, static_ty: StaticTy, r: Result<Expr, Fault>)
    requires
        !spec_eligible(*x.contents),
        projects_to(spec_reinject(x, static_ty), r),
    ensures
        r.is_ok(),
        is_node(r.unwrap(), x.ty, x.span, *x.contents, x.hir_id, x.attributes@),
{
    let raw = spec_reinject(x, static_ty);
    let inner = (*raw.kind)->Scope_value;
    lemma_flatten_kind_eliminated(*x.contents);
    assert(spec_unroll_scope(inner) == inner);
    assert(spec_unroll_scope(raw) == inner);
    assert forall|c: Result<ExprKind, Fault>| contents_of(raw, c) implies c == Ok::<
        ExprKind,
        Fault,
    >(*x.contents) by {
        assert(contents_of(inner, c));
    }
    match r {
        Ok(y) => {
            assert(contents_of(raw, Ok(*y.contents)));
        },
        Err(f) => {
            assert(contents_of(raw, Err(f)));
        },
    }
}

/// Projection is idempotent: projecting again what projection gave unwraps
/// nothing further, and gives the same node.
pub proof fn lemma_reprojection_is_noop(
    e: RawExpr,
    x: Expr,
    static_ty: StaticTy,
    r: Result<Expr, Fault>,
)
    requires
        projects_to(e, Ok(x)),
        projects_to(spec_reinject(x, static_ty), r),
    ensures
        r.is_ok(),
        is_node(r.unwrap(), x.ty, x.span, *x.contents, x.hir_id, x.attributes@),
{
    lemma_projected_is_eliminated(e, x);
    lemma_projection_idempotent(x, static_ty, r);
}

/// A field access is resolved for exactly the receivers that have fields.
/// For a receiver of a tuple, and for a receiver of an algebraic data type
/// accessed in its first variant, the access itself is never a fault: it
/// gives the position or the named field, and a fault can only come from
/// projecting the receiver. For a receiver of any other type, the access is
/// always the fault `ExprKindFieldBadTy`.
pub proof fn lemma_field_disambiguation_total(e: RawExpr, c: Result<ExprKind, Fault>)
    requires
        e.macro_invocation.is_none(),
        *e.kind is Field,
        contents_of(e, c),
    ensures
        ({
            let lhs = (*e.kind)->Field_lhs;
            match (*e.kind)->Field_receiver {
                FieldReceiver::Adt { field } => (*e.kind)->Field_variant_index == 0 ==> match c {
                    Ok(k) => k matches ExprKind::Field { field: f, .. } && f == field,
                    Err(f) => projects_to(lhs, Err(f)),
                },
                FieldReceiver::Tuple => match c {
                    Ok(k) => k matches ExprKind::TupleField { field: f, .. } && f
                        == (*e.kind)->Field_name,
                    Err(f) => projects_to(lhs, Err(f)),
                },
                FieldReceiver::Other => c == Err::<ExprKind, Fault>(Fault::ExprKindFieldBadTy),
            }
        }),
{
}

impl Decorated<ExprKind> {
    /// The expression that a borrow borrows, or the expression itself when
    /// it is no borrow.
    pub open spec fn spec_unwrap_borrow(self) -> Expr {
        match *self.contents {
            ExprKind::Borrow { arg, .. } => arg,
            _ => self,
        }
    }

    /// Strips one borrow off the expression, if it is a borrow.
    pub fn unwrap_borrow(self) -> (r: Expr)
        ensures
            r == self.spec_unwrap_borrow(),
    {
        match *self.contents {
            ExprKind::Borrow { arg, .. } => arg,
            contents => Decorated {
                ty: self.ty,
                span: self.span,
                contents: Box::new(contents),
                hir_id: self.hir_id,
                attributes: self.attributes,
            },
        }
    }
}

/// What the projection of patterns reads of the static type of a pattern.
#[derive(Debug, PartialEq, Eq)]
pub enum PatStaticTy {
    /// An algebraic data type: what is known of its first variant, and its
    /// generic arguments.
    Adt { info: VariantInformations, substs: Vec<GenericArg> },
    Tuple,
    /// Any other type.
    Other,
}

/// A pattern for one field of a leaf pattern.
#[derive(Debug, PartialEq, Eq)]
pub struct RawFieldPat {
    /// The position of the field.
    pub field: FieldIdx,
    /// The definition of the field, where the type of the pattern has one
    /// at that position.
    pub field_def: Option<DefId>,
    pub pattern: Pat,
}

/// The elements of `v` from last to first.
pub fn reversed<T>(v: Vec<T>) -> (r: Vec<T>)
    ensures
        r@.len() == v@.len(),
        forall|i: int| 0 <= i < v@.len() ==> r@[i] == v@[v@.len() - 1 - i],
{
    let mut rest = v;
    let mut out: Vec<T> = Vec::new();
    while rest.len() > 0
        invariant
            rest@.len() + out@.len() == v@.len(),
            forall|i: int| 0 <= i < rest@.len() ==> rest@[i] == v@[i],
            forall|i: int| 0 <= i < out@.len() ==> out@[i] == v@[v@.len() - 1 - i],
        decreases rest@.len(),
    {
        let x = rest.pop().unwrap();
        out.push(x);
    }
    out
}

/// Whether every field of a leaf pattern has a definition.
pub open spec fn all_fields_known(subpatterns: Seq<RawFieldPat>) -> bool {
    forall|i: int| 0 <= i < subpatterns.len() ==> (#[trigger] subpatterns[i]).field_def.is_some()
}

/// Whether `r` is what a leaf pattern with `subpatterns`, on a value of a
/// type read as `ty`, becomes: the pattern of the first variant of an
/// algebraic data type, with each subpattern on the definition of its field;
/// a tuple pattern, with the subpatterns in order; a fault for any other
/// type.
pub open spec fn leaf_projects_to(
    ty: PatStaticTy,
    subpatterns: Seq<RawFieldPat>,
    r: Result<PatKind, Fault>,
) -> bool {
    match ty {
        PatStaticTy::Adt { info, substs } => {
            if all_fields_known(subpatterns) {
                &&& r matches Ok(PatKind::Variant { info: i, substs: s, subpatterns: p })
                &&& i == info
                &&& s == substs
                &&& p@.len() == subpatterns.len()
                &&& forall|k: int|
                    0 <= k < subpatterns.len() ==> (#[trigger] p@[k]) == (FieldPat {
                        field: subpatterns[k].field_def.unwrap(),
                        pattern: subpatterns[k].pattern,
                    })
            } else {
                r == Err::<PatKind, Fault>(Fault::PatLeafUnknownField)
            }
        },
        PatStaticTy::Tuple => {
            &&& r matches Ok(PatKind::Tuple { subpatterns: p })
            &&& p@.len() == subpatterns.len()
            &&& forall|k: int|
                0 <= k < subpatterns.len() ==> (#[trigger] p@[k]) == subpatterns[k].pattern
        },
        PatStaticTy::Other => r == Err::<PatKind, Fault>(Fault::PatLeafNonAdtTy),
    }
}

/// Resolves a leaf pattern by the static type of the value it matches.
pub fn project_leaf_pattern(ty: PatStaticTy, subpatterns: Vec<RawFieldPat>) -> (r: Result<
    PatKind,
    Fault,
>)
    ensures
        leaf_projects_to(ty, subpatterns@, r),
{
    match ty {
        PatStaticTy::Adt { info, substs } => {
            let n = subpatterns.len();
            let mut rest = reversed(subpatterns);
            let mut out: Vec<FieldPat> = Vec::new();
            while rest.len() > 0
                invariant
                    ty is Adt,
                    n == subpatterns@.len(),
                    rest@.len() + out@.len() == n,
                    forall|i: int|
                        0 <= i < rest@.len() ==> rest@[i] == subpatterns@[n - 1 - i],
                    forall|k: int|
                        0 <= k < out@.len() ==> (#[trigger] subpatterns@[k]).field_def.is_some(),
                    forall|k: int|
                        0 <= k < out@.len() ==> (#[trigger] out@[k]) == (FieldPat {
                            field: subpatterns@[k].field_def.unwrap(),
                            pattern: subpatterns@[k].pattern,
                        }),
                decreases rest@.len(),
            {
                let ghost k = out@.len() as int;
                let sub = rest.pop().unwrap();
                assert(sub == subpatterns@[k]);
                match sub.field_def {
                    None => {
                        assert(subpatterns@[k].field_def.is_none());
                        return Err(Fault::PatLeafUnknownField);
                    },
                    Some(def) => {
                        out.push(FieldPat { field: def, pattern: sub.pattern });
                    },
                }
            }
            Ok(PatKind::Variant { info, substs, subpatterns: out })
        },
        PatStaticTy::Tuple => {
            let n = subpatterns.len();
            let mut rest = reversed(subpatterns);
            let mut out: Vec<Pat> = Vec::new();
            while rest.len() > 0
                invariant
                    n == subpatterns@.len(),
                    rest@.len() + out@.len() == n,
                    forall|i: int|
                        0 <= i < rest@.len() ==> rest@[i] == subpatterns@[n - 1 - i],
                    forall|k: int|
                        0 <= k < out@.len() ==> (#[trigger] out@[k]) == subpatterns@[k].pattern,
                decreases rest@.len(),
            {
                let ghost k = out@.len() as int;
                let sub = rest.pop().unwrap();
                assert(sub == subpatterns@[k]);
                out.push(sub.pattern);
            }
            Ok(PatKind::Tuple { subpatterns: out })
        },
        PatStaticTy::Other => Err(Fault::PatLeafNonAdtTy),
    }
}

/// The kinds of patterns that projection does not map one to one.
#[derive(Debug, PartialEq, Eq)]
pub enum RawPatKind {
    /// A pattern on the fields of the only shape that its type has.
    Leaf { subpatterns: Vec<RawFieldPat> },
    /// Any other kind, mapped one to one.
    Other(PatKind),
}

/// Projects a pattern of type `ty`, read as `static_ty`, written at `span`.
/// A leaf pattern is resolved by the type; any other kind is kept. A
/// pattern carries no identifier and no attributes.
pub fn project_pat(ty: Ty, static_ty: PatStaticTy, span: Span, kind: RawPatKind) -> (r: Result<
    Pat,
    Fault,
>)
    ensures
        match kind {
            RawPatKind::Leaf { subpatterns } => match r {
                Ok(p) => leaf_projects_to(static_ty, subpatterns@, Ok(*p.contents)),
                Err(f) => leaf_projects_to(static_ty, subpatterns@, Err(f)),
            },
            RawPatKind::Other(k) => r.is_ok() && *r.unwrap().contents == k,
        },
        r matches Ok(p) ==> p.ty == ty && p.span == span && p.hir_id.is_none()
            && p.attributes@.len() == 0,
{
    let contents = match kind {
        RawPatKind::Leaf { subpatterns } => match project_leaf_pattern(static_ty, subpatterns) {
            Ok(k) => k,
            Err(f) => {
                return Err(f);
            },
        },
        RawPatKind::Other(k) => k,
    };
    Ok(Decorated { ty, span, contents: Box::new(contents), hir_id: None, attributes: Vec::new() })
}

/// The value given to one field of a constructor.
#[derive(Debug, PartialEq, Eq)]
pub struct RawFieldExpr {
    /// The position of the field.
    pub name: FieldIdx,
    /// The definition of the field, where the variant has one at that
    /// position.
    pub field_def: Option<DefId>,
    pub value: Expr,
}

/// Whether every field of a constructor has a definition.
pub open spec fn all_field_values_known(fields: Seq<RawFieldExpr>) -> bool {
    forall|i: int| 0 <= i < fields.len() ==> (#[trigger] fields[i]).field_def.is_some()
}

/// Whether `r` is the constructor expression of the variant described by
/// `info` with the given fields: each value on the definition of its field,
/// in order; a fault when the variant lacks one of the fields.
pub open spec fn adt_projects_to(
    info: VariantInformations,
    user_ty: Option<CanonicalUserType>,
    fields: Seq<RawFieldExpr>,
    base: Option<FruInfo>,
    r: Result<AdtExpr, Fault>,
) -> bool {
    if all_field_values_known(fields) {
        &&& r matches Ok(a)
        &&& a.info == info
        &&& a.user_ty == user_ty
        &&& a.base == base
        &&& a.fields@.len() == fields.len()
        &&& forall|k: int|
            0 <= k < fields.len() ==> (#[trigger] a.fields@[k]) == (FieldExpr {
                field: fields[k].field_def.unwrap(),
                value: fields[k].value,
            })
    } else {
        r == Err::<AdtExpr, Fault>(Fault::ExprKindFieldUnknown)
    }
}

/// Builds a constructor expression: names each field by its definition.
pub fn project_adt_expr(
    info: VariantInformations,
    user_ty: Option<CanonicalUserType>,
    fields: Vec<RawFieldExpr>,
    base: Option<FruInfo>,
) -> (r: Result<AdtExpr, Fault>)
    ensures
        adt_projects_to(info, user_ty, fields@, base, r),
{
    let n = fields.len();
    let mut rest = reversed(fields);
    let mut out: Vec<FieldExpr> = Vec::new();
    while rest.len() > 0
        invariant
            n == fields@.len(),
            rest@.len() + out@.len() == n,
            forall|i: int| 0 <= i < rest@.len() ==> rest@[i] == fields@[n - 1 - i],
            forall|k: int| 0 <= k < out@.len() ==> (#[trigger] fields@[k]).field_def.is_some(),
            forall|k: int|
                0 <= k < out@.len() ==> (#[trigger] out@[k]) == (FieldExpr {
                    field: fields@[k].field_def.unwrap(),
                    value: fields@[k].value,
                }),
        decreases rest@.len(),
    {
        let ghost k = out@.len() as int;
        let f = rest.pop().unwrap();
        assert(f == fields@[k]);
        match f.field_def {
            None => {
                assert(fields@[k].field_def.is_none());
                return Err(Fault::ExprKindFieldUnknown);
            },
            Some(def) => {
                out.push(FieldExpr { field: def, value: f.value });
            },
        }
    }
    Ok(AdtExpr { info, user_ty, fields: out, base })
}

/// The identifier of a local variable: the name under which the variable
/// was bound, with the node that binds it. `None` for a variable that was
/// never bound.
pub fn local_ident(ctx: &LocalContextS, var: usize, id: HirId) -> (r: Option<LocalIdent>)
    ensures
        match r {
            Some(ident) => ctx.vars@.contains_key(var) && ident.name == ctx.vars@[var]
                && ident.id == id,
            None => !ctx.vars@.contains_key(var),
        },
{
    match ctx.name_of(var) {
        Some(name) => Some(LocalIdent { name, id }),
        None => None,
    }
}

} // verus!
