//! Expressions, patterns and statements of the typed tree.
use crate::ident::DefId;
use crate::ident::GlobalIdent;
use crate::ident::Symbol;
use crate::traits::resolve::ImplExpr;
use crate::types::attr::Attribute;
use crate::types::attr::MacroInvokation;
use crate::types::span::Span;
use crate::types::span::Spanned;
use crate::types::ty::CanonicalUserType;
use crate::types::ty::CanonicalUserTypeAnnotation;
use crate::types::ty::ConstantExpr;
use crate::types::ty::FloatTy;
use crate::types::ty::GenericArg;
use crate::types::ty::IntTy;
use crate::types::ty::Movability;
use crate::types::ty::Mutability;
use crate::types::ty::ParamConst;
use crate::types::ty::Ty;
use crate::types::ty::UintTy;
use crate::types::ty::Unsafety;
use crate::types::ty::Variance;
use vstd::prelude::*;

verus! {

pub type ItemLocalId = usize;

pub type FirstStatementIndex = usize;

pub type Pat = Decorated<PatKind>;

pub type Expr = Decorated<ExprKind>;

/// The body of a function or a constant.
pub type Body = Expr;

pub type ThirBody = Expr;

#[derive(Clone, Copy, Debug, PartialEq, Eq)]
pub enum LogicalOp {
    And,
    Or,
}

/// Where the lint level of a node comes from.
#[derive(Clone, Debug, PartialEq, Eq)]
pub enum LintLevel {
    Inherited,
    Explicit(HirId),
}

/// A node of the tree: its contents with its type, its span, its identifier relative to
/// its owner, and its attributes.
#[derive(Debug, PartialEq, Eq)]
pub struct Decorated<T> {
    pub ty: Ty,
    pub span: Span,
    pub contents: Box<T>,
    pub hir_id: Option<(usize, usize)>,
    pub attributes: Vec<Attribute>,
}

#[derive(Clone, Copy, Debug, PartialEq, Eq)]
pub enum UnOp {
    Not,
    Neg,
}

#[derive(Clone, Copy, Debug, PartialEq, Eq)]
pub enum BinOp {
    Add,
    Sub,
    Mul,
    Div,
    Rem,
    BitXor,
    BitAnd,
    BitOr,
    Shl,
    Shr,
    Eq,
    Lt,
    Le,
    Ne,
    Ge,
    Gt,
    Offset,
}

#[derive(Clone, Debug, PartialEq, Eq)]
pub enum ScopeData {
    Node,
    CallSite,
    Arguments,
    Destruction,
    IfThen,
    Remainder(FirstStatementIndex),
}

/// A lexical scope, by the node it belongs to and its kind.
#[derive(Clone, Debug, PartialEq, Eq)]
pub struct Scope {
    pub id: ItemLocalId,
    pub data: ScopeData,
}

/// The identifier of a node: its owner, and its position under the owner.
#[derive(Clone, Debug, PartialEq, Eq)]
pub struct HirId {
    pub owner: DefId,
    pub local_id: usize,
}

#[derive(Clone, Debug, PartialEq, Eq)]
pub enum LitFloatType {
    Suffixed(FloatTy),
    Unsuffixed,
}

#[derive(Clone, Debug, PartialEq, Eq)]
pub enum LitIntType {
    Signed(IntTy),
    Unsigned(UintTy),
    Unsuffixed,
}

/// The rest of a constructor: `Constructor { .., ..base }`.
#[derive(Debug, PartialEq, Eq)]
pub struct FruInfo {
    pub base: Expr,
    pub field_types: Vec<Ty>,
}

/// The value given to a field.
#[derive(Debug, PartialEq, Eq)]
pub struct FieldExpr {
    pub field: DefId,
    pub value: Expr,
}

/// The pattern for a field.
#[derive(Debug, PartialEq, Eq)]
pub struct FieldPat {
    pub field: DefId,
    pub pattern: Pat,
}

/// A local variable: its name and the node that binds it.
#[derive(Clone, Debug, PartialEq, Eq)]
pub struct LocalIdent {
    pub name: String,
    pub id: HirId,
}

/// Whether a block is safe, and if not, who made it unsafe.
#[derive(Clone, Copy, Debug, PartialEq, Eq)]
pub enum BlockSafety {
    Safe,
    BuiltinUnsafe,
    ExplicitUnsafe,
}

/// A block: statements, then, maybe, an expression.
#[derive(Debug, PartialEq, Eq)]
pub struct Block {
    pub targeted_by_break: bool,
    pub region_scope: Scope,
    pub opt_destruction_scope: Option<Scope>,
    pub span: Span,
    pub stmts: Vec<Stmt>,
    pub expr: Option<Expr>,
    pub safety_mode: BlockSafety,
}

/// Whether a binding takes the value or a reference to it.
#[derive(Clone, Debug, PartialEq, Eq)]
pub enum BindingMode {
    ByValue,
    ByRef(BorrowKind),
}

/// A statement.
#[derive(Debug, PartialEq, Eq)]
pub struct Stmt {
    pub kind: StmtKind,
    pub opt_destruction_scope: Option<Scope>,
}

/// An expression used as a statement, or a `let`.
#[derive(Debug, PartialEq, Eq)]
pub enum StmtKind {
    Expr {
        scope: Scope,
        expr: Expr,
    },
    Let {
        remainder_scope: Scope,
        init_scope: Scope,
        pattern: Pat,
        initializer: Option<Expr>,
        else_block: Option<Block>,
        lint_level: LintLevel,
        attributes: Vec<Attribute>,
    },
}

#[derive(Debug, PartialEq, Eq)]
pub struct Ascription {
    pub annotation: CanonicalUserTypeAnnotation,
    pub variance: Variance,
}

#[derive(Clone, Copy, Debug, PartialEq, Eq)]
pub enum RangeEnd {
    Included,
    Excluded,
}

#[derive(Debug, PartialEq, Eq)]
pub struct PatRange {
    pub lo: ConstantExpr,
    pub hi: ConstantExpr,
    pub end: RangeEnd,
}

/// What is known of a variant and of the type it belongs to.
#[derive(Clone, Debug, PartialEq, Eq)]
pub struct VariantInformations {
    pub type_namespace: DefId,

    pub typ: DefId,
    pub variant: DefId,

    pub typ_is_record: bool,
    pub variant_is_record: bool,
    pub typ_is_struct: bool,
}

/// The construction of a value of an algebraic data type.
#[derive(Debug, PartialEq, Eq)]
pub struct AdtExpr {
    pub info: VariantInformations,
    pub user_ty: Option<CanonicalUserType>,
    pub fields: Vec<FieldExpr>,
    pub base: Option<FruInfo>,
}

/// The kinds of patterns. Leaf patterns do not occur: projection resolves them by their type.
#[derive(Debug, PartialEq, Eq)]
pub enum PatKind {
    Wild,
    AscribeUserType {
        ascription: Ascription,
        subpattern: Pat,
    },
    Binding {
        mutability: Mutability,
        mode: BindingMode,
        var: LocalIdent,
        ty: Ty,
        subpattern: Option<Pat>,
        is_primary: bool,
    },
    Variant {
        info: VariantInformations,
        substs: Vec<GenericArg>,
        subpatterns: Vec<FieldPat>,
    },
    Tuple {
        subpatterns: Vec<Pat>,
    },
    Deref {
        subpattern: Pat,
    },
    Constant {
        value: ConstantExpr,
    },
    Range(PatRange),
    Slice {
        prefix: Vec<Pat>,
        slice: Option<Pat>,
        suffix: Vec<Pat>,
    },
    Array {
        prefix: Vec<Pat>,
        slice: Option<Pat>,
        suffix: Vec<Pat>,
    },
    Or {
        pats: Vec<Pat>,
    },
}

/// The guard of an arm.
#[derive(Debug, PartialEq, Eq)]
pub enum Guard {
    If(Expr),
    IfLet(Pat, Expr),
}

/// An arm of a `match`.
#[derive(Debug, PartialEq, Eq)]
pub struct Arm {
    pub pattern: Pat,
    pub guard: Option<Guard>,
    pub body: Expr,
    pub lint_level: LintLevel,
    pub scope: Scope,
    pub span: Span,
    pub attributes: Vec<Attribute>,
}

/// The casts between pointers.
#[derive(Clone, Debug, PartialEq, Eq)]
pub enum PointerCast {
    ReifyFnPointer,
    UnsafeFnPointer,
    ClosureFnPointer(Unsafety),
    MutToConstPointer,
    ArrayToPointer,
    Unsize,
}

/// The kinds of borrows.
#[derive(Clone, Debug, PartialEq, Eq)]
pub enum BorrowKind {
    Shared,
    Shallow,
    Unique,
    Mut { allow_two_phase_borrow: bool },
}

#[derive(Clone, Debug, PartialEq, Eq)]
pub enum StrStyle {
    Cooked,
    Raw(u8),
}

/// A literal.
#[derive(Clone, Debug, PartialEq, Eq)]
pub enum LitKind {
    Str(Symbol, StrStyle),
    ByteStr(Vec<u8>, StrStyle),
    CStr(Vec<u8>, StrStyle),
    Byte(u8),
    Char(char),
    Int(u128, LitIntType),
    Float(Symbol, LitFloatType),
    Bool(bool),
    Error,
}

#[derive(Clone, Copy, Debug, PartialEq, Eq)]
pub enum ImplicitSelfKind {
    Imm,
    Mut,
    ImmRef,
    MutRef,
    NoSelf,
}

/// A parameter of a function.
#[derive(Debug, PartialEq, Eq)]
pub struct Param {
    pub pat: Option<Pat>,
    pub ty: Ty,
    pub ty_span: Option<Span>,
    pub self_kind: Option<ImplicitSelfKind>,
    pub hir_id: Option<HirId>,
    pub attributes: Vec<Attribute>,
}

/// The kinds of expressions. Scopes, compiler-made literals and field accesses that are not
/// resolved by a type do not occur: projection eliminates them.
#[derive(Debug, PartialEq, Eq)]
pub enum ExprKind {
    Box {
        value: Expr,
    },
    MacroInvokation(MacroInvokation),
    If {
        if_then_scope: Scope,
        cond: Expr,
        then: Expr,
        else_opt: Option<Expr>,
    },
    Call {
        ty: Ty,
        fun: Expr,
        args: Vec<Expr>,
        from_hir_call: bool,
        fn_span: Span,
        /// The witnesses of the trait bounds that the callee requires, when
        /// the callee is a known function; none for a call through a value.
        trait_refs: Vec<ImplExpr>,
    },
    Deref {
        arg: Expr,
    },
    Binary {
        op: BinOp,
        lhs: Expr,
        rhs: Expr,
    },
    LogicalOp {
        op: LogicalOp,
        lhs: Expr,
        rhs: Expr,
    },
    Unary {
        op: UnOp,
        arg: Expr,
    },
    Cast {
        source: Expr,
    },
    Use {
        source: Expr,
    },
    NeverToAny {
        source: Expr,
    },
    Pointer {
        cast: PointerCast,
        source: Expr,
    },
    Loop {
        body: Expr,
    },
    Match {
        scrutinee: Expr,
        arms: Vec<Arm>,
    },
    Let {
        expr: Expr,
        pat: Pat,
    },
    Block {
        block: Block,
    },
    Assign {
        lhs: Expr,
        rhs: Expr,
    },
    AssignOp {
        op: BinOp,
        lhs: Expr,
        rhs: Expr,
    },
    Field {
        field: DefId,
        lhs: Expr,
    },

    TupleField {
        field: usize,
        lhs: Expr,
    },
    Index {
        lhs: Expr,
        index: Expr,
    },
    VarRef {
        id: LocalIdent,
    },
    ConstRef {
        id: ParamConst,
    },
    GlobalName {
        id: GlobalIdent,
    },
    UpvarRef {
        closure_def_id: DefId,
        var_hir_id: LocalIdent,
    },
    Borrow {
        borrow_kind: BorrowKind,
        arg: Expr,
    },
    AddressOf {
        mutability: Mutability,
        arg: Expr,
    },
    Break {
        label: Scope,
        value: Option<Expr>,
    },
    Continue {
        label: Scope,
    },
    Return {
        value: Option<Expr>,
    },
    ConstBlock {
        did: DefId,
        substs: Vec<GenericArg>,
    },
    Repeat {
        value: Expr,
        count: ConstantExpr,
    },
    Array {
        fields: Vec<Expr>,
    },
    Tuple {
        fields: Vec<Expr>,
    },
    Adt(AdtExpr),
    PlaceTypeAscription {
        source: Expr,
        user_ty: Option<CanonicalUserType>,
    },
    ValueTypeAscription {
        source: Expr,
        user_ty: Option<CanonicalUserType>,
    },
    Closure {
        params: Vec<Param>,
        body: Expr,
        upvars: Vec<Expr>,
        movability: Option<Movability>,
    },
    Literal {
        lit: Spanned<LitKind>,
        neg: bool,
    },
    ZstLiteral {
        user_ty: Option<CanonicalUserType>,
    },
    NamedConst {
        def_id: GlobalIdent,
        substs: Vec<GenericArg>,
        user_ty: Option<CanonicalUserType>,
    },
    ConstParam {
        param: ParamConst,
        def_id: GlobalIdent,
    },
    StaticRef {
        alloc_id: u64,
        ty: Ty,
        def_id: GlobalIdent,
    },
    Yield {
        value: Expr,
    },
    Todo(String),
}

} // verus!
