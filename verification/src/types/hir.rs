//! Items as they are written: functions, types, traits and impls.
use crate::ident::DefId;
use crate::ident::GlobalIdent;
use crate::ident::Symbol;
use crate::types::attr::Attribute;
use crate::types::attr::MacroDef;
use crate::types::attr::MacroInvokation;
use crate::types::span::ExpnData;
use crate::types::span::MacroKind;
use crate::types::span::Span;
use crate::types::thir::Body;
use crate::types::thir::HirId;
use crate::types::thir::ImplicitSelfKind;
use crate::types::thir::LocalIdent;
use crate::types::thir::Param;
use crate::types::ty::FloatTy;
use crate::types::ty::IntTy;
use crate::types::ty::Mutability;
use crate::types::ty::PredicateKind;
use crate::types::ty::TraitRef;
use crate::types::ty::Ty;
use crate::types::ty::UintTy;
use crate::types::ty::Unsafety;
use vstd::prelude::*;

verus! {

/// A name as it is written, with the place where it is written.
#[derive(Clone, Debug, PartialEq, Eq)]
pub struct Ident {
    pub name: Symbol,
    pub span: Span,
}

pub type GenericBounds = Vec<PredicateKind>;

pub type EnumDef = Vec<Variant>;

/// The calling convention of a function, by its name.
pub type Abi = String;

/// Assembly given as text.
pub type InlineAsm = String;

/// The generic arguments written on a path segment, as text.
pub type HirGenericArgs = String;

/// A `where` clause on a lifetime, as text.
pub type WhereRegionPredicate = String;

/// A `where` clause that equates two types, as text.
pub type WhereEqPredicate = String;

/// The kind of a definition, by its name.
pub type DefKind = String;

/// A function with its body.
#[derive(Debug, PartialEq, Eq)]
pub struct FnDef {
    pub header: FnHeader,
    pub params: Vec<Param>,
    pub ret: Ty,
    pub body: Body,
    pub sig_span: Span,
}

/// The inputs and the output of a function.
#[derive(Debug, PartialEq, Eq)]
pub struct FnDecl {
    pub inputs: Vec<Ty>,
    pub output: FnRetTy,
    pub c_variadic: bool,
    pub implicit_self: ImplicitSelfKind,
    pub lifetime_elision_allowed: bool,
}

/// The signature of a function.
#[derive(Debug, PartialEq, Eq)]
pub struct FnSig {
    pub header: FnHeader,
    pub decl: FnDecl,
    pub span: Span,
}

/// What stands before `fn`.
#[derive(Clone, Debug, PartialEq, Eq)]
pub struct FnHeader {
    pub unsafety: Unsafety,
    pub constness: Constness,
    pub asyncness: IsAsync,
    pub abi: Abi,
}

#[derive(Clone, Copy, Debug, PartialEq, Eq)]
pub enum UseKind {
    Single,
    Glob,
    ListStem,
}

#[derive(Clone, Copy, Debug, PartialEq, Eq)]
pub enum IsAuto {
    Yes,
    No,
}

#[derive(Clone, Debug, PartialEq, Eq)]
pub enum Defaultness {
    Default { has_value: bool },
    Final,
}

#[derive(Clone, Debug, PartialEq, Eq)]
pub enum ImplPolarity {
    Positive,
    Negative(Span),
}

#[derive(Clone, Copy, Debug, PartialEq, Eq)]
pub enum Constness {
    Const,
    NotConst,
}

/// The generic parameters and the `where` clauses of an item, as written.
#[derive(Debug, PartialEq, Eq)]
pub struct Generics {
    pub params: Vec<GenericParam>,
    pub predicates: Vec<WherePredicate>,
    pub has_where_clause_predicates: bool,
    pub where_clause_span: Span,
    pub span: Span,
}

/// A `where` clause, as written.
#[derive(Debug, PartialEq, Eq)]
pub enum WherePredicate {
    BoundPredicate(WhereBoundPredicate),
    RegionPredicate(WhereRegionPredicate),
    EqPredicate(WhereEqPredicate),
}

#[derive(Clone, Debug, PartialEq, Eq)]
pub enum ParamName {
    Plain(LocalIdent),
    Fresh,
    Error,
}

#[derive(Clone, Copy, Debug, PartialEq, Eq)]
pub enum LifetimeParamKind {
    Explicit,
    Elided,
    Error,
}

#[derive(Debug, PartialEq, Eq)]
pub struct AnonConst {
    pub hir_id: HirId,
    pub def_id: GlobalIdent,
    pub body: Body,
}

#[derive(Debug, PartialEq, Eq)]
pub enum GenericParamKind {
    Lifetime {
        kind: LifetimeParamKind,
    },
    Type {
        default: Option<Ty>,
        synthetic: bool,
    },
    Const {
        ty: Ty,
        default: Option<AnonConst>,
    },
}

/// A generic parameter, as written.
#[derive(Debug, PartialEq, Eq)]
pub struct GenericParam {
    pub hir_id: HirId,
    pub def_id: GlobalIdent,
    pub name: ParamName,
    pub span: Span,
    pub pure_wrt_drop: bool,
    pub kind: GenericParamKind,
    pub colon_span: Option<Span>,
    pub attributes: Vec<Attribute>,
}

/// An item of an `impl` block.
#[derive(Debug, PartialEq, Eq)]
pub struct ImplItem {
    pub ident: Ident,
    pub owner_id: DefId,
    pub generics: Generics,
    pub kind: ImplItemKind,
    pub defaultness: Defaultness,
    pub span: Span,
    pub vis_span: Span,
    pub attributes: Vec<Attribute>,
}

#[derive(Debug, PartialEq, Eq)]
pub enum ImplItemKind {
    Const(Ty, Body),
    Fn(FnDef),
    Type(Ty),
}

#[derive(Clone, Debug, PartialEq, Eq)]
pub enum AssocItemKind {
    Const,
    Fn { has_self: bool },
    Type,
}

/// An `impl` block.
#[derive(Debug, PartialEq, Eq)]
pub struct Impl {
    pub unsafety: Unsafety,
    pub polarity: ImplPolarity,
    pub defaultness: Defaultness,
    pub defaultness_span: Option<Span>,
    pub constness: Constness,
    pub generics: Generics,
    pub of_trait: Option<TraitRef>,
    pub self_ty: Ty,
    pub items: Vec<ImplItem>,
}

#[derive(Clone, Copy, Debug, PartialEq, Eq)]
pub enum IsAsync {
    Async,
    NotAsync,
}

#[derive(Debug, PartialEq, Eq)]
pub enum FnRetTy {
    DefaultReturn(Span),
    Return(Ty),
}

/// The fields of a struct or of a variant, as written.
#[derive(Debug, PartialEq, Eq)]
pub enum VariantData {
    Struct(Vec<HirFieldDef>, bool),
    Tuple(Vec<HirFieldDef>, HirId, GlobalIdent),
    Unit(HirId, GlobalIdent),
}

/// A field, as written.
#[derive(Debug, PartialEq, Eq)]
pub struct HirFieldDef {
    pub span: Span,
    pub vis_span: Span,
    pub ident: Ident,
    pub hir_id: HirId,
    pub def_id: GlobalIdent,
    pub ty: Ty,
    pub attributes: Vec<Attribute>,
}

/// A variant of an enum, as written.
#[derive(Debug, PartialEq, Eq)]
pub struct Variant {
    pub ident: Ident,
    pub hir_id: HirId,
    pub def_id: GlobalIdent,
    pub data: VariantData,
    pub disr_expr: Option<AnonConst>,
    pub span: Span,
    pub attributes: Vec<Attribute>,
}

/// The path of a `use`, with what it resolves to.
#[derive(Clone, Debug, PartialEq, Eq)]
pub struct UsePath {
    pub span: Span,
    pub res: Vec<Res>,
    pub segments: Vec<PathSegment>,
    pub rename: Option<String>,
}

/// What a path resolves to.
#[derive(Clone, Debug, PartialEq, Eq)]
pub enum Res {
    Def(DefKind, DefId),
    PrimTy(PrimTy),
    SelfTyParam {
        trait_: DefId,
    },
    SelfTyAlias {
        alias_to: DefId,
        forbid_generic: bool,
        is_trait_impl: bool,
    },
    SelfCtor(DefId),
    Local(HirId),
    ToolMod,
    NonMacroAttr(NonMacroAttrKind),
    Error,
}

#[derive(Clone, Debug, PartialEq, Eq)]
pub enum PrimTy {
    Int(IntTy),
    Uint(UintTy),
    Float(FloatTy),
    Str,
    Bool,
    Char,
}

#[derive(Clone, Debug, PartialEq, Eq)]
pub enum NonMacroAttrKind {
    Builtin(Symbol),
    Tool,
    DeriveHelper,
    DeriveHelperCompat,
}

/// A segment of a path.
#[derive(Clone, Debug, PartialEq, Eq)]
pub struct PathSegment {
    pub ident: Ident,
    pub hir_id: HirId,
    pub res: Res,
    pub args: Option<HirGenericArgs>,
    pub infer_args: bool,
}

/// The kinds of items.
#[derive(Debug, PartialEq, Eq)]
pub enum ItemKind {
    MacroInvokation(MacroInvokation),
    ExternCrate(Option<Symbol>),
    Use(UsePath, UseKind),
    Static(Ty, Mutability, Body),
    Const(Ty, Body),
    Fn(Generics, FnDef),
    Macro(MacroDef, MacroKind),
    Mod(Vec<Item>),
    ForeignMod {
        abi: Abi,
        items: Vec<ForeignItem>,
    },
    GlobalAsm(InlineAsm),
    TyAlias(Ty, Generics),
    OpaqueTy(OpaqueTy),
    Enum(EnumDef, Generics),
    Struct(VariantData, Generics),
    Union(VariantData, Generics),
    Trait(
        IsAuto,
        Unsafety,
        Generics,
        GenericBounds,
        Vec<TraitItem>,
    ),
    TraitAlias(Generics, GenericBounds),
    Impl(Impl),
}

#[derive(Debug, PartialEq, Eq)]
pub enum TraitItemKind {
    Const(Ty, Option<Body>),
    RequiredFn(FnSig, Vec<Ident>),
    ProvidedFn(FnDef),
    Type(GenericBounds, Option<Ty>),
}

/// An item of a trait.
#[derive(Debug, PartialEq, Eq)]
pub struct TraitItem {
    pub ident: Ident,
    pub owner_id: DefId,
    pub generics: Generics,
    pub kind: TraitItemKind,
    pub span: Span,
    pub defaultness: Defaultness,
    pub attributes: Vec<Attribute>,
}

#[derive(Debug, PartialEq, Eq)]
pub enum ForeignItemKind {
    Fn(FnDecl, Vec<Ident>, Generics),
    Static(Ty, Mutability),
    Type,
}

/// An item of a foreign module.
#[derive(Debug, PartialEq, Eq)]
pub struct ForeignItem {
    pub ident: Ident,
    pub kind: ForeignItemKind,
    pub owner_id: DefId,
    pub span: Span,
    pub vis_span: Span,
}

/// An opaque type, as `impl Trait` makes one.
#[derive(Debug, PartialEq, Eq)]
pub struct OpaqueTy {
    pub generics: Generics,
    pub bounds: GenericBounds,
    pub origin: OpaqueTyOrigin,
    pub in_trait: bool,
}

#[derive(Clone, Debug, PartialEq, Eq)]
pub enum LifetimeName {
    Param(GlobalIdent),
    ImplicitObjectLifetimeDefault,
    Error,
    Infer,
    Static,
}

/// A lifetime, as written.
#[derive(Clone, Debug, PartialEq, Eq)]
pub struct Lifetime {
    pub hir_id: HirId,
    pub ident: Ident,
    pub res: LifetimeName,
}

#[derive(Clone, Debug, PartialEq, Eq)]
pub enum OpaqueTyOrigin {
    FnReturn(GlobalIdent),
    AsyncFn(GlobalIdent),
    TyAlias { in_assoc_ty: bool },
}

/// An item.
#[derive(Debug, PartialEq, Eq)]
pub struct Item {
    pub def_id: Option<GlobalIdent>,
    pub owner_id: DefId,
    pub span: Span,
    pub vis_span: Span,
    pub kind: ItemKind,
    pub attributes: Vec<Attribute>,
    pub expn_backtrace: Vec<ExpnData>,
}

/// A `where` clause that bounds a type.
#[derive(Debug, PartialEq, Eq)]
pub struct WhereBoundPredicate {
    pub hir_id: HirId,
    pub span: Span,
    pub origin: PredicateOrigin,
    pub bound_generic_params: Vec<GenericParam>,
    pub bounded_ty: Ty,
    pub bounds: GenericBounds,
}

#[derive(Clone, Copy, Debug, PartialEq, Eq)]
pub enum PredicateOrigin {
    WhereClause,
    GenericParam,
    ImplTrait,
}

} // verus!
