//! Types, generic arguments and predicates.
use crate::ident::DefId;
use crate::ident::GlobalIdent;
use crate::ident::Symbol;
use crate::types::span::Span;
use vstd::prelude::*;

verus! {

/// A value under a binder that binds nothing; `None` when the binder does
/// bind a variable.
pub type Binder<T> = Option<T>;

pub type DebruijnIndex = usize;

pub type BoundVar = usize;

pub type UniverseIndex = usize;

pub type PlaceholderRegion = Placeholder<BoundRegion>;

pub type PlaceholderConst = Placeholder<BoundVar>;

pub type PlaceholderType = Placeholder<BoundTy>;

pub type CanonicalUserType = Canonical<UserType>;

#[derive(Clone, Copy, Debug, PartialEq, Eq)]
pub enum Mutability {
    Mut,
    Not,
}

#[derive(Clone, Debug, PartialEq, Eq)]
pub enum RegionKind {
    ReErased,
    ReStatic,
    Todo(String),
}

#[derive(Clone, Debug, PartialEq, Eq)]
pub struct Region {
    pub kind: RegionKind,
}

/// What a trait object promises of the value it holds.
#[derive(Debug, PartialEq, Eq)]
pub enum ExistentialPredicate {
    Trait { def_id: DefId, args: Vec<GenericArg> },
    Projection { def_id: DefId, args: Vec<GenericArg>, term: Box<Ty> },
    AutoTrait(DefId),
}

/// A constant that appears in a type or a pattern.
#[derive(Debug, PartialEq, Eq)]
pub enum ConstantExpr {
    Bool(bool),
    Char(char),
    Int(u128, IntTy),
    Uint(u128, UintTy),
    GlobalName(GlobalIdent),
    Todo(String),
}

/// The signed integer types.
#[derive(Clone, Copy, Debug, PartialEq, Eq)]
pub enum IntTy {
    Isize,
    I8,
    I16,
    I32,
    I64,
    I128,
}

/// The unsigned integer types.
#[derive(Clone, Copy, Debug, PartialEq, Eq)]
pub enum UintTy {
    Usize,
    U8,
    U16,
    U32,
    U64,
    U128,
}

/// The floating-point types.
#[derive(Clone, Copy, Debug, PartialEq, Eq)]
pub enum FloatTy {
    F32,
    F64,
}

/// A type.
#[derive(Debug, PartialEq, Eq)]
pub enum Ty {
    Bool,
    Char,
    Int(IntTy),
    Uint(UintTy),
    Float(FloatTy),

    Arrow {
        params: Vec<Ty>,
        ret: Box<Ty>,
    },

    Adt {
        generic_args: Vec<GenericArg>,
        def_id: DefId,
    },
    Foreign(DefId),
    Str,
    Array(Box<Ty>, ConstantExpr),
    Slice(Box<Ty>),
    RawPtr(TypeAndMut),
    Ref(Region, Box<Ty>, Mutability),
    Dynamic(Vec<Binder<ExistentialPredicate>>, Region, DynKind),
    Generator(DefId, Vec<GenericArg>, Movability),
    Never,
    Tuple(Vec<Ty>),
    Alias(AliasKind, AliasTy),
    Param(ParamTy),
    Bound(DebruijnIndex, BoundTy),
    Placeholder(PlaceholderType),
    Infer(InferTy),
    Error,
    Todo(String),
}

/// An argument for a generic parameter: a lifetime, a type or a constant.
#[derive(Debug, PartialEq, Eq)]
pub enum GenericArg {
    Lifetime(Region),
    Type(Ty),
    Const(ConstantExpr),
}

/// An alias of a type, such as the projection of an associated type.
#[derive(Debug, PartialEq, Eq)]
pub struct AliasTy {
    pub substs: Vec<GenericArg>,
    pub trait_def_id: DefId,
    pub def_id: DefId,
}

#[derive(Clone, Copy, Debug, PartialEq, Eq)]
pub enum AliasKind {
    Projection,
    Inherent,
    Opaque,
}

/// A type with the mutability of what points to it.
#[derive(Debug, PartialEq, Eq)]
pub struct TypeAndMut {
    pub ty: Box<Ty>,
    pub mutbl: Mutability,
}

#[derive(Debug, PartialEq, Eq)]
pub enum ArrowKind {
    Constructor { payload: Ty },
    Function { params: Vec<Ty> },
}

/// A type parameter, by its position and its name.
#[derive(Clone, Debug, PartialEq, Eq)]
pub struct ParamTy {
    pub index: u32,
    pub name: Symbol,
}

/// A constant parameter, by its position and its name.
#[derive(Clone, Debug, PartialEq, Eq)]
pub struct ParamConst {
    pub index: u32,
    pub name: Symbol,
}

#[derive(Clone, Copy, Debug, PartialEq, Eq)]
pub enum DynKind {
    Dyn,
    DynStar,
}

#[derive(Clone, Debug, PartialEq, Eq)]
pub enum BoundTyKind {
    Anon,
    Param(DefId, Symbol),
}

#[derive(Clone, Debug, PartialEq, Eq)]
pub struct BoundTy {
    pub var: BoundVar,
    pub kind: BoundTyKind,
}

#[derive(Clone, Debug, PartialEq, Eq)]
pub enum BoundRegionKind {
    BrAnon(Option<Span>),
    BrNamed(DefId, Symbol),
    BrEnv,
}

#[derive(Clone, Debug, PartialEq, Eq)]
pub struct BoundRegion {
    pub var: BoundVar,
    pub kind: BoundRegionKind,
}

/// A bound variable in a universe.
#[derive(Clone, Debug, PartialEq, Eq)]
pub struct Placeholder<T> {
    pub universe: UniverseIndex,
    pub bound: T,
}

/// A value with the variables that it is stated over.
#[derive(Debug, PartialEq, Eq)]
pub struct Canonical<T> {
    pub max_universe: UniverseIndex,
    pub variables: Vec<CanonicalVarInfo>,
    pub value: T,
}

#[derive(Debug, PartialEq, Eq)]
pub enum CanonicalVarInfo {
    Ty(CanonicalTyVarKind),
    PlaceholderTy(PlaceholderType),
    Region(UniverseIndex),
    PlaceholderRegion(PlaceholderRegion),
    Const(UniverseIndex, Ty),
    PlaceholderConst(PlaceholderConst, Ty),
}

#[derive(Clone, Debug, PartialEq, Eq)]
pub enum CanonicalTyVarKind {
    General(UniverseIndex),
    Int,
    Float,
}

#[derive(Debug, PartialEq, Eq)]
pub struct UserSelfTy {
    pub impl_def_id: DefId,
    pub self_ty: Ty,
}

#[derive(Debug, PartialEq, Eq)]
pub struct UserSubsts {
    pub substs: Vec<GenericArg>,
    pub user_self_ty: Option<UserSelfTy>,
}

#[derive(Clone, Debug, PartialEq, Eq)]
pub enum UserType {

    Todo(String),
}

#[derive(Clone, Debug, PartialEq, Eq)]
pub enum InferTy {
    TyVar,
    IntVar,
    FloatVar,
    FreshTy(u32),
    FreshIntTy(u32),
    FreshFloatTy(u32),
}

#[derive(Clone, Copy, Debug, PartialEq, Eq)]
pub enum Movability {
    Static,
    Movable,
}

/// The declaration of a generic parameter, as the type system sees it.
#[derive(Clone, Debug, PartialEq, Eq)]
pub struct GenericParamDef {
    pub name: Symbol,
    pub def_id: DefId,
    pub index: u32,
    pub pure_wrt_drop: bool,
    pub kind: GenericParamDefKind,
}

/// Whether a generic parameter is a lifetime, a type or a constant.
#[derive(Clone, Debug, PartialEq, Eq)]
pub enum GenericParamDefKind {
    Lifetime,
    Type { has_default: bool, synthetic: bool },
    Const { has_default: bool },
}

/// The generic parameters of an item, as the type system sees them.
#[derive(Clone, Debug, PartialEq, Eq)]
pub struct TyGenerics {
    pub parent: Option<DefId>,
    pub parent_count: usize,
    pub params: Vec<GenericParamDef>,
    pub has_self: bool,
    pub has_late_bound_regions: Option<Span>,
}

#[derive(Clone, Copy, Debug, PartialEq, Eq)]
pub enum Variance {
    Covariant,
    Invariant,
    Contravariant,
    Bivariant,
}

#[derive(Debug, PartialEq, Eq)]
pub struct CanonicalUserTypeAnnotation {
    pub user_ty: CanonicalUserType,
    pub span: Span,
    pub inferred_ty: Ty,
}

/// A trait with its generic arguments, the type that implements it first.
#[derive(Debug, PartialEq, Eq)]
pub struct TraitRef {
    pub def_id: DefId,
    pub generic_args: Vec<GenericArg>,
}

/// The predicate that a type implements a trait.
#[derive(Debug, PartialEq, Eq)]
pub struct TraitPredicate {
    pub trait_ref: TraitRef,
    pub is_const: bool,
    pub is_positive: bool,
}

/// A clause of a `where`.
#[derive(Debug, PartialEq, Eq)]
pub enum Clause {
    Trait(TraitPredicate),
    Todo(String),
}

/// A predicate.
#[derive(Debug, PartialEq, Eq)]
pub enum PredicateKind {
    Clause(Clause),
    ObjectSafe(DefId),
    Ambiguous,
    Todo(String),
}

#[derive(Clone, Copy, Debug, PartialEq, Eq)]
pub enum CtorKind {
    Fn,
    Const,
}

/// The discriminant of a variant: given, or counted from the one before.
#[derive(Clone, Debug, PartialEq, Eq)]
pub enum VariantDiscr {
    Explicit(DefId),
    Relative(u32),
}

/// Whether an item is public, or to whom it is visible.
#[derive(Clone, Debug, PartialEq, Eq)]
pub enum Visibility<Id> {
    Public,
    Restricted(Id),
}

/// The definition of a field.
#[derive(Clone, Debug, PartialEq, Eq)]
pub struct FieldDef {
    pub did: DefId,
    pub name: Symbol,
    pub vis: Visibility<DefId>,
}

/// The definition of a variant.
#[derive(Clone, Debug, PartialEq, Eq)]
pub struct VariantDef {
    pub def_id: DefId,
    pub ctor: Option<(CtorKind, DefId)>,
    pub name: Symbol,
    pub discr: VariantDiscr,
    pub fields: Vec<FieldDef>,
}

#[derive(Clone, Copy, Debug, PartialEq, Eq)]
pub enum Unsafety {
    Unsafe,
    Normal,
}

} // verus!
