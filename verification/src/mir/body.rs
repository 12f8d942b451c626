//! Bodies: locals, operands and the operators applied to them.
use crate::ident::Symbol;
use crate::mir::place::FieldIdx;
use crate::mir::place::Local;
use crate::mir::place::Place;
use crate::mir::place::PlaceElem;
use crate::mir::place::PlaceFault;
use crate::mir::place::TyIndex;
use crate::mir::place::TypeTable;
use crate::mir::call::FunOperand;
use crate::mir::call::GenericArgIndex;
use crate::mir::place::VariantIdx;
use crate::mir::switch::BasicBlock;
use crate::mir::switch::SwitchTargets;
use crate::traits::resolve::ImplExpr;
use crate::types::span::Span;
use crate::types::span::Spanned;
use crate::types::ty::ConstantExpr;
use crate::types::ty::GenericArg;
use crate::types::ty::Mutability;
use crate::types::ty::Region;
use crate::types::ty::Variance;
use vstd::prelude::*;

verus! {

/// Position of a source scope among the scopes of a body.
pub type SourceScope = usize;

#[derive(Clone, Debug, PartialEq, Eq)]
pub struct SourceInfo {
    pub span: Span,
    pub scope: SourceScope,
}

/// The declaration of a local.
#[derive(Clone, Debug, PartialEq, Eq)]
pub struct LocalDecl {
    pub mutability: Mutability,
    pub ty: TyIndex,
    pub source_info: SourceInfo,
    /// The name of the variable that the local stands for. A declaration
    /// carries none by itself: the name comes from the debug information of
    /// the body.
    pub name: Option<String>,
}

#[derive(Clone, Debug, PartialEq, Eq)]
pub struct SourceScopeData {
    pub span: Span,
    pub parent_scope: Option<SourceScope>,
    pub inlined_parent_scope: Option<SourceScope>,
}

/// A body as it is first built.
#[derive(Clone, Copy, Debug, PartialEq, Eq)]
pub struct Built;

/// A body after promotion of constants.
#[derive(Clone, Copy, Debug, PartialEq, Eq)]
pub struct Promoted;

/// A body after elaboration of drops.
#[derive(Clone, Copy, Debug, PartialEq, Eq)]
pub struct Elaborated;

/// A body after optimisation.
#[derive(Clone, Copy, Debug, PartialEq, Eq)]
pub struct Optimized;

/// A body prepared for evaluation at compile time.
#[derive(Clone, Copy, Debug, PartialEq, Eq)]
pub struct CTFE;

#[derive(Debug, PartialEq, Eq)]
pub struct ConstOperand {
    pub span: Span,
    pub ty: TyIndex,
    pub const_: ConstantExpr,
}

#[derive(Debug, PartialEq, Eq)]
pub enum Operand {
    Copy(Place),
    Move(Place),
    Constant(ConstOperand),
}

impl Operand {
    /// The type of the operand.
    pub open spec fn spec_ty(self) -> TyIndex {
        match self {
            Operand::Copy(p) => p.ty,
            Operand::Move(p) => p.ty,
            Operand::Constant(c) => c.ty,
        }
    }

    /// The type of the operand: that of its place, or that of its constant.
    pub fn ty(&self) -> (r: TyIndex)
        ensures
            r == self.spec_ty(),
    {
        match self {
            Operand::Copy(p) => p.ty,
            Operand::Move(p) => p.ty,
            Operand::Constant(c) => c.ty,
        }
    }
}

#[derive(Debug, PartialEq, Eq)]
pub enum NonDivergingIntrinsic {
    Assume(Operand),
    CopyNonOverlapping(CopyNonOverlapping),
}

#[derive(Debug, PartialEq, Eq)]
pub struct CopyNonOverlapping {
    pub src: Operand,
    pub dst: Operand,
    pub count: Operand,
}

#[derive(Clone, Copy, Debug, PartialEq, Eq)]
pub enum CoercionSource {
    AsCast,
    Implicit,
}

#[derive(Clone, Copy, Debug, PartialEq, Eq)]
pub enum PointerCoercion {
    ReifyFnPointer,
    UnsafeFnPointer,
    ClosureFnPointer,
    MutToConstPointer,
    ArrayToPointer,
    Unsize,
}

#[derive(Clone, Copy, Debug, PartialEq, Eq)]
pub enum CastKind {
    PointerExposeProvenance,
    PointerWithExposedProvenance,
    PointerCoercion(PointerCoercion, CoercionSource),
    IntToInt,
    FloatToInt,
    FloatToFloat,
    IntToFloat,
    PtrToPtr,
    FnPtrToPtr,
    Transmute,
}

#[derive(Debug, PartialEq, Eq)]
pub enum NullOp {
    SizeOf,
    AlignOf,
    OffsetOf(Vec<(usize, FieldIdx)>),
    UbChecks,
}

#[derive(Clone, Copy, Debug, PartialEq, Eq)]
pub enum UnOp {
    Not,
    Neg,
    PtrMetadata,
}

/// A binary operator. The checked and the unchecked form of an operator are
/// one operator here: in either, overflow is failure.
#[derive(Clone, Copy, Debug, PartialEq, Eq)]
pub enum BinOp {
    Add,
    Sub,
    Mul,
    AddWithOverflow,
    SubWithOverflow,
    MulWithOverflow,
    Div,
    Rem,
    BitXor,
    BitAnd,
    BitOr,
    Shl,
    Shr,
    Eq,
    Lt,
    Le,
    Ne,
    Ge,
    Gt,
    Cmp,
    Offset,
}

/// A binary operator as the control-flow graph has it.
#[derive(Clone, Copy, Debug, PartialEq, Eq)]
pub enum RawBinOp {
    Add,
    AddUnchecked,
    AddWithOverflow,
    Sub,
    SubUnchecked,
    SubWithOverflow,
    Mul,
    MulUnchecked,
    MulWithOverflow,
    Div,
    Rem,
    BitXor,
    BitAnd,
    BitOr,
    Shl,
    ShlUnchecked,
    Shr,
    ShrUnchecked,
    Eq,
    Lt,
    Le,
    Ne,
    Ge,
    Gt,
    Cmp,
    Offset,
}

impl RawBinOp {
    /// The operator without the distinction between checked and unchecked.
    pub open spec fn spec_merged(self) -> BinOp {
        match self {
            RawBinOp::Add | RawBinOp::AddUnchecked => BinOp::Add,
            RawBinOp::Sub | RawBinOp::SubUnchecked => BinOp::Sub,
            RawBinOp::Mul | RawBinOp::MulUnchecked => BinOp::Mul,
            RawBinOp::AddWithOverflow => BinOp::AddWithOverflow,
            RawBinOp::SubWithOverflow => BinOp::SubWithOverflow,
            RawBinOp::MulWithOverflow => BinOp::MulWithOverflow,
            RawBinOp::Div => BinOp::Div,
            RawBinOp::Rem => BinOp::Rem,
            RawBinOp::BitXor => BinOp::BitXor,
            RawBinOp::BitAnd => BinOp::BitAnd,
            RawBinOp::BitOr => BinOp::BitOr,
            RawBinOp::Shl | RawBinOp::ShlUnchecked => BinOp::Shl,
            RawBinOp::Shr | RawBinOp::ShrUnchecked => BinOp::Shr,
            RawBinOp::Eq => BinOp::Eq,
            RawBinOp::Lt => BinOp::Lt,
            RawBinOp::Le => BinOp::Le,
            RawBinOp::Ne => BinOp::Ne,
            RawBinOp::Ge => BinOp::Ge,
            RawBinOp::Gt => BinOp::Gt,
            RawBinOp::Cmp => BinOp::Cmp,
            RawBinOp::Offset => BinOp::Offset,
        }
    }

    /// Merges the unchecked form of an operator into the operator.
    pub fn merged(self) -> (r: BinOp)
        ensures
            r == self.spec_merged(),
    {
        match self {
            RawBinOp::Add | RawBinOp::AddUnchecked => BinOp::Add,
            RawBinOp::Sub | RawBinOp::SubUnchecked => BinOp::Sub,
            RawBinOp::Mul | RawBinOp::MulUnchecked => BinOp::Mul,
            RawBinOp::AddWithOverflow => BinOp::AddWithOverflow,
            RawBinOp::SubWithOverflow => BinOp::SubWithOverflow,
            RawBinOp::MulWithOverflow => BinOp::MulWithOverflow,
            RawBinOp::Div => BinOp::Div,
            RawBinOp::Rem => BinOp::Rem,
            RawBinOp::BitXor => BinOp::BitXor,
            RawBinOp::BitAnd => BinOp::BitAnd,
            RawBinOp::BitOr => BinOp::BitOr,
            RawBinOp::Shl | RawBinOp::ShlUnchecked => BinOp::Shl,
            RawBinOp::Shr | RawBinOp::ShrUnchecked => BinOp::Shr,
            RawBinOp::Eq => BinOp::Eq,
            RawBinOp::Lt => BinOp::Lt,
            RawBinOp::Le => BinOp::Le,
            RawBinOp::Ne => BinOp::Ne,
            RawBinOp::Ge => BinOp::Ge,
            RawBinOp::Gt => BinOp::Gt,
            RawBinOp::Cmp => BinOp::Cmp,
            RawBinOp::Offset => BinOp::Offset,
        }
    }
}

#[derive(Clone, Copy, Debug, PartialEq, Eq)]
pub enum BorrowKind {
    Shared,
    Fake(FakeBorrowKind),
    Mut { kind: MutBorrowKind },
}

#[derive(Clone, Copy, Debug, PartialEq, Eq)]
pub enum MutBorrowKind {
    Default,
    TwoPhaseBorrow,
    ClosureCapture,
}

#[derive(Clone, Copy, Debug, PartialEq, Eq)]
pub enum FakeBorrowKind {
    /// A shared (deep) borrow. Data must be immutable and is aliasable.
    Deep,
    /// The immediately borrowed place must be immutable, but projections
    /// from it need not be.
    Shallow,
}

/// What a debug-information entry describes.
#[derive(Debug, PartialEq, Eq)]
pub enum VarDebugInfoContents {
    /// A place: a local under projections.
    Place { local: Local, projection: Vec<PlaceElem> },
    Const,
}

/// The debug information of one source variable.
#[derive(Debug, PartialEq, Eq)]
pub struct VarDebugInfo {
    pub name: Symbol,
    pub value: VarDebugInfoContents,
}

impl VarDebugInfo {
    /// Whether the entry describes the local `local` itself, under no
    /// projection.
    pub open spec fn names(self, local: Local) -> bool {
        match self.value {
            VarDebugInfoContents::Place { local: l, projection } => projection@.len() == 0 && l
                == local,
            VarDebugInfoContents::Const => false,
        }
    }

    /// Decides `names`.
    pub fn is_name_of(&self, local: Local) -> (r: bool)
        ensures
            r == self.names(local),
    {
        match &self.value {
            VarDebugInfoContents::Place { local: l, projection } => projection.len() == 0 && *l
                == local,
            VarDebugInfoContents::Const => false,
        }
    }
}

/// The positions, among the first `k` entries, of those that describe
/// `local` itself.
pub open spec fn naming_entries(infos: Seq<VarDebugInfo>, local: Local, k: int) -> Seq<int>
    decreases k,
{
    if k <= 0 {
        Seq::empty()
    } else if infos[k - 1].names(local) {
        naming_entries(infos, local, k - 1).push(k - 1)
    } else {
        naming_entries(infos, local, k - 1)
    }
}

/// The name of `local`: that of the one entry that describes the local
/// itself, and none when no entry or more than one does.
pub open spec fn spec_name_of_local(local: Local, infos: Seq<VarDebugInfo>) -> Option<String> {
    let entries = naming_entries(infos, local, infos.len() as int);
    if entries.len() == 1 {
        Some(infos[entries[0]].name)
    } else {
        None
    }
}

/// Looks up the name of a local in the debug information of its body.
pub fn name_of_local(local: Local, var_debug_info: &Vec<VarDebugInfo>) -> (r: Option<String>)
    ensures
        r == spec_name_of_local(local, var_debug_info@),
{
    let mut found: Option<usize> = None;
    let mut many = false;
    let mut i: usize = 0;
    while i < var_debug_info.len()
        invariant
            i <= var_debug_info@.len(),
            many <==> naming_entries(var_debug_info@, local, i as int).len() >= 2,
            found.is_none() <==> naming_entries(var_debug_info@, local, i as int).len() == 0,
            found matches Some(f) ==> f < i && naming_entries(var_debug_info@, local, i as int)[0]
                == f,
        decreases var_debug_info@.len() - i,
    {
        if var_debug_info[i].is_name_of(local) {
            if found.is_some() {
                many = true;
            } else {
                found = Some(i);
            }
        }
        i += 1;
    }
    match found {
        Some(f) if !many => Some(var_debug_info[f].name.clone()),
        _ => None,
    }
}

/// Attaches to each declaration the name that the debug information gives
/// to its local.
pub fn name_locals(local_decls: Vec<LocalDecl>, var_debug_info: &Vec<VarDebugInfo>) -> (r: Vec<
    LocalDecl,
>)
    ensures
        r@.len() == local_decls@.len(),
        forall|i: int|
            0 <= i < r@.len() ==> (#[trigger] r@[i]) == (LocalDecl {
                name: spec_name_of_local(i as usize, var_debug_info@),
                ..local_decls@[i]
            }),
{
    let mut decls = local_decls;
    let mut i: usize = 0;
    while i < decls.len()
        invariant
            i <= decls@.len(),
            decls@.len() == local_decls@.len(),
            forall|j: int|
                0 <= j < i ==> (#[trigger] decls@[j]) == (LocalDecl {
                    name: spec_name_of_local(j as usize, var_debug_info@),
                    ..local_decls@[j]
                }),
            forall|j: int| i <= j < decls@.len() ==> decls@[j] == local_decls@[j],
        decreases decls@.len() - i,
    {
        let name = name_of_local(i, var_debug_info);
        decls[i].name = name;
        i += 1;
    }
    decls
}

/// The forms of a constant of a body.
#[derive(Clone, Copy, Debug, PartialEq, Eq)]
pub enum ConstKind {
    /// A value.
    Val,
    /// A constant of the type system.
    Ty,
    /// A constant that is not evaluated yet; `promoted` tells a constant
    /// that was lifted out of a body from a named one.
    Unevaluated { promoted: bool },
}

/// How a constant is turned into a constant expression.
#[derive(Clone, Copy, Debug, PartialEq, Eq)]
pub enum ConstAction {
    /// Convert the value.
    ConvertValue,
    /// Convert the constant of the type system.
    ConvertTyConst,
    /// Evaluate the constant, and convert what it evaluates to. A constant
    /// that does not evaluate is a fault.
    Evaluate,
    /// Refer to the constant by name, or evaluate it where it has none.
    TranslateUnevaluated,
}

/// A promoted constant that does not evaluate.
#[derive(Clone, Copy, Debug, PartialEq, Eq)]
pub enum ConstFault {
    UnevalPromotedConstant,
}

impl ConstKind {
    pub open spec fn spec_action(self) -> ConstAction {
        match self {
            ConstKind::Val => ConstAction::ConvertValue,
            ConstKind::Ty => ConstAction::ConvertTyConst,
            ConstKind::Unevaluated { promoted: true } => ConstAction::Evaluate,
            ConstKind::Unevaluated { promoted: false } => ConstAction::TranslateUnevaluated,
        }
    }

    /// What is to be done with a constant of this form.
    pub fn action(&self) -> (r: ConstAction)
        ensures
            r == self.spec_action(),
    {
        match self {
            ConstKind::Val => ConstAction::ConvertValue,
            ConstKind::Ty => ConstAction::ConvertTyConst,
            ConstKind::Unevaluated { promoted: true } => ConstAction::Evaluate,
            ConstKind::Unevaluated { promoted: false } => ConstAction::TranslateUnevaluated,
        }
    }
}

/// The constant expression of a promoted constant, given what it evaluated
/// to: that expression, or a fault when it did not evaluate.
pub fn promoted_constant(evaluated: Option<ConstantExpr>) -> (r: Result<ConstantExpr, ConstFault>)
    ensures
        match evaluated {
            Some(c) => r == Ok::<ConstantExpr, ConstFault>(c),
            None => r == Err::<ConstantExpr, ConstFault>(ConstFault::UnevalPromotedConstant),
        },
{
    match evaluated {
        Some(c) => Ok(c),
        None => Err(ConstFault::UnevalPromotedConstant),
    }
}

/// What happens when a terminator unwinds, as text.
pub type UnwindAction = String;

/// Why a failed assertion fails, as text.
pub type AssertMessage = String;

/// Why unwinding terminates, as text.
pub type UnwindTerminateReason = String;

/// What a fake read is inserted for, as text.
pub type FakeReadCause = String;

/// How a place is retagged, as text.
pub type RetagKind = String;

/// The projection of a user type, as text.
pub type UserTypeProjection = String;

/// A piece of coverage instrumentation, as text.
pub type CoverageKind = String;

/// Pieces of inline assembly, as text.
pub type InlineAsmTemplatePiece = String;

pub type InlineAsmOperand = String;

pub type InlineAsmOptions = String;

/// The mark that an error was reported.
#[derive(Clone, Copy, Debug, PartialEq, Eq)]
pub struct ErrorGuaranteed;

pub type UserTypeAnnotationIndex = usize;

/// What a closure is made of: the handle of its signature and the types of
/// what it captures.
#[derive(Debug, PartialEq, Eq)]
pub struct ClosureArgs {
    pub sig: usize,
    pub upvar_tys: Vec<TyIndex>,
}

#[derive(Debug, PartialEq, Eq)]
pub enum AggregateKind {
    Array(TyIndex),
    Tuple,
    /// A value of an algebraic data type: its definition, the variant, the
    /// kind of the type, the generic arguments, the witnesses of the trait
    /// bounds of the type, and, for a union, the field that is set.
    Adt(
        usize,
        VariantIdx,
        crate::mir::place::AdtKind,
        Vec<GenericArgIndex>,
        Vec<ImplExpr>,
        Option<UserTypeAnnotationIndex>,
        Option<FieldIdx>,
    ),
    Closure(usize, ClosureArgs),
    Coroutine(usize, Vec<GenericArgIndex>),
    CoroutineClosure(usize, Vec<GenericArgIndex>),
    RawPtr(TyIndex, Mutability),
}

#[derive(Debug, PartialEq, Eq)]
pub enum Rvalue {
    Use(Operand),
    Repeat(Operand, ConstantExpr),
    Ref(Region, BorrowKind, Place),
    ThreadLocalRef(usize),
    RawPtr(Mutability, Place),
    Len(Place),
    Cast(CastKind, Operand, TyIndex),
    BinaryOp(BinOp, (Operand, Operand)),
    NullaryOp(NullOp, TyIndex),
    UnaryOp(UnOp, Operand),
    Discriminant(Place),
    Aggregate(AggregateKind, Vec<Operand>),
    ShallowInitBox(Operand, TyIndex),
    CopyForDeref(Place),
}

#[derive(Debug, PartialEq, Eq)]
pub enum StatementKind {
    Assign((Place, Rvalue)),
    FakeRead((FakeReadCause, Place)),
    SetDiscriminant { place: Place, variant_index: VariantIdx },
    Deinit(Place),
    StorageLive(Local),
    StorageDead(Local),
    Retag(RetagKind, Place),
    PlaceMention(Place),
    AscribeUserType((Place, UserTypeProjection), Variance),
    Coverage(CoverageKind),
    Intrinsic(NonDivergingIntrinsic),
    ConstEvalCounter,
    Nop,
}

#[derive(Debug, PartialEq, Eq)]
pub struct Statement {
    pub source_info: SourceInfo,
    pub kind: Box<StatementKind>,
}

#[derive(Debug, PartialEq, Eq)]
pub enum TerminatorKind {
    Goto { target: BasicBlock },
    SwitchInt { discr: Operand, targets: SwitchTargets },
    Return,
    Unreachable,
    Drop { place: Place, target: BasicBlock, unwind: UnwindAction, replace: bool },
    Call {
        fun: FunOperand,
        /// The generic arguments that are bound anew at this call. They are
        /// all lifetimes, and all erased.
        late_bound_generics: Vec<GenericArg>,
        args: Vec<Spanned<Operand>>,
        destination: Place,
        target: Option<BasicBlock>,
        unwind: UnwindAction,
        fn_span: Span,
    },
    TailCall { func: Operand, args: Vec<Spanned<Operand>>, fn_span: Span },
    Assert {
        cond: Operand,
        expected: bool,
        msg: AssertMessage,
        target: BasicBlock,
        unwind: UnwindAction,
    },
    Yield { value: Operand, resume: BasicBlock, resume_arg: Place, drop: Option<BasicBlock> },
    CoroutineDrop,
    FalseEdge { real_target: BasicBlock, imaginary_target: BasicBlock },
    FalseUnwind { real_target: BasicBlock, unwind: UnwindAction },
    UnwindResume,
    UnwindTerminate(UnwindTerminateReason),
    InlineAsm {
        template: Vec<InlineAsmTemplatePiece>,
        operands: Vec<InlineAsmOperand>,
        options: InlineAsmOptions,
        line_spans: Vec<Span>,
        targets: Vec<BasicBlock>,
        unwind: UnwindAction,
    },
}

#[derive(Debug, PartialEq, Eq)]
pub struct Terminator {
    pub source_info: SourceInfo,
    pub kind: TerminatorKind,
}

#[derive(Debug, PartialEq, Eq)]
pub struct BasicBlockData {
    pub statements: Vec<Statement>,
    pub terminator: Option<Terminator>,
    pub is_cleanup: bool,
}

pub type BasicBlocks = Vec<BasicBlockData>;

/// A body: its locals and its blocks. `KIND` tells at which stage of
/// compilation the body was taken.
#[derive(Debug, PartialEq, Eq)]
pub struct MirBody<KIND> {
    pub span: Span,
    pub local_decls: Vec<LocalDecl>,
    pub basic_blocks: BasicBlocks,
    pub source_scopes: Vec<SourceScopeData>,
    pub tainted_by_errors: Option<ErrorGuaranteed>,
    pub _kind: core::marker::PhantomData<KIND>,
}

impl<KIND> MirBody<KIND> {
    /// Assembles a body. Each local takes the name that the debug
    /// information gives it; everything else is kept as it is given.
    pub fn new(
        span: Span,
        local_decls: Vec<LocalDecl>,
        var_debug_info: &Vec<VarDebugInfo>,
        basic_blocks: BasicBlocks,
        source_scopes: Vec<SourceScopeData>,
        tainted_by_errors: Option<ErrorGuaranteed>,
    ) -> (r: MirBody<KIND>)
        ensures
            r.span == span,
            r.basic_blocks == basic_blocks,
            r.source_scopes == source_scopes,
            r.tainted_by_errors == tainted_by_errors,
            r.local_decls@.len() == local_decls@.len(),
            forall|i: int|
                0 <= i < r.local_decls@.len() ==> (#[trigger] r.local_decls@[i]) == (LocalDecl {
                    name: spec_name_of_local(i as usize, var_debug_info@),
                    ..local_decls@[i]
                }),
    {
        MirBody {
            span,
            local_decls: name_locals(local_decls, var_debug_info),
            basic_blocks,
            source_scopes,
            tainted_by_errors,
            _kind: core::marker::PhantomData,
        }
    }
}

/// A place as the control-flow graph has it: a local, the type of the
/// local, and the projections applied to it.
#[derive(Debug, PartialEq, Eq)]
pub struct RawPlace {
    pub local: Local,
    pub ty: TyIndex,
    pub projection: Vec<PlaceElem>,
}

/// An operand as the control-flow graph has it.
#[derive(Debug, PartialEq, Eq)]
pub enum RawOperand {
    Copy(RawPlace),
    Move(RawPlace),
    Constant(ConstOperand),
}

/// The operand that `raw` becomes: its place typed, its constant kept.
pub open spec fn spec_operand(types: TypeTable, raw: RawOperand) -> Result<Operand, PlaceFault> {
    match raw {
        RawOperand::Copy(p) => match types.spec_place(p.local, p.ty, p.projection@) {
            Ok(place) => Ok(Operand::Copy(place)),
            Err(f) => Err(f),
        },
        RawOperand::Move(p) => match types.spec_place(p.local, p.ty, p.projection@) {
            Ok(place) => Ok(Operand::Move(place)),
            Err(f) => Err(f),
        },
        RawOperand::Constant(c) => Ok(Operand::Constant(c)),
    }
}

/// The fault of the first of the first `k` operands that has one.
pub open spec fn spec_first_fault(
    types: TypeTable,
    args: Seq<Spanned<RawOperand>>,
    k: int,
) -> Option<PlaceFault>
    decreases k,
{
    if k <= 0 {
        None
    } else {
        match spec_first_fault(types, args, k - 1) {
            Some(f) => Some(f),
            None => match spec_operand(types, args[k - 1].node) {
                Err(f) => Some(f),
                Ok(_) => None,
            },
        }
    }
}

/// A fault among the first `k` operands is the fault among the first `m`,
/// for any `m` from `k` on.
pub proof fn lemma_first_fault_stays(
    types: TypeTable,
    args: Seq<Spanned<RawOperand>>,
    k: int,
    m: int,
)
    requires
        0 <= k <= m,
        spec_first_fault(types, args, k).is_some(),
    ensures
        spec_first_fault(types, args, m) == spec_first_fault(types, args, k),
    decreases m - k,
{
    if k < m {
        lemma_first_fault_stays(types, args, k, m - 1);
    }
}

/// Projects a place.
pub fn project_raw_place(types: &TypeTable, raw: &RawPlace) -> (r: Result<Place, PlaceFault>)
    ensures
        r == types.spec_place(raw.local, raw.ty, raw.projection@),
{
    types.project_place(raw.local, raw.ty, &raw.projection)
}

/// Projects an operand: types its place, or keeps its constant.
pub fn project_operand(types: &TypeTable, raw: RawOperand) -> (r: Result<Operand, PlaceFault>)
    ensures
        r == spec_operand(*types, raw),
{
    match raw {
        RawOperand::Copy(p) => match project_raw_place(types, &p) {
            Ok(place) => Ok(Operand::Copy(place)),
            Err(f) => Err(f),
        },
        RawOperand::Move(p) => match project_raw_place(types, &p) {
            Ok(place) => Ok(Operand::Move(place)),
            Err(f) => Err(f),
        },
        RawOperand::Constant(c) => Ok(Operand::Constant(c)),
    }
}

/// Whether `projected` are the operands `args`, projected one by one: as
/// many, in the same order, each with its span.
pub open spec fn operands_project_to(
    types: TypeTable,
    args: Seq<Spanned<RawOperand>>,
    projected: Seq<Spanned<Operand>>,
) -> bool {
    &&& projected.len() == args.len()
    &&& forall|i: int|
        0 <= i < args.len() ==> spec_operand(types, args[i].node).is_ok() && (
        #[trigger] projected[i]) == (Spanned {
            node: spec_operand(types, args[i].node)->Ok_0,
            span: args[i].span,
        })
}

/// Projects the operands of a list, in order. The first fault met is
/// returned.
pub fn project_operands(types: &TypeTable, args: Vec<Spanned<RawOperand>>) -> (r: Result<
    Vec<Spanned<Operand>>,
    PlaceFault,
>)
    ensures
        match spec_first_fault(*types, args@, args@.len() as int) {
            Some(f) => r == Err::<Vec<Spanned<Operand>>, PlaceFault>(f),
            None => r.is_ok() && operands_project_to(*types, args@, r.unwrap()@),
        },
{
    let n = args.len();
    let mut rest = crate::project::reversed(args);
    let mut out: Vec<Spanned<Operand>> = Vec::new();
    while rest.len() > 0
        invariant
            n == args@.len(),
            rest@.len() + out@.len() == n,
            forall|i: int| 0 <= i < rest@.len() ==> rest@[i] == args@[n - 1 - i],
            spec_first_fault(*types, args@, out@.len() as int).is_none(),
            operands_project_to(*types, args@.subrange(0, out@.len() as int), out@),
        decreases rest@.len(),
    {
        let ghost k = out@.len() as int;
        let ghost before = out@;
        let arg = rest.pop().unwrap();
        assert(arg == args@[k]);
        match project_operand(types, arg.node) {
            Err(f) => {
                proof {
                    lemma_first_fault_stays(*types, args@, k + 1, n as int);
                }
                return Err(f);
            },
            Ok(node) => {
                out.push(Spanned { node, span: arg.span });
                assert forall|i: int| 0 <= i < k + 1 implies spec_operand(
                    *types,
                    args@.subrange(0, k + 1)[i].node,
                ).is_ok() && (#[trigger] out@[i]) == (Spanned {
                    node: spec_operand(*types, args@.subrange(0, k + 1)[i].node)->Ok_0,
                    span: args@.subrange(0, k + 1)[i].span,
                }) by {
                    if i < k {
                        assert(out@[i] == before[i]);
                        assert(args@.subrange(0, k)[i] == args@.subrange(0, k + 1)[i]);
                    }
                }
            },
        }
    }
    assert(args@.subrange(0, n as int) =~= args@);
    Ok(out)
}

} // verus!
