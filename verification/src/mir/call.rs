//! Calls: which function is called, with which generic arguments and which
//! trait witnesses.
use crate::mir::body::operands_project_to;
use crate::mir::body::project_operands;
use crate::mir::body::project_raw_place;
use crate::mir::body::spec_first_fault;
use crate::mir::body::RawOperand;
use crate::mir::body::RawPlace;
use crate::mir::body::TerminatorKind;
use crate::mir::body::UnwindAction;
use crate::mir::place::Local;
use crate::mir::place::Place;
use crate::mir::place::PlaceElem;
use crate::mir::place::PlaceFault;
use crate::mir::place::TyIndex;
use crate::mir::place::TypeTable;
use crate::mir::switch::BasicBlock;
use crate::traits::resolve::ImplExpr;
use crate::types::span::Span;
use crate::types::span::Spanned;
use crate::types::ty::GenericArg;
use crate::types::ty::Region;
use crate::types::ty::RegionKind;
use vstd::prelude::*;

verus! {

/// Handle of a generic argument.
pub type GenericArgIndex = usize;

/// What declares an associated item.
#[derive(Clone, Copy, Debug, PartialEq, Eq)]
pub enum AssocItemContainer {
    TraitContainer,
    ImplContainer,
}

/// What is known of an associated item's container: its kind, the handle of
/// its definition, and how many generic parameters it declares itself.
#[derive(Clone, Copy, Debug, PartialEq, Eq)]
pub struct AssocInfo {
    pub container: AssocItemContainer,
    pub container_def_id: usize,
    pub num_container_generics: usize,
}

/// The generic arguments of a call, parted at the number of parameters of
/// the callee's container.
#[derive(Debug, PartialEq, Eq)]
pub struct GenericsSplit {
    /// The arguments of the container.
    pub container: Vec<GenericArgIndex>,
    /// The arguments of the callee itself.
    pub method: Vec<GenericArgIndex>,
}

/// The witness that a value implements the trait whose method is called,
/// with the generic arguments of that trait.
#[derive(Debug, PartialEq, Eq)]
pub struct TraitInfo {
    pub witness: ImplExpr,
    pub generic_args: Vec<GenericArgIndex>,
}

/// A value of type `fn<...> A -> B` that can be called.
#[derive(Debug, PartialEq, Eq)]
pub enum FunOperand {
    /// Call to a statically known function.
    Static {
        def_id: usize,
        /// If `Some`, this is a call of a method of the given trait
        /// reference. Otherwise it is a call to a known function.
        trait_info: Option<TraitInfo>,
        /// For a trait method, the generic arguments of the method alone;
        /// those of the trait are in `trait_info`.
        generics: Vec<GenericArgIndex>,
        /// The witnesses of the trait bounds that the callee's generics
        /// must meet.
        trait_refs: Vec<ImplExpr>,
    },
    /// Use of a closure or a function pointer, taken from the given place.
    DynamicMove(Place),
}

/// Why a call could not be projected.
#[derive(Clone, Copy, Debug, PartialEq, Eq)]
pub enum CallFault {
    /// Fewer generic arguments than the container has parameters.
    TooFewGenerics,
    /// A trait method called without a witness for its trait.
    MissingTraitWitness,
    /// A callee whose type is neither a function nor a closure.
    ExpectedFnType,
    /// A variable bound at the call that is no lifetime.
    NonLifetimeLateBound,
    /// A callee of a function pointer's or a closure's type that is a
    /// constant, and so has no place.
    UnsupportedCallee,
    /// The place of the callee, of an argument or of the destination is
    /// ill-typed.
    Place(PlaceFault),
}

/// The first `n` generic arguments, and the rest.
pub open spec fn spec_split_generics(generics: Seq<GenericArgIndex>, n: usize) -> Option<
    (Seq<GenericArgIndex>, Seq<GenericArgIndex>),
> {
    if n <= generics.len() {
        Some((generics.subrange(0, n as int), generics.subrange(n as int, generics.len() as int)))
    } else {
        None
    }
}

/// Parts the generic arguments received at a call of an associated item
/// into those of the item's container, which come first, and those of the
/// item itself. The split point is the number of generic parameters that
/// the container declares.
pub fn split_generics(generics: &Vec<GenericArgIndex>, num_container_generics: usize) -> (r:
    Result<GenericsSplit, CallFault>)
    ensures
        match spec_split_generics(generics@, num_container_generics) {
            Some((container, method)) => r.is_ok() && r.unwrap().container@ == container
                && r.unwrap().method@ == method,
            None => r == Err::<GenericsSplit, CallFault>(CallFault::TooFewGenerics),
        },
{
    if num_container_generics > generics.len() {
        return Err(CallFault::TooFewGenerics);
    }
    let mut container: Vec<GenericArgIndex> = Vec::new();
    let mut method: Vec<GenericArgIndex> = Vec::new();
    let mut i: usize = 0;
    while i < generics.len()
        invariant
            i <= generics@.len(),
            num_container_generics <= generics@.len(),
            i <= num_container_generics ==> container@ == generics@.subrange(0, i as int)
                && method@.len() == 0,
            i > num_container_generics ==> container@ == generics@.subrange(
                0,
                num_container_generics as int,
            ) && method@ == generics@.subrange(num_container_generics as int, i as int),
        decreases generics@.len() - i,
    {
        if i < num_container_generics {
            container.push(generics[i]);
            assert(container@ =~= generics@.subrange(0, i + 1));
        } else {
            method.push(generics[i]);
            assert(container@ =~= generics@.subrange(0, num_container_generics as int));
            assert(method@ =~= generics@.subrange(num_container_generics as int, i + 1));
        }
        i += 1;
    }
    assert(container@ =~= generics@.subrange(0, num_container_generics as int));
    assert(method@ =~= generics@.subrange(
        num_container_generics as int,
        generics@.len() as int,
    ));
    Ok(GenericsSplit { container, method })
}

/// A statically known callee, ready to be referred to.
#[derive(Debug, PartialEq, Eq)]
pub struct StaticCallee {
    pub def_id: usize,
    pub generics: Vec<GenericArgIndex>,
    pub trait_refs: Vec<ImplExpr>,
    pub trait_info: Option<TraitInfo>,
}

/// A trait witness with its generic arguments, as a mathematical value.
pub struct TraitInfoView {
    pub witness: ImplExpr,
    pub generic_args: Seq<GenericArgIndex>,
}

/// A callee as a mathematical value.
pub struct StaticCalleeView {
    pub def_id: usize,
    pub generics: Seq<GenericArgIndex>,
    pub trait_refs: Seq<ImplExpr>,
    pub trait_info: Option<TraitInfoView>,
}

impl View for TraitInfo {
    type V = TraitInfoView;

    open spec fn view(&self) -> TraitInfoView {
        TraitInfoView { witness: self.witness, generic_args: self.generic_args@ }
    }
}

impl View for StaticCallee {
    type V = StaticCalleeView;

    open spec fn view(&self) -> StaticCalleeView {
        StaticCalleeView {
            def_id: self.def_id,
            generics: self.generics@,
            trait_refs: self.trait_refs@,
            trait_info: match self.trait_info {
                Some(t) => Some(t@),
                None => None,
            },
        }
    }
}

/// What a call of `def_id` with `generics` refers to.
/// - A method of a trait: the witness of the trait carries the container's
///   generics, the callee keeps the method's own, and the requirements are
///   the method's.
/// - A method of an impl: the callee keeps all generics, and the
///   requirements of the impl come before those of the method.
/// - Any other function: all generics, and its own requirements.
pub open spec fn spec_static_callee(
    def_id: usize,
    generics: Seq<GenericArgIndex>,
    assoc: Option<AssocInfo>,
    method_trait_refs: Seq<ImplExpr>,
    self_clause: Option<ImplExpr>,
    container_trait_refs: Seq<ImplExpr>,
) -> Result<StaticCalleeView, CallFault> {
    match assoc {
        None => Ok(
            StaticCalleeView {
                def_id,
                generics,
                trait_refs: method_trait_refs,
                trait_info: None,
            },
        ),
        Some(info) => match spec_split_generics(generics, info.num_container_generics) {
            None => Err(CallFault::TooFewGenerics),
            Some((container, method)) => match info.container {
                AssocItemContainer::TraitContainer => match self_clause {
                    None => Err(CallFault::MissingTraitWitness),
                    Some(witness) => Ok(
                        StaticCalleeView {
                            def_id,
                            generics: method,
                            trait_refs: method_trait_refs,
                            trait_info: Some(TraitInfoView { witness, generic_args: container }),
                        },
                    ),
                },
                AssocItemContainer::ImplContainer => Ok(
                    StaticCalleeView {
                        def_id,
                        generics,
                        trait_refs: container_trait_refs + method_trait_refs,
                        trait_info: None,
                    },
                ),
            },
        },
    }
}

/// Parting a list of generic arguments loses nothing: the container's part
/// followed by the method's part is the list.
pub proof fn lemma_split_generics_concat(generics: Seq<GenericArgIndex>, n: usize)
    requires
        n <= generics.len(),
    ensures
        spec_split_generics(generics, n).is_some(),
        spec_split_generics(generics, n).unwrap().0 + spec_split_generics(generics, n).unwrap().1
            == generics,
        spec_split_generics(generics, n).unwrap().0.len() == n,
{
    let parts = spec_split_generics(generics, n).unwrap();
    assert(parts.0 + parts.1 =~= generics);
}

/// For a call of a trait method, the generic arguments of the trait's
/// witness followed by the generic arguments kept for the method are the
/// generic arguments received at the call, in their order.
pub proof fn lemma_trait_call_generics_round_trip(
    def_id: usize,
    generics: Seq<GenericArgIndex>,
    info: AssocInfo,
    method_trait_refs: Seq<ImplExpr>,
    self_clause: Option<ImplExpr>,
    container_trait_refs: Seq<ImplExpr>,
)
    requires
        info.container == AssocItemContainer::TraitContainer,
        spec_static_callee(
            def_id,
            generics,
            Some(info),
            method_trait_refs,
            self_clause,
            container_trait_refs,
        ).is_ok(),
    ensures
        ({
            let callee = spec_static_callee(
                def_id,
                generics,
                Some(info),
                method_trait_refs,
                self_clause,
                container_trait_refs,
            ).unwrap();
            &&& callee.trait_info.is_some()
            &&& callee.trait_info.unwrap().generic_args + callee.generics == generics
            &&& callee.trait_info.unwrap().generic_args.len() == info.num_container_generics
        }),
{
    lemma_split_generics_concat(generics, info.num_container_generics);
}

/// Assembles the reference to a statically known callee.
/// `method_trait_refs` are the witnesses of the callee's own requirements;
/// `self_clause` is the witness of the trait of a trait method;
/// `container_trait_refs` are the witnesses of the requirements of the impl
/// of an impl method. `requirement_generics` gives the generic arguments
/// that each of them is resolved under.
pub fn get_function_from_def_id_and_generics(
    def_id: usize,
    generics: Vec<GenericArgIndex>,
    assoc: Option<AssocInfo>,
    method_trait_refs: Vec<ImplExpr>,
    self_clause: Option<ImplExpr>,
    container_trait_refs: Vec<ImplExpr>,
) -> (r: Result<StaticCallee, CallFault>)
    ensures
        match spec_static_callee(
            def_id,
            generics@,
            assoc,
            method_trait_refs@,
            self_clause,
            container_trait_refs@,
        ) {
            Ok(view) => r.is_ok() && r.unwrap()@ == view,
            Err(e) => r == Err::<StaticCallee, CallFault>(e),
        },
{
    match assoc {
        None => Ok(
            StaticCallee { def_id, generics, trait_refs: method_trait_refs, trait_info: None },
        ),
        Some(info) => {
            let split = match split_generics(&generics, info.num_container_generics) {
                Ok(split) => split,
                Err(e) => {
                    return Err(e);
                },
            };
            match info.container {
                AssocItemContainer::TraitContainer => match self_clause {
                    None => Err(CallFault::MissingTraitWitness),
                    Some(witness) => Ok(
                        StaticCallee {
                            def_id,
                            generics: split.method,
                            trait_refs: method_trait_refs,
                            trait_info: Some(
                                TraitInfo { witness, generic_args: split.container },
                            ),
                        },
                    ),
                },
                AssocItemContainer::ImplContainer => {
                    let mut combined = container_trait_refs;
                    let mut rest = method_trait_refs;
                    combined.append(&mut rest);
                    Ok(StaticCallee { def_id, generics, trait_refs: combined, trait_info: None })
                },
            }
        },
    }
}

/// The kinds of variables that a signature binds.
#[derive(Clone, Copy, Debug, PartialEq, Eq)]
pub enum BoundVariableKind {
    Ty,
    Region,
    Const,
}

/// What the projection of a call reads of the callee's type.
#[derive(Debug, PartialEq, Eq)]
pub enum CalleeKind {
    /// The type of one function: it carries no value, and names the
    /// function with its generic arguments.
    FnDef { def_id: usize, generics: Vec<GenericArgIndex> },
    FnPtr,
    Closure,
    /// A type that cannot be called.
    Other,
}

/// The operand that a call takes its callee from.
#[derive(Debug, PartialEq, Eq)]
pub enum CalleeOperand {
    Constant,
    Move { local: Local, ty: TyIndex, projection: Vec<PlaceElem> },
    Copy { local: Local, ty: TyIndex, projection: Vec<PlaceElem> },
}

/// What the trait resolver found for a statically known callee.
#[derive(Debug, PartialEq, Eq)]
pub struct CalleeWitnesses {
    pub assoc: Option<AssocInfo>,
    pub method_trait_refs: Vec<ImplExpr>,
    pub self_clause: Option<ImplExpr>,
    pub container_trait_refs: Vec<ImplExpr>,
}

/// The head of a call: what is called, and the generic arguments bound anew
/// at this call.
#[derive(Debug, PartialEq, Eq)]
pub struct Call {
    pub fun: FunOperand,
    /// One erased lifetime for each variable that the callee's signature
    /// binds.
    pub late_bound_generics: Vec<GenericArg>,
}

/// A callee as a mathematical value.
pub enum FunOperandView {
    Static(StaticCalleeView),
    DynamicMove(Place),
}

impl View for FunOperand {
    type V = FunOperandView;

    open spec fn view(&self) -> FunOperandView {
        match *self {
            FunOperand::Static { def_id, trait_info, generics, trait_refs } => {
                FunOperandView::Static(
                    StaticCalleeView {
                        def_id,
                        generics: generics@,
                        trait_refs: trait_refs@,
                        trait_info: match trait_info {
                            Some(t) => Some(t@),
                            None => None,
                        },
                    },
                )
            },
            FunOperand::DynamicMove(place) => FunOperandView::DynamicMove(place),
        }
    }
}

/// The callee of a call, classified by its type alone: the function that
/// the callee's type names, when it names one; else, for a function pointer
/// or a closure, the place that holds the callee, whether the call moves or
/// copies it. A constant of such a type has no place, and is a fault.
pub open spec fn spec_fun_operand(
    types: TypeTable,
    kind: CalleeKind,
    operand: CalleeOperand,
    witnesses: CalleeWitnesses,
) -> Result<FunOperandView, CallFault> {
    match kind {
        CalleeKind::Other => Err(CallFault::ExpectedFnType),
        CalleeKind::FnDef { def_id, generics } => match spec_static_callee(
            def_id,
            generics@,
            witnesses.assoc,
            witnesses.method_trait_refs@,
            witnesses.self_clause,
            witnesses.container_trait_refs@,
        ) {
            Ok(c) => Ok(FunOperandView::Static(c)),
            Err(e) => Err(e),
        },
        _ => match operand {
            CalleeOperand::Move { local, ty, projection }
            | CalleeOperand::Copy { local, ty, projection } => match types.spec_place(
                local,
                ty,
                projection@,
            ) {
                Ok(place) => Ok(FunOperandView::DynamicMove(place)),
                Err(e) => Err(CallFault::Place(e)),
            },
            CalleeOperand::Constant => Err(CallFault::UnsupportedCallee),
        },
    }
}

/// Whether every variable that a signature binds is a lifetime.
pub open spec fn all_regions(bound_vars: Seq<BoundVariableKind>) -> bool {
    forall|i: int| 0 <= i < bound_vars.len() ==> bound_vars[i] == BoundVariableKind::Region
}

/// The erased lifetime, as a generic argument.
pub open spec fn erased_lifetime() -> GenericArg {
    GenericArg::Lifetime(Region { kind: RegionKind::ReErased })
}

/// The callee of a call whose signature binds `bound_vars`: the callee by
/// its type, provided that every bound variable is a lifetime.
pub open spec fn spec_call_head(
    types: TypeTable,
    kind: CalleeKind,
    bound_vars: Seq<BoundVariableKind>,
    operand: CalleeOperand,
    witnesses: CalleeWitnesses,
) -> Result<FunOperandView, CallFault> {
    match spec_fun_operand(types, kind, operand, witnesses) {
        Err(e) => Err(e),
        Ok(fun) => if all_regions(bound_vars) {
            Ok(fun)
        } else {
            Err(CallFault::NonLifetimeLateBound)
        },
    }
}

/// Projects the head of a call. The callee is classified by its type: a
/// function type names the callee, with its trait witnesses; a function
/// pointer or a closure is called through the value held in a place. Every
/// variable that the callee's signature binds must be a lifetime, and is
/// instantiated with the erased lifetime.
pub fn call_head(
    types: &TypeTable,
    kind: CalleeKind,
    bound_vars: &Vec<BoundVariableKind>,
    operand: CalleeOperand,
    witnesses: CalleeWitnesses,
) -> (r: Result<Call, CallFault>)
    ensures
        match spec_fun_operand(*types, kind, operand, witnesses) {
            Err(e) => r == Err::<Call, CallFault>(e),
            Ok(fun) => if all_regions(bound_vars@) {
                &&& r.is_ok()
                &&& r.unwrap().fun@ == fun
                &&& r.unwrap().late_bound_generics@.len() == bound_vars@.len()
                &&& forall|i: int|
                    0 <= i < bound_vars@.len() ==> r.unwrap().late_bound_generics@[i]
                        == erased_lifetime()
            } else {
                r == Err::<Call, CallFault>(CallFault::NonLifetimeLateBound)
            },
        },
{
    let fun = match kind {
        CalleeKind::Other => {
            return Err(CallFault::ExpectedFnType);
        },
        CalleeKind::FnDef { def_id, generics } => {
            match get_function_from_def_id_and_generics(
                def_id,
                generics,
                witnesses.assoc,
                witnesses.method_trait_refs,
                witnesses.self_clause,
                witnesses.container_trait_refs,
            ) {
                Ok(c) => FunOperand::Static {
                    def_id: c.def_id,
                    trait_info: c.trait_info,
                    generics: c.generics,
                    trait_refs: c.trait_refs,
                },
                Err(e) => {
                    return Err(e);
                },
            }
        },
        _ => match operand {
            CalleeOperand::Move { local, ty, projection }
            | CalleeOperand::Copy { local, ty, projection } => {
                match types.project_place(local, ty, &projection) {
                    Ok(place) => FunOperand::DynamicMove(place),
                    Err(e) => {
                        return Err(CallFault::Place(e));
                    },
                }
            },
            CalleeOperand::Constant => {
                return Err(CallFault::UnsupportedCallee);
            },
        },
    };
    let mut late: Vec<GenericArg> = Vec::new();
    let mut i: usize = 0;
    while i < bound_vars.len()
        invariant
            i <= bound_vars@.len(),
            late@.len() == i,
            spec_fun_operand(*types, kind, operand, witnesses) == Ok::<FunOperandView, CallFault>(
                fun@,
            ),
            forall|j: int| 0 <= j < i ==> bound_vars@[j] == BoundVariableKind::Region,
            forall|j: int| 0 <= j < i ==> late@[j] == erased_lifetime(),
        decreases bound_vars@.len() - i,
    {
        match bound_vars[i] {
            BoundVariableKind::Region => {
                late.push(GenericArg::Lifetime(Region { kind: RegionKind::ReErased }));
            },
            _ => {
                assert(bound_vars@[i as int] != BoundVariableKind::Region);
                return Err(CallFault::NonLifetimeLateBound);
            },
        }
        i += 1;
    }
    Ok(Call { fun, late_bound_generics: late })
}

/// A call as the control-flow graph has it.
#[derive(Debug, PartialEq, Eq)]
pub struct RawCall {
    /// What is read of the type of the callee.
    pub kind: CalleeKind,
    /// The variables that the signature of the callee binds.
    pub bound_vars: Vec<BoundVariableKind>,
    /// The operand that holds the callee.
    pub func: CalleeOperand,
    pub args: Vec<Spanned<RawOperand>>,
    pub destination: RawPlace,
    /// The block that the call returns to, if it returns.
    pub target: Option<BasicBlock>,
    pub unwind: UnwindAction,
    pub fn_span: Span,
}

/// Whether `r` is the call terminator that `call` becomes:
/// - the callee is classified by its type, and the variables bound at the
///   call are instantiated with erased lifetimes;
/// - the arguments are projected one by one: as many, in the same order,
///   each with its span;
/// - the destination is projected;
/// - the target, the unwinding and the span of the call are kept, so the
///   terminator has a target exactly when the call has one.
/// The first fault, in that order, is the result.
pub open spec fn call_projects_to(
    types: TypeTable,
    call: RawCall,
    witnesses: CalleeWitnesses,
    r: Result<TerminatorKind, CallFault>,
) -> bool {
    match spec_call_head(types, call.kind, call.bound_vars@, call.func, witnesses) {
        Err(e) => r == Err::<TerminatorKind, CallFault>(e),
        Ok(callee) => match spec_first_fault(types, call.args@, call.args@.len() as int) {
            Some(f) => r == Err::<TerminatorKind, CallFault>(CallFault::Place(f)),
            None => match types.spec_place(
                call.destination.local,
                call.destination.ty,
                call.destination.projection@,
            ) {
                Err(f) => r == Err::<TerminatorKind, CallFault>(CallFault::Place(f)),
                Ok(place) => {
                    &&& r matches Ok(
                        TerminatorKind::Call {
                            fun,
                            late_bound_generics,
                            args,
                            destination,
                            target,
                            unwind,
                            fn_span,
                        },
                    )
                    &&& fun@ == callee
                    &&& late_bound_generics@.len() == call.bound_vars@.len()
                    &&& forall|i: int|
                        0 <= i < late_bound_generics@.len() ==> late_bound_generics@[i]
                            == erased_lifetime()
                    &&& operands_project_to(types, call.args@, args@)
                    &&& destination == place
                    &&& target == call.target
                    &&& unwind == call.unwind
                    &&& fn_span == call.fn_span
                },
            },
        },
    }
}

/// Projects a call terminator: the callee with its generic arguments and
/// trait witnesses, the arguments, the destination and where the call goes
/// on.
pub fn translate_terminator_kind_call(
    types: &TypeTable,
    call: RawCall,
    witnesses: CalleeWitnesses,
) -> (r: Result<TerminatorKind, CallFault>)
    ensures
        call_projects_to(*types, call, witnesses, r),
{
    let head = match call_head(types, call.kind, &call.bound_vars, call.func, witnesses) {
        Ok(head) => head,
        Err(e) => {
            return Err(e);
        },
    };
    let args = match project_operands(types, call.args) {
        Ok(args) => args,
        Err(f) => {
            return Err(CallFault::Place(f));
        },
    };
    let destination = match project_raw_place(types, &call.destination) {
        Ok(place) => place,
        Err(f) => {
            return Err(CallFault::Place(f));
        },
    };
    Ok(
        TerminatorKind::Call {
            fun: head.fun,
            late_bound_generics: head.late_bound_generics,
            args,
            destination,
            target: call.target,
            unwind: call.unwind,
            fn_span: call.fn_span,
        },
    )
}

/// The generic arguments under which the requirements of a container are
/// resolved.
#[derive(Debug, PartialEq, Eq)]
pub struct ContainerGenerics {
    /// Whether it is a trait, whose reference is to be witnessed, or an
    /// impl, whose requirements are to be witnessed.
    pub container: AssocItemContainer,
    /// Handle of the container's definition.
    pub def_id: usize,
    /// The generic arguments of the container.
    pub generics: Vec<GenericArgIndex>,
}

/// The generic arguments under which the trait requirements of a callee are
/// resolved.
#[derive(Debug, PartialEq, Eq)]
pub struct RequirementGenerics {
    /// For the requirements of the callee itself.
    pub method: Vec<GenericArgIndex>,
    /// For the container of the callee, when it has one.
    pub container: Option<ContainerGenerics>,
}

/// Gives, for a call of a function with `generics`, the generic arguments
/// under which each requirement is to be resolved before the callee is
/// assembled: the callee's own requirements under all of `generics`; the
/// requirements of its container, or the reference to its trait, under the
/// part of `generics` that belongs to the container, which comes first.
pub fn requirement_generics(generics: &Vec<GenericArgIndex>, assoc: Option<AssocInfo>) -> (r:
    Result<RequirementGenerics, CallFault>)
    ensures
        match assoc {
            None => {
                &&& r.is_ok()
                &&& r.unwrap().method@ == generics@
                &&& r.unwrap().container.is_none()
            },
            Some(info) => match spec_split_generics(generics@, info.num_container_generics) {
                None => r == Err::<RequirementGenerics, CallFault>(CallFault::TooFewGenerics),
                Some((first, _)) => {
                    &&& r.is_ok()
                    &&& r.unwrap().method@ == generics@
                    &&& r.unwrap().container matches Some(c)
                    &&& c.container == info.container
                    &&& c.def_id == info.container_def_id
                    &&& c.generics@ == first
                },
            },
        },
{
    match assoc {
        None => {
            let all = match split_generics(generics, 0) {
                Ok(split) => split.method,
                Err(e) => {
                    return Err(e);
                },
            };
            assert(all@ =~= generics@);
            Ok(RequirementGenerics { method: all, container: None })
        },
        Some(info) => {
            let first = match split_generics(generics, info.num_container_generics) {
                Ok(split) => split.container,
                Err(e) => {
                    return Err(e);
                },
            };
            let all = match split_generics(generics, 0) {
                Ok(split) => split.method,
                Err(e) => {
                    return Err(e);
                },
            };
            assert(all@ =~= generics@);
            Ok(
                RequirementGenerics {
                    method: all,
                    container: Some(
                        ContainerGenerics {
                            container: info.container,
                            def_id: info.container_def_id,
                            generics: first,
                        },
                    ),
                },
            )
        },
    }
}

/// The witnesses of a callee are resolved under generic arguments that,
/// together, are those received at the call: for a trait method, the
/// arguments of the trait's reference followed by those that the callee
/// keeps are the arguments that the method's own requirements are resolved
/// under.
pub proof fn lemma_requirement_generics_agree(
    def_id: usize,
    generics: Seq<GenericArgIndex>,
    info: AssocInfo,
    method_trait_refs: Seq<ImplExpr>,
    self_clause: Option<ImplExpr>,
    container_trait_refs: Seq<ImplExpr>,
)
    requires
        spec_static_callee(
            def_id,
            generics,
            Some(info),
            method_trait_refs,
            self_clause,
            container_trait_refs,
        ).is_ok(),
    ensures
        spec_split_generics(generics, info.num_container_generics).is_some(),
        ({
            let callee = spec_static_callee(
                def_id,
                generics,
                Some(info),
                method_trait_refs,
                self_clause,
                container_trait_refs,
            ).unwrap();
            let first = spec_split_generics(generics, info.num_container_generics).unwrap().0;
            match info.container {
                AssocItemContainer::TraitContainer => callee.trait_info.is_some()
                    && callee.trait_info.unwrap().generic_args == first && first + callee.generics
                    == generics,
                AssocItemContainer::ImplContainer => callee.generics == generics,
            }
        }),
{
    lemma_split_generics_concat(generics, info.num_container_generics);
}

} // verus!
