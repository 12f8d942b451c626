//! Places: a local and the projections applied to it, each typed from the
//! type of the place it is applied to.
use crate::ident::Symbol;
use vstd::prelude::*;

verus! {

/// Handle of a type: its position in the type table.
pub type TyIndex = usize;

/// Position of a local among the locals of a body.
pub type Local = usize;

/// Position of a field among the fields of its container.
pub type FieldIdx = usize;

/// Position of a variant among the variants of its type.
pub type VariantIdx = usize;

/// The kinds of algebraic data types.
#[derive(Clone, Copy, Debug, PartialEq, Eq)]
pub enum AdtKind {
    Struct,
    Union,
    Enum,
}

/// What the typing of projections reads of a type.
#[derive(Clone, Debug)]
pub enum TyShape {
    /// An algebraic data type: the handle of its definition, its kind, and,
    /// when it is a box, the type of what it holds.
    Adt { def_id: usize, kind: AdtKind, boxed: Option<TyIndex> },
    Tuple,
    Ref(TyIndex),
    RawPtr(TyIndex),
    /// A closure, with the types of the variables it captures.
    Closure { upvar_tys: Vec<TyIndex> },
    Slice(TyIndex),
    Array(TyIndex),
    /// Any other type.
    Other,
}

/// The types of a program, by handle.
#[derive(Clone, Debug)]
pub struct TypeTable {
    pub shapes: Vec<TyShape>,
}

/// A projection as the control-flow graph has it.
#[derive(Clone, Copy, Debug, PartialEq, Eq)]
pub enum PlaceElem {
    Deref,
    /// A field, with the type of the field.
    Field(FieldIdx, TyIndex),
    Index(Local),
    ConstantIndex { offset: u64, min_length: u64, from_end: bool },
    Subslice { from: u64, to: u64, from_end: bool },
    /// The view of an enum value as one of its variants.
    Downcast(VariantIdx),
    OpaqueCast(TyIndex),
    Subtype(TyIndex),
}

/// The container that a field projection reads from.
#[derive(Clone, Copy, Debug, PartialEq, Eq)]
pub enum ProjectionElemFieldKind {
    Tuple(FieldIdx),
    Adt { typ: usize, variant: Option<VariantIdx>, index: FieldIdx },
    /// One of the fields of the state of a closure.
    ClosureState(FieldIdx),
}

/// A projection, resolved.
#[derive(Clone, Debug, PartialEq, Eq)]
pub enum ProjectionElem {
    Deref,
    Field(ProjectionElemFieldKind),
    Index(Local),
    ConstantIndex { offset: u64, min_length: u64, from_end: bool },
    Subslice { from: u64, to: u64, from_end: bool },
    Downcast(Option<Symbol>, VariantIdx),
    OpaqueCast,
}

/// A place, with the type of the value it denotes.
#[derive(Debug, PartialEq, Eq)]
pub struct Place {
    pub ty: TyIndex,
    pub kind: PlaceKind,
}

#[derive(Debug, PartialEq, Eq)]
pub enum PlaceKind {
    Local(Local),
    Projection { place: Box<Place>, kind: ProjectionElem },
}

/// A type that contradicts the projection applied to a place of that type.
#[derive(Clone, Copy, Debug, PartialEq, Eq)]
pub enum PlaceFault {
    /// A type handle that the table does not hold.
    UnknownType,
    /// A field of a type that is no algebraic data type, tuple or closure.
    ProjectionElemFieldBadType,
    /// A variant given for a struct or union, or none given for an enum.
    AdtVariantMismatch,
    /// A captured variable that the closure does not have.
    ClosureUpvarOutOfRange,
    PlaceDerefNotRefNorPtrNorBox,
    PlaceIndexNotSlice,
    PlaceConstantIndexNotSlice,
    UnexpectedSubtype,
    /// A downcast that no field projection follows.
    UnexpectedDowncast,
}

/// One resolved projection: the element, the type of the place after it,
/// and how many elements of the input it stands for.
pub struct Step {
    pub elem: ProjectionElem,
    pub ty: TyIndex,
    pub taken: int,
}

/// The field `index` of a value of shape `shape`, seen as the variant
/// `variant` if one is given.
pub open spec fn spec_mk_field(shape: TyShape, index: FieldIdx, variant: Option<VariantIdx>)
    -> Result<ProjectionElem, PlaceFault> {
    match shape {
        TyShape::Adt { def_id, kind, .. } => {
            if (kind != AdtKind::Enum && variant.is_none()) || (kind == AdtKind::Enum
                && variant.is_some()) {
                Ok(
                    ProjectionElem::Field(
                        ProjectionElemFieldKind::Adt { typ: def_id, variant, index },
                    ),
                )
            } else {
                Err(PlaceFault::AdtVariantMismatch)
            }
        },
        TyShape::Tuple => Ok(ProjectionElem::Field(ProjectionElemFieldKind::Tuple(index))),
        _ => Err(PlaceFault::ProjectionElemFieldBadType),
    }
}

/// The type of the elements of a slice or an array.
pub open spec fn spec_element_ty(shape: TyShape) -> Option<TyIndex> {
    match shape {
        TyShape::Slice(t) => Some(t),
        TyShape::Array(t) => Some(t),
        _ => None,
    }
}

/// The type that a reference, a raw pointer or a box points to.
pub open spec fn spec_pointee_ty(shape: TyShape) -> Option<TyIndex> {
    match shape {
        TyShape::Ref(t) => Some(t),
        TyShape::RawPtr(t) => Some(t),
        TyShape::Adt { boxed: Some(t), .. } => Some(t),
        _ => None,
    }
}

impl TypeTable {
    /// The next projection of a place of type `ty`, from the elements at
    /// `i` on. A downcast and the field projection after it make one field
    /// projection into the variant; every other element stands alone.
    pub open spec fn spec_step(self, ty: TyIndex, elems: Seq<PlaceElem>, i: int) -> Result<
        Step,
        PlaceFault,
    >
        recommends
            0 <= i < elems.len(),
    {
        let known = ty < self.shapes@.len();
        let shape = self.shapes@[ty as int];
        match elems[i] {
            PlaceElem::Downcast(variant) => {
                if i + 1 < elems.len() && elems[i + 1] is Field {
                    if !known {
                        Err(PlaceFault::UnknownType)
                    } else {
                        match spec_mk_field(shape, elems[i + 1]->Field_0, Some(variant)) {
                            Ok(elem) => Ok(Step { elem, ty: elems[i + 1]->Field_1, taken: 2 }),
                            Err(e) => Err(e),
                        }
                    }
                } else {
                    Err(PlaceFault::UnexpectedDowncast)
                }
            },
            PlaceElem::Deref => {
                if !known {
                    Err(PlaceFault::UnknownType)
                } else {
                    match spec_pointee_ty(shape) {
                        Some(t) => Ok(Step { elem: ProjectionElem::Deref, ty: t, taken: 1 }),
                        None => Err(PlaceFault::PlaceDerefNotRefNorPtrNorBox),
                    }
                }
            },
            PlaceElem::Field(index, field_ty) => {
                if !known {
                    Err(PlaceFault::UnknownType)
                } else {
                    match shape {
                        TyShape::Closure { upvar_tys } => {
                            if index < upvar_tys@.len() {
                                Ok(
                                    Step {
                                        elem: ProjectionElem::Field(
                                            ProjectionElemFieldKind::ClosureState(index),
                                        ),
                                        ty: upvar_tys@[index as int],
                                        taken: 1,
                                    },
                                )
                            } else {
                                Err(PlaceFault::ClosureUpvarOutOfRange)
                            }
                        },
                        _ => match spec_mk_field(shape, index, None) {
                            Ok(elem) => Ok(Step { elem, ty: field_ty, taken: 1 }),
                            Err(e) => Err(e),
                        },
                    }
                }
            },
            PlaceElem::Index(local) => {
                if !known {
                    Err(PlaceFault::UnknownType)
                } else {
                    match spec_element_ty(shape) {
                        Some(t) => Ok(Step { elem: ProjectionElem::Index(local), ty: t, taken: 1 }),
                        None => Err(PlaceFault::PlaceIndexNotSlice),
                    }
                }
            },
            PlaceElem::ConstantIndex { offset, min_length, from_end } => {
                if !known {
                    Err(PlaceFault::UnknownType)
                } else {
                    match spec_element_ty(shape) {
                        Some(t) => Ok(
                            Step {
                                elem: ProjectionElem::ConstantIndex { offset, min_length, from_end },
                                ty: t,
                                taken: 1,
                            },
                        ),
                        None => Err(PlaceFault::PlaceConstantIndexNotSlice),
                    }
                }
            },
            PlaceElem::Subslice { from, to, from_end } => Ok(
                Step { elem: ProjectionElem::Subslice { from, to, from_end }, ty, taken: 1 },
            ),
            PlaceElem::OpaqueCast(t) => Ok(
                Step { elem: ProjectionElem::OpaqueCast, ty: t, taken: 1 },
            ),
            PlaceElem::Subtype(_) => Err(PlaceFault::UnexpectedSubtype),
        }
    }

    /// The place that `place` becomes under the elements from `i` on, each
    /// projection typed from the place before it; or the first fault.
    pub open spec fn spec_project(self, place: Place, elems: Seq<PlaceElem>, i: int) -> Result<
        Place,
        PlaceFault,
    >
        decreases elems.len() - i,
    {
        if i < 0 || i >= elems.len() {
            Ok(place)
        } else {
            match self.spec_step(place.ty, elems, i) {
                Err(e) => Err(e),
                Ok(step) => if step.taken == 1 || step.taken == 2 {
                    self.spec_project(
                        Place {
                            ty: step.ty,
                            kind: PlaceKind::Projection { place: Box::new(place), kind: step.elem },
                        },
                        elems,
                        i + step.taken,
                    )
                } else {
                    Err(PlaceFault::UnknownType)
                },
            }
        }
    }

    /// The place of the local `local`, of type `ty`, under `projection`.
    pub open spec fn spec_place(self, local: Local, ty: TyIndex, projection: Seq<PlaceElem>)
        -> Result<Place, PlaceFault> {
        self.spec_project(Place { ty, kind: PlaceKind::Local(local) }, projection, 0)
    }
}

/// Resolves the field `index` of a value of shape `shape`, seen as the
/// variant `variant` if one is given. A struct or a union takes no variant,
/// an enum needs one; any shape but an algebraic data type or a tuple is a
/// fault.
pub fn mk_field(shape: &TyShape, index: FieldIdx, variant: Option<VariantIdx>) -> (r: Result<
    ProjectionElem,
    PlaceFault,
>)
    ensures
        r == spec_mk_field(*shape, index, variant),
{
    match shape {
        TyShape::Adt { def_id, kind, .. } => {
            let agrees = match kind {
                AdtKind::Enum => variant.is_some(),
                _ => variant.is_none(),
            };
            if agrees {
                Ok(
                    ProjectionElem::Field(
                        ProjectionElemFieldKind::Adt { typ: *def_id, variant, index },
                    ),
                )
            } else {
                Err(PlaceFault::AdtVariantMismatch)
            }
        },
        TyShape::Tuple => Ok(ProjectionElem::Field(ProjectionElemFieldKind::Tuple(index))),
        _ => Err(PlaceFault::ProjectionElemFieldBadType),
    }
}

/// The type of the elements of a slice or an array.
pub fn element_ty(shape: &TyShape) -> (r: Option<TyIndex>)
    ensures
        r == spec_element_ty(*shape),
{
    match shape {
        TyShape::Slice(t) => Some(*t),
        TyShape::Array(t) => Some(*t),
        _ => None,
    }
}

/// The type that a reference, a raw pointer or a box points to.
pub fn pointee_ty(shape: &TyShape) -> (r: Option<TyIndex>)
    ensures
        r == spec_pointee_ty(*shape),
{
    match shape {
        TyShape::Ref(t) => Some(*t),
        TyShape::RawPtr(t) => Some(*t),
        TyShape::Adt { boxed: Some(t), .. } => Some(*t),
        _ => None,
    }
}

impl TypeTable {
    /// Resolves the projection at `i`, applied to a place of type `ty`:
    /// gives the element, the type of the place after it, and the position
    /// of the next projection.
    pub fn step(&self, ty: TyIndex, elems: &Vec<PlaceElem>, i: usize) -> (r: Result<
        (ProjectionElem, TyIndex, usize),
        PlaceFault,
    >)
        requires
            i < elems@.len(),
        ensures
            match self.spec_step(ty, elems@, i as int) {
                Ok(step) => r == Ok::<(ProjectionElem, TyIndex, usize), PlaceFault>(
                    (step.elem, step.ty, (i + step.taken) as usize),
                ) && (step.taken == 1 || step.taken == 2) && i + step.taken <= elems@.len(),
                Err(e) => r == Err::<(ProjectionElem, TyIndex, usize), PlaceFault>(e),
            },
    {
        let known = ty < self.shapes.len();
        let n = elems.len();
        match elems[i] {
            PlaceElem::Downcast(variant) => {
                if i + 1 < n {
                    if let PlaceElem::Field(index, field_ty) = elems[i + 1] {
                        if !known {
                            return Err(PlaceFault::UnknownType);
                        }
                        return match mk_field(&self.shapes[ty], index, Some(variant)) {
                            Ok(elem) => Ok((elem, field_ty, i + 2)),
                            Err(e) => Err(e),
                        };
                    }
                }
                Err(PlaceFault::UnexpectedDowncast)
            },
            PlaceElem::Deref => {
                if !known {
                    return Err(PlaceFault::UnknownType);
                }
                match pointee_ty(&self.shapes[ty]) {
                    Some(t) => Ok((ProjectionElem::Deref, t, i + 1)),
                    None => Err(PlaceFault::PlaceDerefNotRefNorPtrNorBox),
                }
            },
            PlaceElem::Field(index, field_ty) => {
                if !known {
                    return Err(PlaceFault::UnknownType);
                }
                match &self.shapes[ty] {
                    TyShape::Closure { upvar_tys } => {
                        if index < upvar_tys.len() {
                            Ok(
                                (
                                    ProjectionElem::Field(
                                        ProjectionElemFieldKind::ClosureState(index),
                                    ),
                                    upvar_tys[index],
                                    i + 1,
                                ),
                            )
                        } else {
                            Err(PlaceFault::ClosureUpvarOutOfRange)
                        }
                    },
                    shape => match mk_field(shape, index, None) {
                        Ok(elem) => Ok((elem, field_ty, i + 1)),
                        Err(e) => Err(e),
                    },
                }
            },
            PlaceElem::Index(local) => {
                if !known {
                    return Err(PlaceFault::UnknownType);
                }
                match element_ty(&self.shapes[ty]) {
                    Some(t) => Ok((ProjectionElem::Index(local), t, i + 1)),
                    None => Err(PlaceFault::PlaceIndexNotSlice),
                }
            },
            PlaceElem::ConstantIndex { offset, min_length, from_end } => {
                if !known {
                    return Err(PlaceFault::UnknownType);
                }
                match element_ty(&self.shapes[ty]) {
                    Some(t) => Ok(
                        (ProjectionElem::ConstantIndex { offset, min_length, from_end }, t, i + 1),
                    ),
                    None => Err(PlaceFault::PlaceConstantIndexNotSlice),
                }
            },
            PlaceElem::Subslice { from, to, from_end } => Ok(
                (ProjectionElem::Subslice { from, to, from_end }, ty, i + 1),
            ),
            PlaceElem::OpaqueCast(t) => Ok((ProjectionElem::OpaqueCast, t, i + 1)),
            PlaceElem::Subtype(_) => Err(PlaceFault::UnexpectedSubtype),
        }
    }

    /// Builds the place of the local `local`, whose type is `ty`, under
    /// `projection`. The type of each intermediate place is derived from the
    /// type of the place before it and the projection applied; a projection
    /// that its place's type does not admit is a fault, and the first one
    /// met is returned.
    pub fn project_place(&self, local: Local, ty: TyIndex, projection: &Vec<PlaceElem>) -> (r:
        Result<Place, PlaceFault>)
        ensures
            r == self.spec_place(local, ty, projection@),
    {
        let mut current = Place { ty, kind: PlaceKind::Local(local) };
        let mut i: usize = 0;
        while i < projection.len()
            invariant
                i <= projection@.len(),
                self.spec_project(current, projection@, i as int) == self.spec_place(
                    local,
                    ty,
                    projection@,
                ),
            decreases projection@.len() - i,
        {
            match self.step(current.ty, projection, i) {
                Err(e) => {
                    return Err(e);
                },
                Ok((elem, next_ty, next)) => {
                    current =
                    Place {
                        ty: next_ty,
                        kind: PlaceKind::Projection { place: Box::new(current), kind: elem },
                    };
                    i = next;
                },
            }
        }
        Ok(current)
    }
}

/// A field projection is resolved for exactly the shapes that have fields
/// to name: with a variant that agrees with the kind of the type, a field
/// of an algebraic data type or of a tuple is never a fault; a field of any
/// other shape is always the fault `ProjectionElemFieldBadType`.
pub proof fn lemma_mk_field_total(shape: TyShape, index: FieldIdx, variant: Option<VariantIdx>)
    ensures
        shape is Tuple ==> spec_mk_field(shape, index, variant).is_ok(),
        shape matches TyShape::Adt { kind, .. } ==> (spec_mk_field(shape, index, variant).is_ok()
            <==> ((kind == AdtKind::Enum) <==> variant.is_some())),
        !(shape is Tuple) && !(shape is Adt) ==> spec_mk_field(shape, index, variant) == Err::<
            ProjectionElem,
            PlaceFault,
        >(PlaceFault::ProjectionElemFieldBadType),
{
}

/// The type of a place is that of its local when there is no projection,
/// and a place is never lost: with no projection there is no fault.
pub proof fn lemma_place_of_local(types: TypeTable, local: Local, ty: TyIndex)
    ensures
        types.spec_place(local, ty, Seq::empty()) == Ok::<Place, PlaceFault>(
            Place { ty, kind: PlaceKind::Local(local) },
        ),
{
}

} // verus!
