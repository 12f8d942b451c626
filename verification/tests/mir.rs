use hax_frontend_exporter::mir::body::name_locals;
use hax_frontend_exporter::mir::body::name_of_local;
use hax_frontend_exporter::mir::body::project_operand;
use hax_frontend_exporter::mir::body::project_operands;
use hax_frontend_exporter::mir::body::promoted_constant;
use hax_frontend_exporter::mir::body::RawOperand;
use hax_frontend_exporter::mir::body::RawPlace;
use hax_frontend_exporter::mir::body::BinOp;
use hax_frontend_exporter::mir::body::ConstAction;
use hax_frontend_exporter::mir::body::ConstFault;
use hax_frontend_exporter::mir::body::ConstKind;
use hax_frontend_exporter::mir::body::ConstOperand;
use hax_frontend_exporter::mir::body::BasicBlockData;
use hax_frontend_exporter::mir::body::Built;
use hax_frontend_exporter::mir::body::LocalDecl;
use hax_frontend_exporter::mir::body::MirBody;
use hax_frontend_exporter::mir::body::Operand;
use hax_frontend_exporter::mir::body::RawBinOp;
use hax_frontend_exporter::mir::body::SourceInfo;
use hax_frontend_exporter::mir::body::Terminator;
use hax_frontend_exporter::mir::body::TerminatorKind;
use hax_frontend_exporter::mir::body::VarDebugInfo;
use hax_frontend_exporter::mir::body::VarDebugInfoContents;
use hax_frontend_exporter::mir::call::get_function_from_def_id_and_generics;
use hax_frontend_exporter::mir::call::split_generics;
use hax_frontend_exporter::mir::call::call_head;
use hax_frontend_exporter::mir::call::requirement_generics;
use hax_frontend_exporter::mir::call::translate_terminator_kind_call;
use hax_frontend_exporter::mir::call::ContainerGenerics;
use hax_frontend_exporter::mir::call::RawCall;
use hax_frontend_exporter::mir::call::RequirementGenerics;
use hax_frontend_exporter::mir::call::AssocInfo;
use hax_frontend_exporter::mir::call::AssocItemContainer;
use hax_frontend_exporter::mir::call::BoundVariableKind;
use hax_frontend_exporter::mir::call::Call;
use hax_frontend_exporter::mir::call::CallFault;
use hax_frontend_exporter::mir::call::CalleeKind;
use hax_frontend_exporter::mir::call::CalleeOperand;
use hax_frontend_exporter::mir::call::CalleeWitnesses;
use hax_frontend_exporter::mir::call::FunOperand;
use hax_frontend_exporter::mir::call::GenericsSplit;
use hax_frontend_exporter::mir::call::StaticCallee;
use hax_frontend_exporter::mir::call::TraitInfo;
use hax_frontend_exporter::mir::place::element_ty;
use hax_frontend_exporter::mir::place::mk_field;
use hax_frontend_exporter::mir::place::pointee_ty;
use hax_frontend_exporter::mir::place::AdtKind;
use hax_frontend_exporter::mir::place::Place;
use hax_frontend_exporter::mir::place::PlaceElem;
use hax_frontend_exporter::mir::place::PlaceFault;
use hax_frontend_exporter::mir::place::PlaceKind;
use hax_frontend_exporter::mir::place::ProjectionElem;
use hax_frontend_exporter::mir::place::ProjectionElemFieldKind;
use hax_frontend_exporter::mir::place::TyShape;
use hax_frontend_exporter::mir::place::TypeTable;
use hax_frontend_exporter::mir::switch::le_bytes;
use hax_frontend_exporter::mir::switch::translate_switch_targets;
use hax_frontend_exporter::mir::switch::IntUintTy;
use hax_frontend_exporter::mir::switch::ScalarInt;
use hax_frontend_exporter::mir::switch::SwitchFault;
use hax_frontend_exporter::mir::switch::SwitchTargets;
use hax_frontend_exporter::traits::resolve::ImplExpr;
use hax_frontend_exporter::traits::resolve::ImplExprAtom;
use hax_frontend_exporter::types::span::FileName;
use hax_frontend_exporter::types::span::Loc;
use hax_frontend_exporter::types::span::Span;
use hax_frontend_exporter::types::span::Spanned;
use hax_frontend_exporter::types::ty::ConstantExpr;
use hax_frontend_exporter::types::ty::GenericArg;
use hax_frontend_exporter::types::ty::IntTy;
use hax_frontend_exporter::types::ty::Mutability;
use hax_frontend_exporter::types::ty::Region;
use hax_frontend_exporter::types::ty::RegionKind;
use hax_frontend_exporter::types::ty::Ty;
use hax_frontend_exporter::types::ty::UintTy;

// Types of the table below, by handle.
const STRUCT: usize = 0;
const ENUM: usize = 1;
const TUPLE: usize = 2;
const REF_STRUCT: usize = 3;
const BOX_TUPLE: usize = 4;
const CLOSURE: usize = 5;
const SLICE: usize = 6;
const ARRAY: usize = 7;
const INT: usize = 8;
const PTR: usize = 9;
const UNION: usize = 10;

fn types() -> TypeTable {
    TypeTable {
        shapes: vec![
            TyShape::Adt { def_id: 100, kind: AdtKind::Struct, boxed: None },
            TyShape::Adt { def_id: 101, kind: AdtKind::Enum, boxed: None },
            TyShape::Tuple,
            TyShape::Ref(STRUCT),
            TyShape::Adt { def_id: 102, kind: AdtKind::Struct, boxed: Some(TUPLE) },
            TyShape::Closure { upvar_tys: vec![INT, TUPLE] },
            TyShape::Slice(INT),
            TyShape::Array(STRUCT),
            TyShape::Other,
            TyShape::RawPtr(ENUM),
            TyShape::Adt { def_id: 103, kind: AdtKind::Union, boxed: None },
        ],
    }
}

fn local(local: usize, ty: usize) -> Place {
    Place { ty, kind: PlaceKind::Local(local) }
}

fn proj(place: Place, kind: ProjectionElem, ty: usize) -> Place {
    Place { ty, kind: PlaceKind::Projection { place: Box::new(place), kind } }
}

#[test]
fn a_local_is_a_place() {
    assert_eq!(types().project_place(3, INT, &vec![]), Ok(local(3, INT)));
    // The type of a bare local is not looked up.
    assert_eq!(types().project_place(3, 999, &vec![]), Ok(local(3, 999)));
}

#[test]
fn deref_then_field_of_a_struct() {
    let r = types().project_place(1, REF_STRUCT, &vec![PlaceElem::Deref, PlaceElem::Field(2, INT)]);
    let expected = proj(
        proj(local(1, REF_STRUCT), ProjectionElem::Deref, STRUCT),
        ProjectionElem::Field(ProjectionElemFieldKind::Adt { typ: 100, variant: None, index: 2 }),
        INT,
    );
    assert_eq!(r, Ok(expected));
}

#[test]
fn downcast_folds_into_the_field_that_follows() {
    let r = types().project_place(0, ENUM, &vec![PlaceElem::Downcast(1), PlaceElem::Field(0, TUPLE)]);
    let expected = proj(
        local(0, ENUM),
        ProjectionElem::Field(ProjectionElemFieldKind::Adt { typ: 101, variant: Some(1), index: 0 }),
        TUPLE,
    );
    assert_eq!(r, Ok(expected));
}

#[test]
fn tuple_box_pointer_and_closure_fields() {
    let r = types().project_place(0, BOX_TUPLE, &vec![PlaceElem::Deref, PlaceElem::Field(1, INT)]);
    assert_eq!(
        r,
        Ok(proj(
            proj(local(0, BOX_TUPLE), ProjectionElem::Deref, TUPLE),
            ProjectionElem::Field(ProjectionElemFieldKind::Tuple(1)),
            INT
        ))
    );
    let r = types().project_place(0, PTR, &vec![PlaceElem::Deref]);
    assert_eq!(r, Ok(proj(local(0, PTR), ProjectionElem::Deref, ENUM)));
    // The type of a captured variable comes from the closure, not from the projection.
    let r = types().project_place(0, CLOSURE, &vec![PlaceElem::Field(1, INT)]);
    assert_eq!(
        r,
        Ok(proj(
            local(0, CLOSURE),
            ProjectionElem::Field(ProjectionElemFieldKind::ClosureState(1)),
            TUPLE
        ))
    );
}

#[test]
fn indexing_and_casts() {
    let elems = vec![
        PlaceElem::Subslice { from: 1, to: 2, from_end: true },
        PlaceElem::Index(9),
        PlaceElem::OpaqueCast(ARRAY),
        PlaceElem::ConstantIndex { offset: 3, min_length: 4, from_end: false },
    ];
    let base = local(0, SLICE);
    let sliced = proj(base, ProjectionElem::Subslice { from: 1, to: 2, from_end: true }, SLICE);
    let indexed = proj(sliced, ProjectionElem::Index(9), INT);
    let cast = proj(indexed, ProjectionElem::OpaqueCast, ARRAY);
    let element = proj(
        cast,
        ProjectionElem::ConstantIndex { offset: 3, min_length: 4, from_end: false },
        STRUCT,
    );
    assert_eq!(types().project_place(0, SLICE, &elems), Ok(element));
}

#[test]
fn every_fault_of_a_place() {
    let t = types();
    let f = |ty: usize, elems: Vec<PlaceElem>| t.project_place(0, ty, &elems);
    assert_eq!(f(INT, vec![PlaceElem::Field(0, INT)]), Err(PlaceFault::ProjectionElemFieldBadType));
    assert_eq!(f(SLICE, vec![PlaceElem::Field(0, INT)]), Err(PlaceFault::ProjectionElemFieldBadType));
    assert_eq!(f(ENUM, vec![PlaceElem::Field(0, INT)]), Err(PlaceFault::AdtVariantMismatch));
    assert_eq!(
        f(STRUCT, vec![PlaceElem::Downcast(0), PlaceElem::Field(0, INT)]),
        Err(PlaceFault::AdtVariantMismatch)
    );
    assert_eq!(
        f(UNION, vec![PlaceElem::Downcast(0), PlaceElem::Field(0, INT)]),
        Err(PlaceFault::AdtVariantMismatch)
    );
    assert_eq!(f(CLOSURE, vec![PlaceElem::Field(2, INT)]), Err(PlaceFault::ClosureUpvarOutOfRange));
    assert_eq!(f(STRUCT, vec![PlaceElem::Deref]), Err(PlaceFault::PlaceDerefNotRefNorPtrNorBox));
    assert_eq!(f(TUPLE, vec![PlaceElem::Index(0)]), Err(PlaceFault::PlaceIndexNotSlice));
    assert_eq!(
        f(TUPLE, vec![PlaceElem::ConstantIndex { offset: 0, min_length: 1, from_end: false }]),
        Err(PlaceFault::PlaceConstantIndexNotSlice)
    );
    assert_eq!(f(INT, vec![PlaceElem::Subtype(INT)]), Err(PlaceFault::UnexpectedSubtype));
    assert_eq!(f(ENUM, vec![PlaceElem::Downcast(0)]), Err(PlaceFault::UnexpectedDowncast));
    assert_eq!(
        f(ENUM, vec![PlaceElem::Downcast(0), PlaceElem::Deref]),
        Err(PlaceFault::UnexpectedDowncast)
    );
    assert_eq!(f(999, vec![PlaceElem::Deref]), Err(PlaceFault::UnknownType));
    // The first fault is the one returned.
    assert_eq!(
        f(REF_STRUCT, vec![PlaceElem::Deref, PlaceElem::Index(0), PlaceElem::Subtype(0)]),
        Err(PlaceFault::PlaceIndexNotSlice)
    );
}

#[test]
fn field_of_a_union_takes_no_variant() {
    let r = types().project_place(0, UNION, &vec![PlaceElem::Field(1, INT)]);
    assert_eq!(
        r,
        Ok(proj(
            local(0, UNION),
            ProjectionElem::Field(ProjectionElemFieldKind::Adt { typ: 103, variant: None, index: 1 }),
            INT
        ))
    );
}

#[test]
fn helpers_of_place_typing() {
    assert_eq!(
        mk_field(&TyShape::Tuple, 4, Some(1)),
        Ok(ProjectionElem::Field(ProjectionElemFieldKind::Tuple(4)))
    );
    assert_eq!(mk_field(&TyShape::Ref(0), 4, None), Err(PlaceFault::ProjectionElemFieldBadType));
    assert_eq!(element_ty(&TyShape::Array(3)), Some(3));
    assert_eq!(element_ty(&TyShape::Tuple), None);
    assert_eq!(pointee_ty(&TyShape::RawPtr(2)), Some(2));
    assert_eq!(
        pointee_ty(&TyShape::Adt { def_id: 0, kind: AdtKind::Struct, boxed: None }),
        None
    );
    assert_eq!(
        types().step(REF_STRUCT, &vec![PlaceElem::Deref], 0),
        Ok((ProjectionElem::Deref, STRUCT, 1))
    );
    assert_eq!(
        types().step(ENUM, &vec![PlaceElem::Downcast(2), PlaceElem::Field(1, INT)], 0),
        Ok((
            ProjectionElem::Field(ProjectionElemFieldKind::Adt {
                typ: 101,
                variant: Some(2),
                index: 1
            }),
            INT,
            2
        ))
    );
}

#[test]
fn little_endian_bytes() {
    let mut expected = [0u8; 16];
    expected[0] = 0x34;
    expected[1] = 0x12;
    assert_eq!(le_bytes(0x1234), expected);
    assert_eq!(le_bytes(u128::MAX), [0xffu8; 16]);
    assert_eq!(le_bytes(0), [0u8; 16]);
    let mut top = [0u8; 16];
    top[15] = 0x80;
    assert_eq!(le_bytes(1u128 << 127), top);
    assert_eq!(le_bytes(0x0102_0304_0506), 0x0102_0304_0506u128.to_le_bytes());
}

#[test]
fn switch_on_a_boolean() {
    let r = translate_switch_targets(&Ty::Bool, &vec![(0, 7)], 3);
    assert_eq!(r, Ok(SwitchTargets::If(3, 7)));
    assert_eq!(
        translate_switch_targets(&Ty::Bool, &vec![(1, 7)], 3),
        Err(SwitchFault::MalformedBoolSwitch)
    );
    assert_eq!(
        translate_switch_targets(&Ty::Bool, &vec![], 3),
        Err(SwitchFault::MalformedBoolSwitch)
    );
    assert_eq!(
        translate_switch_targets(&Ty::Bool, &vec![(0, 1), (0, 2)], 3),
        Err(SwitchFault::MalformedBoolSwitch)
    );
}

#[test]
fn switch_on_an_integer() {
    // -1 as an i8 arrives as its bits: they are kept, not reinterpreted.
    let minus_one = 0xffu128;
    let r = translate_switch_targets(&Ty::Int(IntTy::I8), &vec![(minus_one, 1), (2, 5)], 9);
    let int_ty = IntUintTy::Int(IntTy::I8);
    assert_eq!(
        r,
        Ok(SwitchTargets::SwitchInt(
            int_ty,
            vec![
                (ScalarInt { data_le_bytes: minus_one.to_le_bytes(), int_ty }, 1),
                (ScalarInt { data_le_bytes: 2u128.to_le_bytes(), int_ty }, 5),
            ],
            9
        ))
    );
    let r = translate_switch_targets(&Ty::Uint(UintTy::U64), &vec![], 4);
    assert_eq!(r, Ok(SwitchTargets::SwitchInt(IntUintTy::Uint(UintTy::U64), vec![], 4)));
}

#[test]
fn switch_on_anything_else_is_a_fault() {
    assert_eq!(
        translate_switch_targets(&Ty::Char, &vec![(0, 1)], 2),
        Err(SwitchFault::UnexpectedSwitchTy)
    );
    assert_eq!(translate_switch_targets(&Ty::Str, &vec![], 2), Err(SwitchFault::UnexpectedSwitchTy));
}

fn span() -> Span {
    Span {
        lo: Loc { line: 1, col: 2 },
        hi: Loc { line: 1, col: 9 },
        filename: FileName::Custom("lib.rs".to_string()),
    }
}

fn info(name: &str, local: usize, projection: Vec<PlaceElem>) -> VarDebugInfo {
    VarDebugInfo {
        name: name.to_string(),
        value: VarDebugInfoContents::Place { local, projection },
    }
}

#[test]
fn a_local_is_named_by_its_one_entry() {
    let infos = vec![
        info("x", 1, vec![]),
        VarDebugInfo { name: "c".to_string(), value: VarDebugInfoContents::Const },
        info("field", 2, vec![PlaceElem::Field(0, 0)]),
        info("y", 3, vec![]),
        info("z", 3, vec![]),
    ];
    assert_eq!(name_of_local(1, &infos), Some("x".to_string()));
    // No entry.
    assert_eq!(name_of_local(0, &infos), None);
    // Only an entry under a projection.
    assert_eq!(name_of_local(2, &infos), None);
    // Two entries.
    assert_eq!(name_of_local(3, &infos), None);
    assert_eq!(name_of_local(1, &vec![]), None);
}

fn decl(ty: usize, name: Option<&str>) -> LocalDecl {
    LocalDecl {
        mutability: Mutability::Not,
        ty,
        source_info: SourceInfo { span: span(), scope: 0 },
        name: name.map(|n| n.to_string()),
    }
}

#[test]
fn locals_get_their_names() {
    let infos = vec![info("b", 1, vec![]), info("c", 2, vec![]), info("d", 2, vec![])];
    let decls = vec![decl(5, Some("stale")), decl(6, None), decl(7, None)];
    assert_eq!(name_locals(decls, &infos), vec![decl(5, None), decl(6, Some("b")), decl(7, None)]);
}

#[test]
fn type_of_an_operand() {
    assert_eq!(Operand::Copy(local(0, 4)).ty(), 4);
    assert_eq!(Operand::Move(local(0, 5)).ty(), 5);
    let c = ConstOperand { span: span(), ty: 6, const_: ConstantExpr::Bool(true) };
    assert_eq!(Operand::Constant(c).ty(), 6);
}

#[test]
fn unchecked_operators_merge_into_the_checked_ones() {
    assert_eq!(RawBinOp::AddUnchecked.merged(), BinOp::Add);
    assert_eq!(RawBinOp::Add.merged(), BinOp::Add);
    assert_eq!(RawBinOp::SubUnchecked.merged(), BinOp::Sub);
    assert_eq!(RawBinOp::MulUnchecked.merged(), BinOp::Mul);
    assert_eq!(RawBinOp::ShlUnchecked.merged(), BinOp::Shl);
    assert_eq!(RawBinOp::ShrUnchecked.merged(), BinOp::Shr);
    assert_eq!(RawBinOp::AddWithOverflow.merged(), BinOp::AddWithOverflow);
    assert_eq!(RawBinOp::Cmp.merged(), BinOp::Cmp);
    assert_eq!(RawBinOp::Offset.merged(), BinOp::Offset);
}

#[test]
fn constants_by_their_form() {
    assert_eq!(ConstKind::Val.action(), ConstAction::ConvertValue);
    assert_eq!(ConstKind::Ty.action(), ConstAction::ConvertTyConst);
    assert_eq!(ConstKind::Unevaluated { promoted: true }.action(), ConstAction::Evaluate);
    assert_eq!(
        ConstKind::Unevaluated { promoted: false }.action(),
        ConstAction::TranslateUnevaluated
    );
    assert_eq!(promoted_constant(Some(ConstantExpr::Char('a'))), Ok(ConstantExpr::Char('a')));
    assert_eq!(promoted_constant(None), Err(ConstFault::UnevalPromotedConstant));
}

fn witness(trait_ref: usize) -> ImplExpr {
    ImplExpr { trait_ref, atom: ImplExprAtom::Builtin { trait_ref }, args: vec![] }
}

#[test]
fn generics_split_at_the_container() {
    assert_eq!(
        split_generics(&vec![10, 11, 12], 2),
        Ok(GenericsSplit { container: vec![10, 11], method: vec![12] })
    );
    assert_eq!(
        split_generics(&vec![10, 11], 0),
        Ok(GenericsSplit { container: vec![], method: vec![10, 11] })
    );
    assert_eq!(
        split_generics(&vec![10, 11], 2),
        Ok(GenericsSplit { container: vec![10, 11], method: vec![] })
    );
    assert_eq!(split_generics(&vec![10], 2), Err(CallFault::TooFewGenerics));
}

#[test]
fn splitting_generics_round_trips() {
    let full = vec![3, 1, 4, 1, 5, 9, 2, 6];
    for n in 0..=full.len() {
        let split = split_generics(&full, n).unwrap();
        assert_eq!(split.container.len(), n);
        let mut joined = split.container;
        joined.extend(split.method);
        assert_eq!(joined, full);
    }
}

#[test]
fn call_of_a_trait_method() {
    let assoc = AssocInfo {
        container: AssocItemContainer::TraitContainer,
        container_def_id: 50,
        num_container_generics: 2,
    };
    let r = get_function_from_def_id_and_generics(
        8,
        vec![10, 11, 12],
        Some(assoc),
        vec![witness(1)],
        Some(witness(2)),
        vec![witness(3)],
    );
    assert_eq!(
        r,
        Ok(StaticCallee {
            def_id: 8,
            generics: vec![12],
            trait_refs: vec![witness(1)],
            trait_info: Some(TraitInfo { witness: witness(2), generic_args: vec![10, 11] }),
        })
    );
    let r = get_function_from_def_id_and_generics(8, vec![10, 11], Some(assoc), vec![], None, vec![]);
    assert_eq!(r, Err(CallFault::MissingTraitWitness));
    let r = get_function_from_def_id_and_generics(8, vec![10], Some(assoc), vec![], None, vec![]);
    assert_eq!(r, Err(CallFault::TooFewGenerics));
}

#[test]
fn call_of_an_impl_method_and_of_a_function() {
    let assoc = AssocInfo {
        container: AssocItemContainer::ImplContainer,
        container_def_id: 50,
        num_container_generics: 1,
    };
    let r = get_function_from_def_id_and_generics(
        8,
        vec![10, 11],
        Some(assoc),
        vec![witness(1), witness(2)],
        Some(witness(9)),
        vec![witness(3)],
    );
    assert_eq!(
        r,
        Ok(StaticCallee {
            def_id: 8,
            generics: vec![10, 11],
            trait_refs: vec![witness(3), witness(1), witness(2)],
            trait_info: None,
        })
    );
    let r = get_function_from_def_id_and_generics(
        8,
        vec![10, 11],
        None,
        vec![witness(1)],
        Some(witness(9)),
        vec![witness(3)],
    );
    assert_eq!(
        r,
        Ok(StaticCallee {
            def_id: 8,
            generics: vec![10, 11],
            trait_refs: vec![witness(1)],
            trait_info: None,
        })
    );
}

fn no_witnesses() -> CalleeWitnesses {
    CalleeWitnesses {
        assoc: None,
        method_trait_refs: vec![],
        self_clause: None,
        container_trait_refs: vec![],
    }
}

fn erased() -> GenericArg {
    GenericArg::Lifetime(Region { kind: RegionKind::ReErased })
}

#[test]
fn call_of_a_known_function() {
    let r = call_head(
        &types(),
        CalleeKind::FnDef { def_id: 8, generics: vec![1] },
        &vec![BoundVariableKind::Region, BoundVariableKind::Region],
        CalleeOperand::Constant,
        CalleeWitnesses {
            assoc: None,
            method_trait_refs: vec![witness(4)],
            self_clause: None,
            container_trait_refs: vec![],
        },
    );
    assert_eq!(
        r,
        Ok(Call {
            fun: FunOperand::Static {
                def_id: 8,
                trait_info: None,
                generics: vec![1],
                trait_refs: vec![witness(4)],
            },
            late_bound_generics: vec![erased(), erased()],
        })
    );
}

#[test]
fn call_through_a_moved_value() {
    let operand = CalleeOperand::Move { local: 2, ty: REF_STRUCT, projection: vec![PlaceElem::Deref] };
    let r = call_head(&types(), CalleeKind::FnPtr, &vec![], operand, no_witnesses());
    assert_eq!(
        r,
        Ok(Call {
            fun: FunOperand::DynamicMove(proj(local(2, REF_STRUCT), ProjectionElem::Deref, STRUCT)),
            late_bound_generics: vec![],
        })
    );
    let operand = CalleeOperand::Move { local: 2, ty: CLOSURE, projection: vec![] };
    let r = call_head(
        &types(),
        CalleeKind::Closure,
        &vec![BoundVariableKind::Region],
        operand,
        no_witnesses(),
    );
    assert_eq!(
        r,
        Ok(Call { fun: FunOperand::DynamicMove(local(2, CLOSURE)), late_bound_generics: vec![erased()] })
    );
}

#[test]
fn faults_of_a_call() {
    let t = types();
    let r = call_head(
        &t,
        CalleeKind::Other,
        &vec![],
        CalleeOperand::Constant,
        no_witnesses(),
    );
    assert_eq!(r, Err(CallFault::ExpectedFnType));
    let r = call_head(
        &t,
        CalleeKind::FnPtr,
        &vec![],
        CalleeOperand::Constant,
        no_witnesses(),
    );
    assert_eq!(r, Err(CallFault::UnsupportedCallee));
    let r = call_head(
        &t,
        CalleeKind::Closure,
        &vec![],
        CalleeOperand::Constant,
        no_witnesses(),
    );
    assert_eq!(r, Err(CallFault::UnsupportedCallee));
    let r = call_head(
        &t,
        CalleeKind::FnPtr,
        &vec![],
        CalleeOperand::Move { local: 0, ty: INT, projection: vec![PlaceElem::Deref] },
        no_witnesses(),
    );
    assert_eq!(r, Err(CallFault::Place(PlaceFault::PlaceDerefNotRefNorPtrNorBox)));
    let r = call_head(
        &t,
        CalleeKind::FnDef { def_id: 1, generics: vec![] },
        &vec![BoundVariableKind::Region, BoundVariableKind::Ty],
        CalleeOperand::Constant,
        no_witnesses(),
    );
    assert_eq!(r, Err(CallFault::NonLifetimeLateBound));
    let r = call_head(
        &t,
        CalleeKind::FnDef { def_id: 1, generics: vec![] },
        &vec![BoundVariableKind::Const],
        CalleeOperand::Constant,
        no_witnesses(),
    );
    assert_eq!(r, Err(CallFault::NonLifetimeLateBound));
}

#[test]
fn a_body_names_its_locals() {
    let block = || BasicBlockData {
        statements: vec![],
        terminator: Some(Terminator {
            source_info: SourceInfo { span: span(), scope: 0 },
            kind: TerminatorKind::Return,
        }),
        is_cleanup: false,
    };
    let body: MirBody<Built> = MirBody::new(
        span(),
        vec![decl(5, None), decl(6, None)],
        &vec![info("ret", 0, vec![]), info("p", 1, vec![PlaceElem::Deref])],
        vec![block()],
        vec![],
        None,
    );
    assert_eq!(body.local_decls, vec![decl(5, Some("ret")), decl(6, None)]);
    assert_eq!(body.basic_blocks, vec![block()]);
    assert_eq!(body.span, span());
    assert_eq!(body.tainted_by_errors, None);
}

#[test]
fn a_copied_callee_is_a_dynamic_call_like_a_moved_one() {
    for kind in [|| CalleeKind::FnPtr, || CalleeKind::Closure] {
        let copied = call_head(
            &types(),
            kind(),
            &vec![],
            CalleeOperand::Copy { local: 2, ty: REF_STRUCT, projection: vec![PlaceElem::Deref] },
            no_witnesses(),
        );
        let moved = call_head(
            &types(),
            kind(),
            &vec![],
            CalleeOperand::Move { local: 2, ty: REF_STRUCT, projection: vec![PlaceElem::Deref] },
            no_witnesses(),
        );
        assert_eq!(
            copied,
            Ok(Call {
                fun: FunOperand::DynamicMove(proj(local(2, REF_STRUCT), ProjectionElem::Deref, STRUCT)),
                late_bound_generics: vec![],
            })
        );
        assert_eq!(copied, moved);
    }
    // The place of a copied callee is typed like any other.
    let r = call_head(
        &types(),
        CalleeKind::FnPtr,
        &vec![],
        CalleeOperand::Copy { local: 0, ty: INT, projection: vec![PlaceElem::Deref] },
        no_witnesses(),
    );
    assert_eq!(r, Err(CallFault::Place(PlaceFault::PlaceDerefNotRefNorPtrNorBox)));
}

fn at(local: usize, ty: usize, projection: Vec<PlaceElem>) -> RawPlace {
    RawPlace { local, ty, projection }
}

fn constant(ty: usize) -> ConstOperand {
    ConstOperand { span: span(), ty, const_: ConstantExpr::Bool(false) }
}

fn spanned<T>(node: T, line: usize) -> Spanned<T> {
    let mut at = span();
    at.lo.line = line;
    Spanned { node, span: at }
}

fn raw_call(args: Vec<Spanned<RawOperand>>, destination: RawPlace, target: Option<usize>) -> RawCall {
    RawCall {
        kind: CalleeKind::FnDef { def_id: 8, generics: vec![1] },
        bound_vars: vec![BoundVariableKind::Region],
        func: CalleeOperand::Constant,
        args,
        destination,
        target,
        unwind: "continue".to_string(),
        fn_span: span(),
    }
}

#[test]
fn operands_are_projected() {
    assert_eq!(
        project_operand(&types(), RawOperand::Copy(at(1, REF_STRUCT, vec![PlaceElem::Deref]))),
        Ok(Operand::Copy(proj(local(1, REF_STRUCT), ProjectionElem::Deref, STRUCT)))
    );
    assert_eq!(
        project_operand(&types(), RawOperand::Move(at(1, INT, vec![]))),
        Ok(Operand::Move(local(1, INT)))
    );
    assert_eq!(
        project_operand(&types(), RawOperand::Constant(constant(4))),
        Ok(Operand::Constant(constant(4)))
    );
    assert_eq!(
        project_operand(&types(), RawOperand::Move(at(1, INT, vec![PlaceElem::Index(0)]))),
        Err(PlaceFault::PlaceIndexNotSlice)
    );
    assert_eq!(project_operands(&types(), vec![]), Ok(vec![]));
}

#[test]
fn a_call_keeps_its_arguments_its_destination_and_its_target() {
    let args = vec![
        spanned(RawOperand::Move(at(3, INT, vec![])), 10),
        spanned(RawOperand::Constant(constant(5)), 11),
        spanned(RawOperand::Copy(at(4, SLICE, vec![PlaceElem::Index(1)])), 12),
    ];
    let r = translate_terminator_kind_call(
        &types(),
        raw_call(args, at(0, BOX_TUPLE, vec![PlaceElem::Deref]), Some(6)),
        no_witnesses(),
    );
    assert_eq!(
        r,
        Ok(TerminatorKind::Call {
            fun: FunOperand::Static { def_id: 8, trait_info: None, generics: vec![1], trait_refs: vec![] },
            late_bound_generics: vec![erased()],
            args: vec![
                spanned(Operand::Move(local(3, INT)), 10),
                spanned(Operand::Constant(constant(5)), 11),
                spanned(Operand::Copy(proj(local(4, SLICE), ProjectionElem::Index(1), INT)), 12),
            ],
            destination: proj(local(0, BOX_TUPLE), ProjectionElem::Deref, TUPLE),
            target: Some(6),
            unwind: "continue".to_string(),
            fn_span: span(),
        })
    );
}

#[test]
fn a_call_that_does_not_return_has_no_target() {
    let r = translate_terminator_kind_call(&types(), raw_call(vec![], at(0, INT, vec![]), None), no_witnesses());
    match r {
        Ok(TerminatorKind::Call { target, args, destination, .. }) => {
            assert_eq!(target, None);
            assert_eq!(args, vec![]);
            assert_eq!(destination, local(0, INT));
        }
        other => panic!("{:?}", other),
    }
}

#[test]
fn the_first_fault_of_a_call_is_its_fault() {
    let bad_arg = || spanned(RawOperand::Move(at(3, INT, vec![PlaceElem::Deref])), 10);
    let worse_arg = || spanned(RawOperand::Copy(at(3, INT, vec![PlaceElem::Index(0)])), 11);
    let good_arg = || spanned(RawOperand::Constant(constant(5)), 12);
    let bad_place = || at(0, TUPLE, vec![PlaceElem::Subtype(0)]);
    // The callee comes before the arguments.
    let mut call = raw_call(vec![bad_arg()], bad_place(), Some(1));
    call.kind = CalleeKind::Other;
    assert_eq!(
        translate_terminator_kind_call(&types(), call, no_witnesses()),
        Err(CallFault::ExpectedFnType)
    );
    let mut call = raw_call(vec![bad_arg()], bad_place(), Some(1));
    call.bound_vars = vec![BoundVariableKind::Ty];
    assert_eq!(
        translate_terminator_kind_call(&types(), call, no_witnesses()),
        Err(CallFault::NonLifetimeLateBound)
    );
    // The arguments come in order, and before the destination.
    let call = raw_call(vec![good_arg(), bad_arg(), worse_arg()], bad_place(), Some(1));
    assert_eq!(
        translate_terminator_kind_call(&types(), call, no_witnesses()),
        Err(CallFault::Place(PlaceFault::PlaceDerefNotRefNorPtrNorBox))
    );
    let call = raw_call(vec![good_arg(), worse_arg(), bad_arg()], bad_place(), Some(1));
    assert_eq!(
        translate_terminator_kind_call(&types(), call, no_witnesses()),
        Err(CallFault::Place(PlaceFault::PlaceIndexNotSlice))
    );
    let call = raw_call(vec![good_arg()], bad_place(), Some(1));
    assert_eq!(
        translate_terminator_kind_call(&types(), call, no_witnesses()),
        Err(CallFault::Place(PlaceFault::UnexpectedSubtype))
    );
}

#[test]
fn requirements_are_resolved_under_their_part_of_the_generics() {
    let in_trait = AssocInfo {
        container: AssocItemContainer::TraitContainer,
        container_def_id: 50,
        num_container_generics: 2,
    };
    assert_eq!(
        requirement_generics(&vec![10, 11, 12], Some(in_trait)),
        Ok(RequirementGenerics {
            method: vec![10, 11, 12],
            container: Some(ContainerGenerics {
                container: AssocItemContainer::TraitContainer,
                def_id: 50,
                generics: vec![10, 11],
            }),
        })
    );
    let in_impl = AssocInfo {
        container: AssocItemContainer::ImplContainer,
        container_def_id: 51,
        num_container_generics: 1,
    };
    assert_eq!(
        requirement_generics(&vec![10, 11, 12], Some(in_impl)),
        Ok(RequirementGenerics {
            method: vec![10, 11, 12],
            container: Some(ContainerGenerics {
                container: AssocItemContainer::ImplContainer,
                def_id: 51,
                generics: vec![10],
            }),
        })
    );
    assert_eq!(
        requirement_generics(&vec![10, 11], None),
        Ok(RequirementGenerics { method: vec![10, 11], container: None })
    );
    assert_eq!(requirement_generics(&vec![10], Some(in_trait)), Err(CallFault::TooFewGenerics));
}
