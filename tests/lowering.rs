use place_lowering::instr::{
    local_adress, local_get, local_set, Body, FieldDescriptor, IndirectKind, Instruction,
};
use place_lowering::place::{place_adress, place_get, place_set, slice_head, Place};
use place_lowering::step::{deref_op, deref_store_op, field_name, AccessStep};
use place_lowering::ty::{
    classify, pointed_type, AdtDef, FieldDef, LowerError, Repr, ScalarKind, Ty, TyKind, TypeTable,
};

const I8: Ty = Ty(0);
const I32: Ty = Ty(1);
const RECORD2: Ty = Ty(2);
const RECORD: Ty = Ty(3);
const REF_RECORD: Ty = Ty(4);
const REF_I8: Ty = Ty(5);
const TUPLE: Ty = Ty(6);
const REF_REF_RECORD: Ty = Ty(7);
const BOOL: Ty = Ty(8);
const U64: Ty = Ty(9);
const CHAR: Ty = Ty(10);
const F64: Ty = Ty(11);
const REF_TUPLE: Ty = Ty(12);
const PTR_I32: Ty = Ty(13);

fn field(name: &str, ty: Ty) -> FieldDef {
    FieldDef { name: name.to_string(), ty }
}

fn table() -> TypeTable {
    TypeTable {
        kinds: vec![
            TyKind::Scalar(ScalarKind::I8),
            TyKind::Scalar(ScalarKind::I32),
            TyKind::Adt(AdtDef { name: "Record2".to_string(), fields: vec![field("a", I32)] }),
            TyKind::Adt(AdtDef {
                name: "Record".to_string(),
                fields: vec![field("x", I32), field("y", RECORD2)],
            }),
            TyKind::Ref(RECORD),
            TyKind::Ref(I8),
            TyKind::Tuple(vec![I32, I8]),
            TyKind::Ref(REF_RECORD),
            TyKind::Scalar(ScalarKind::Bool),
            TyKind::Scalar(ScalarKind::U64),
            TyKind::Scalar(ScalarKind::Char),
            TyKind::Scalar(ScalarKind::Float64),
            TyKind::Ref(TUPLE),
            TyKind::RawPtr(I32),
        ],
    }
}

/// Two arguments; slots: return (i32), arg 0 (&Record), arg 1 (Record),
/// local 1 (&i8), local 2 (Record), local 3 (tuple), local 4 (i32),
/// local 5 (&&Record), local 6 (&tuple), local 7 (*i32).
fn body() -> Body {
    Body {
        arg_count: 2,
        local_types: vec![
            I32, REF_RECORD, RECORD, REF_I8, RECORD, TUPLE, I32, REF_REF_RECORD, REF_TUPLE, PTR_I32,
        ],
    }
}

fn place(base: usize, steps: Vec<AccessStep>) -> Place {
    Place { base, steps }
}

fn fd(owner: Ty, field_ty: Ty, name: &str) -> FieldDescriptor {
    FieldDescriptor { owner, field_ty, name: name.to_string() }
}

#[test]
fn return_slot_without_steps_loads_local_zero() {
    let (tt, b) = (table(), body());
    assert_eq!(place_get(&place(0, vec![]), &tt, &b), Ok(vec![Instruction::LoadLocal(0)]));
}

#[test]
fn deref_of_record_reference_emits_no_load() {
    let (tt, b) = (table(), body());
    let p = place(1, vec![AccessStep::Deref]);
    assert_eq!(place_get(&p, &tt, &b), Ok(vec![Instruction::LoadArg(0)]));
}

#[test]
fn deref_of_i8_reference_loads_indirectly() {
    let (tt, b) = (table(), body());
    let p = place(3, vec![AccessStep::Deref]);
    assert_eq!(
        place_get(&p, &tt, &b),
        Ok(vec![Instruction::LoadLocal(1), Instruction::LoadIndirect(IndirectKind::Int8)])
    );
}

#[test]
fn record_field_of_record_loads_its_address() {
    let (tt, b) = (table(), body());
    let p = place(4, vec![AccessStep::Field(1, RECORD2)]);
    assert_eq!(
        place_get(&p, &tt, &b),
        Ok(vec![
            Instruction::LoadLocalAddress(2),
            Instruction::LoadFieldAddress(fd(RECORD, RECORD2, "y")),
        ])
    );
}

#[test]
fn unsupported_step_fails_every_entry_point() {
    let (tt, b) = (table(), body());
    let unsupported = vec![
        AccessStep::Index(6),
        AccessStep::ConstantIndex { offset: 1, min_length: 2, from_end: false },
        AccessStep::Subslice { from: 0, to: 1, from_end: true },
        AccessStep::Downcast(0),
        AccessStep::OpaqueCast(I32),
    ];
    for s in unsupported {
        let alone = place(4, vec![s]);
        let after_field = place(4, vec![AccessStep::Field(1, RECORD2), s]);
        let before_field = place(4, vec![s, AccessStep::Field(0, I32)]);
        for p in [alone, after_field, before_field] {
            assert_eq!(place_get(&p, &tt, &b), Err(LowerError::UnsupportedStepKind));
            assert_eq!(
                place_set(&p, &tt, vec![Instruction::LoadLocal(4)], &b),
                Err(LowerError::UnsupportedStepKind)
            );
            assert_eq!(place_adress(&p, &tt, &b), Err(LowerError::UnsupportedStepKind));
        }
    }
}

#[test]
fn empty_chain_loads_value_or_address_whatever_the_type() {
    let (tt, b) = (table(), body());
    assert_eq!(place_get(&place(4, vec![]), &tt, &b), Ok(vec![Instruction::LoadLocal(2)]));
    assert_eq!(
        place_adress(&place(4, vec![]), &tt, &b),
        Ok(vec![Instruction::LoadLocalAddress(2)])
    );
    assert_eq!(place_get(&place(2, vec![]), &tt, &b), Ok(vec![Instruction::LoadArg(1)]));
    assert_eq!(
        place_adress(&place(2, vec![]), &tt, &b),
        Ok(vec![Instruction::LoadArgAddress(1)])
    );
    assert_eq!(place_get(&place(5, vec![]), &tt, &b), Ok(vec![Instruction::LoadLocal(3)]));
}

#[test]
fn by_address_base_starts_with_its_address() {
    let (tt, b) = (table(), body());
    let r = place_get(&place(2, vec![AccessStep::Field(0, I32)]), &tt, &b).unwrap();
    assert_eq!(r[0], Instruction::LoadArgAddress(1));
    assert_ne!(r[0], Instruction::LoadArg(1));
    let r = place_get(&place(4, vec![AccessStep::Field(1, RECORD2), AccessStep::Field(0, I32)]), &tt, &b)
        .unwrap();
    assert_eq!(r[0], Instruction::LoadLocalAddress(2));
}

#[test]
fn classification_is_stable_and_total() {
    let tt = table();
    for t in [I8, I32, RECORD2, RECORD, REF_RECORD, TUPLE, PTR_I32] {
        assert_eq!(classify(&tt, t), classify(&tt, t));
    }
    assert_eq!(classify(&tt, I8), Ok(Repr::ByValue));
    assert_eq!(classify(&tt, REF_RECORD), Ok(Repr::ByValue));
    assert_eq!(classify(&tt, PTR_I32), Ok(Repr::ByValue));
    assert_eq!(classify(&tt, RECORD), Ok(Repr::ByAddress));
    assert_eq!(classify(&tt, TUPLE), Err(LowerError::UnsupportedType(TUPLE)));
}

#[test]
fn get_set_and_address_of_a_scalar_field_share_the_walk() {
    let (tt, b) = (table(), body());
    let p = place(4, vec![AccessStep::Field(0, I32)]);
    let x = fd(RECORD, I32, "x");
    assert_eq!(
        place_get(&p, &tt, &b),
        Ok(vec![Instruction::LoadLocalAddress(2), Instruction::LoadField(x.clone())])
    );
    assert_eq!(
        place_set(&p, &tt, vec![Instruction::LoadLocal(4)], &b),
        Ok(vec![
            Instruction::LoadLocalAddress(2),
            Instruction::LoadLocal(4),
            Instruction::StoreField(x.clone()),
        ])
    );
    assert_eq!(
        place_adress(&p, &tt, &b),
        Ok(vec![Instruction::LoadLocalAddress(2), Instruction::LoadFieldAddress(x)])
    );
}

#[test]
fn set_without_steps_runs_value_then_stores() {
    let (tt, b) = (table(), body());
    let value = vec![Instruction::LoadArg(0), Instruction::LoadIndirect(IndirectKind::Int32)];
    assert_eq!(
        place_set(&place(6, vec![]), &tt, value.clone(), &b),
        Ok(vec![
            Instruction::LoadArg(0),
            Instruction::LoadIndirect(IndirectKind::Int32),
            Instruction::StoreLocal(4),
        ])
    );
    assert_eq!(
        place_set(&place(2, vec![]), &tt, vec![], &b),
        Ok(vec![Instruction::StoreArg(1)])
    );
    assert_eq!(
        place_set(&place(0, vec![]), &tt, vec![Instruction::LoadLocal(4)], &b),
        Ok(vec![Instruction::LoadLocal(4), Instruction::StoreLocal(0)])
    );
}

#[test]
fn set_and_address_through_a_pointer() {
    let (tt, b) = (table(), body());
    let p = place(3, vec![AccessStep::Deref]);
    assert_eq!(
        place_set(&p, &tt, vec![Instruction::LoadLocal(4)], &b),
        Ok(vec![
            Instruction::LoadLocal(1),
            Instruction::LoadLocal(4),
            Instruction::StoreIndirect(IndirectKind::Int8),
        ])
    );
    assert_eq!(place_adress(&p, &tt, &b), Ok(vec![Instruction::LoadLocal(1)]));
    let raw = place(9, vec![AccessStep::Deref]);
    assert_eq!(
        place_get(&raw, &tt, &b),
        Ok(vec![Instruction::LoadLocal(7), Instruction::LoadIndirect(IndirectKind::Int32)])
    );
}

#[test]
fn storing_a_record_through_a_pointer_has_no_scalar_width() {
    let (tt, b) = (table(), body());
    let p = place(1, vec![AccessStep::Deref]);
    assert_eq!(
        place_set(&p, &tt, vec![Instruction::LoadArg(1)], &b),
        Err(LowerError::UnsupportedScalarWidth(RECORD))
    );
    assert_eq!(place_adress(&p, &tt, &b), Ok(vec![Instruction::LoadArg(0)]));
}

#[test]
fn long_chains_thread_the_current_type() {
    let (tt, b) = (table(), body());
    let p = place(
        1,
        vec![AccessStep::Deref, AccessStep::Field(1, RECORD2), AccessStep::Field(0, I32)],
    );
    let y = fd(RECORD, RECORD2, "y");
    let a = fd(RECORD2, I32, "a");
    assert_eq!(
        place_get(&p, &tt, &b),
        Ok(vec![
            Instruction::LoadArg(0),
            Instruction::LoadFieldAddress(y.clone()),
            Instruction::LoadField(a.clone()),
        ])
    );
    assert_eq!(
        place_set(&p, &tt, vec![Instruction::LoadLocal(4)], &b),
        Ok(vec![
            Instruction::LoadArg(0),
            Instruction::LoadFieldAddress(y.clone()),
            Instruction::LoadLocal(4),
            Instruction::StoreField(a.clone()),
        ])
    );
    assert_eq!(
        place_adress(&p, &tt, &b),
        Ok(vec![
            Instruction::LoadArg(0),
            Instruction::LoadFieldAddress(y),
            Instruction::LoadFieldAddress(a),
        ])
    );
}

#[test]
fn double_reference_loads_the_inner_pointer() {
    let (tt, b) = (table(), body());
    let p = place(7, vec![AccessStep::Deref, AccessStep::Deref, AccessStep::Field(0, I32)]);
    assert_eq!(
        place_get(&p, &tt, &b),
        Ok(vec![
            Instruction::LoadLocal(5),
            Instruction::LoadIndirect(IndirectKind::NativeInt),
            Instruction::LoadField(fd(RECORD, I32, "x")),
        ])
    );
}

#[test]
fn deref_of_a_non_pointer_fails() {
    let (tt, b) = (table(), body());
    let p = place(6, vec![AccessStep::Deref]);
    assert_eq!(place_get(&p, &tt, &b), Err(LowerError::NotAPointerType(I32)));
    assert_eq!(place_adress(&p, &tt, &b), Err(LowerError::NotAPointerType(I32)));
    assert_eq!(
        place_set(&p, &tt, vec![], &b),
        Err(LowerError::NotAPointerType(I32))
    );
    let inner = place(4, vec![AccessStep::Deref, AccessStep::Field(0, I32)]);
    assert_eq!(place_get(&inner, &tt, &b), Err(LowerError::NotAPointerType(RECORD)));
}

#[test]
fn field_index_past_the_end_fails() {
    let (tt, b) = (table(), body());
    let p = place(4, vec![AccessStep::Field(2, I32)]);
    let e = LowerError::FieldIndexOutOfRange { owner: RECORD, index: 2 };
    assert_eq!(place_get(&p, &tt, &b), Err(e));
    assert_eq!(place_set(&p, &tt, vec![], &b), Err(e));
    assert_eq!(place_adress(&p, &tt, &b), Err(e));
}

#[test]
fn field_of_a_scalar_fails() {
    let (tt, b) = (table(), body());
    let p = place(6, vec![AccessStep::Field(0, I32)]);
    assert_eq!(place_get(&p, &tt, &b), Err(LowerError::UnsupportedOwnerType(I32)));
    assert_eq!(place_adress(&p, &tt, &b), Err(LowerError::UnsupportedOwnerType(I32)));
}

#[test]
fn unsupported_types_are_reported() {
    let (tt, b) = (table(), body());
    let p = place(5, vec![AccessStep::Field(0, I32)]);
    assert_eq!(place_get(&p, &tt, &b), Err(LowerError::UnsupportedType(TUPLE)));
    let q = place(8, vec![AccessStep::Deref]);
    assert_eq!(place_get(&q, &tt, &b), Err(LowerError::UnsupportedType(TUPLE)));
    assert_eq!(place_adress(&q, &tt, &b), Ok(vec![Instruction::LoadLocal(6)]));
    assert_eq!(
        place_set(&q, &tt, vec![], &b),
        Err(LowerError::UnsupportedScalarWidth(TUPLE))
    );
}

#[test]
fn indirect_widths_follow_the_scalar_kind() {
    let tt = table();
    assert_eq!(deref_op(&tt, I8), Ok(Instruction::LoadIndirect(IndirectKind::Int8)));
    assert_eq!(deref_op(&tt, BOOL), Ok(Instruction::LoadIndirect(IndirectKind::UInt8)));
    assert_eq!(deref_op(&tt, U64), Ok(Instruction::LoadIndirect(IndirectKind::Int64)));
    assert_eq!(deref_op(&tt, CHAR), Ok(Instruction::LoadIndirect(IndirectKind::UInt32)));
    assert_eq!(deref_op(&tt, F64), Ok(Instruction::LoadIndirect(IndirectKind::Real64)));
    assert_eq!(deref_op(&tt, REF_I8), Ok(Instruction::LoadIndirect(IndirectKind::NativeInt)));
    assert_eq!(deref_op(&tt, RECORD), Err(LowerError::UnsupportedScalarWidth(RECORD)));
    assert_eq!(deref_store_op(&tt, BOOL), Ok(Instruction::StoreIndirect(IndirectKind::Int8)));
    assert_eq!(deref_store_op(&tt, U64), Ok(Instruction::StoreIndirect(IndirectKind::Int64)));
    assert_eq!(deref_store_op(&tt, CHAR), Ok(Instruction::StoreIndirect(IndirectKind::Int32)));
    assert_eq!(deref_store_op(&tt, F64), Ok(Instruction::StoreIndirect(IndirectKind::Real64)));
    assert_eq!(deref_store_op(&tt, TUPLE), Err(LowerError::UnsupportedScalarWidth(TUPLE)));
}

#[test]
fn field_names_resolve_by_position() {
    let tt = table();
    assert_eq!(field_name(&tt, RECORD, 1, RECORD2), Ok(fd(RECORD, RECORD2, "y")));
    assert_eq!(field_name(&tt, RECORD, 0, I8), Ok(fd(RECORD, I8, "x")));
    assert_eq!(
        field_name(&tt, RECORD2, 1, I32),
        Err(LowerError::FieldIndexOutOfRange { owner: RECORD2, index: 1 })
    );
    assert_eq!(field_name(&tt, REF_RECORD, 0, I32), Err(LowerError::UnsupportedOwnerType(REF_RECORD)));
    assert_eq!(pointed_type(&tt, REF_RECORD), Ok(RECORD));
    assert_eq!(pointed_type(&tt, I8), Err(LowerError::NotAPointerType(I8)));
}

#[test]
fn slots_map_to_return_arguments_and_locals() {
    let b = body();
    assert_eq!(local_get(0, &b), Instruction::LoadLocal(0));
    assert_eq!(local_get(1, &b), Instruction::LoadArg(0));
    assert_eq!(local_get(2, &b), Instruction::LoadArg(1));
    assert_eq!(local_get(3, &b), Instruction::LoadLocal(1));
    assert_eq!(local_set(0, &b), Instruction::StoreLocal(0));
    assert_eq!(local_set(2, &b), Instruction::StoreArg(1));
    assert_eq!(local_set(9, &b), Instruction::StoreLocal(7));
    assert_eq!(local_adress(1, &b), Instruction::LoadArgAddress(0));
    assert_eq!(local_adress(5, &b), Instruction::LoadLocalAddress(3));
}

#[test]
fn slice_head_splits_off_the_last() {
    let v = [1, 2, 3];
    let (last, rest) = slice_head(&v);
    assert_eq!(*last, 3);
    assert_eq!(rest, &[1, 2]);
    let one = [7];
    let (last, rest) = slice_head(&one);
    assert_eq!(*last, 7);
    assert!(rest.is_empty());
}
