//! Lowering of one access step, inside a chain (interior) or as its last
//! step (terminal).
use vstd::prelude::*;
use crate::instr::{FieldDescriptor, IndirectKind, Instruction};
use crate::ty::{
    LowerError, Repr, ScalarKind, Ty, TyKind, TypeTable, classify, classify_spec, pointed_type,
    pointee_spec,
};

verus! {

/// One refinement of a place.
#[derive(Clone, Copy, Debug, PartialEq, Eq)]
pub enum AccessStep {
    /// Follows a reference or pointer.
    Deref,
    /// Selects the field at a position; the second value is its declared type.
    Field(usize, Ty),
    /// Indexes by the value of a slot.
    Index(usize),
    /// Indexes by a constant offset.
    ConstantIndex { offset: u64, min_length: u64, from_end: bool },
    /// Takes a sub-slice.
    Subslice { from: u64, to: u64, from_end: bool },
    /// Views an enum as one of its variants.
    Downcast(usize),
    /// Reinterprets as another type.
    OpaqueCast(Ty),
}

/// What the access to a place is for.
pub enum Intent {
    /// Push the place's value.
    Get,
    /// Run the given instructions, which push a value, and write it into the place.
    Store(Vec<Instruction>),
    /// Push the place's address.
    AddressOf,
}

pub open spec fn step_wf(tt: &TypeTable, s: AccessStep) -> bool {
    match s {
        AccessStep::Field(_, t) => tt.valid(t),
        AccessStep::OpaqueCast(t) => tt.valid(t),
        _ => true,
    }
}

/// The named field at a position of a record, typed as declared.
pub open spec fn field_spec(tt: &TypeTable, owner: Ty, index: usize, declared: Ty) -> Result<
    FieldDescriptor,
    LowerError,
> {
    match tt.kind(owner) {
        TyKind::Adt(def) => if index < def.fields@.len() {
            Ok(FieldDescriptor { owner, field_ty: declared, name: def.fields@[index as int].name })
        } else {
            Err(LowerError::FieldIndexOutOfRange { owner, index })
        },
        _ => Err(LowerError::UnsupportedOwnerType(owner)),
    }
}

/// The width of the indirect load for each scalar kind.
pub open spec fn load_kind(k: ScalarKind) -> IndirectKind {
    match k {
        ScalarKind::I8 => IndirectKind::Int8,
        ScalarKind::I16 => IndirectKind::Int16,
        ScalarKind::I32 => IndirectKind::Int32,
        ScalarKind::I64 => IndirectKind::Int64,
        ScalarKind::ISize => IndirectKind::NativeInt,
        ScalarKind::U8 => IndirectKind::UInt8,
        ScalarKind::U16 => IndirectKind::UInt16,
        ScalarKind::U32 => IndirectKind::UInt32,
        ScalarKind::U64 => IndirectKind::Int64,
        ScalarKind::USize => IndirectKind::NativeInt,
        ScalarKind::Float32 => IndirectKind::Real32,
        ScalarKind::Float64 => IndirectKind::Real64,
        ScalarKind::Bool => IndirectKind::UInt8,
        ScalarKind::Char => IndirectKind::UInt32,
    }
}

/// The width of the indirect store for each scalar kind: stores do not
/// tell signed from unsigned.
pub open spec fn store_kind(k: ScalarKind) -> IndirectKind {
    match k {
        ScalarKind::I8 | ScalarKind::U8 | ScalarKind::Bool => IndirectKind::Int8,
        ScalarKind::I16 | ScalarKind::U16 => IndirectKind::Int16,
        ScalarKind::I32 | ScalarKind::U32 | ScalarKind::Char => IndirectKind::Int32,
        ScalarKind::I64 | ScalarKind::U64 => IndirectKind::Int64,
        ScalarKind::ISize | ScalarKind::USize => IndirectKind::NativeInt,
        ScalarKind::Float32 => IndirectKind::Real32,
        ScalarKind::Float64 => IndirectKind::Real64,
    }
}

/// The load through a pointer to a value of type `p`.
pub open spec fn deref_load_spec(tt: &TypeTable, p: Ty) -> Result<Instruction, LowerError> {
    match tt.kind(p) {
        TyKind::Scalar(k) => Ok(Instruction::LoadIndirect(load_kind(k))),
        TyKind::Ref(_) => Ok(Instruction::LoadIndirect(IndirectKind::NativeInt)),
        TyKind::RawPtr(_) => Ok(Instruction::LoadIndirect(IndirectKind::NativeInt)),
        _ => Err(LowerError::UnsupportedScalarWidth(p)),
    }
}

/// The store through a pointer to a value of type `p`.
pub open spec fn deref_store_spec(tt: &TypeTable, p: Ty) -> Result<Instruction, LowerError> {
    match tt.kind(p) {
        TyKind::Scalar(k) => Ok(Instruction::StoreIndirect(store_kind(k))),
        TyKind::Ref(_) => Ok(Instruction::StoreIndirect(IndirectKind::NativeInt)),
        TyKind::RawPtr(_) => Ok(Instruction::StoreIndirect(IndirectKind::NativeInt)),
        _ => Err(LowerError::UnsupportedScalarWidth(p)),
    }
}

/// An interior step: the type after it, and what it emits. A dereference
/// to a type handled by address emits nothing, since the pointer is that
/// address; to one handled by value it loads the value. A field access
/// loads the field's address or value, as its declared type is handled.
pub open spec fn interior_spec(tt: &TypeTable, s: AccessStep, cur: Ty) -> Result<
    (Ty, Seq<Instruction>),
    LowerError,
> {
    match s {
        AccessStep::Deref => match pointee_spec(tt, cur) {
            Err(e) => Err(e),
            Ok(p) => match classify_spec(tt, p) {
                Err(e) => Err(e),
                Ok(Repr::ByAddress) => Ok((p, Seq::empty())),
                Ok(Repr::ByValue) => match deref_load_spec(tt, p) {
                    Err(e) => Err(e),
                    Ok(op) => Ok((p, seq![op])),
                },
            },
        },
        AccessStep::Field(index, declared) => match field_spec(tt, cur, index, declared) {
            Err(e) => Err(e),
            Ok(fd) => match classify_spec(tt, declared) {
                Err(e) => Err(e),
                Ok(Repr::ByAddress) => Ok((declared, seq![Instruction::LoadFieldAddress(fd)])),
                Ok(Repr::ByValue) => Ok((declared, seq![Instruction::LoadField(fd)])),
            },
        },
        _ => Err(LowerError::UnsupportedStepKind),
    }
}

/// The last step of a chain, lowered for an intent. Reading emits what
/// the step emits as an interior step, so that a value handled by address is
/// read as its address. Writing runs the value's instructions and stores
/// through the pointer or into the field; addressing a dereference emits
/// nothing, since the pointer is the address, and addressing a field loads
/// the field's address.
pub open spec fn terminal_spec(tt: &TypeTable, s: AccessStep, cur: Ty, intent: Intent) -> Result<
    Seq<Instruction>,
    LowerError,
> {
    match intent {
        Intent::Get => match interior_spec(tt, s, cur) {
            Err(e) => Err(e),
            Ok((_, ops)) => Ok(ops),
        },
        Intent::Store(v) => match s {
            AccessStep::Deref => match pointee_spec(tt, cur) {
                Err(e) => Err(e),
                Ok(p) => match deref_store_spec(tt, p) {
                    Err(e) => Err(e),
                    Ok(op) => Ok(v@.push(op)),
                },
            },
            AccessStep::Field(index, declared) => match field_spec(tt, cur, index, declared) {
                Err(e) => Err(e),
                Ok(fd) => Ok(v@.push(Instruction::StoreField(fd))),
            },
            _ => Err(LowerError::UnsupportedStepKind),
        },
        Intent::AddressOf => match s {
            AccessStep::Deref => match pointee_spec(tt, cur) {
                Err(e) => Err(e),
                Ok(_) => Ok(Seq::empty()),
            },
            AccessStep::Field(index, declared) => match field_spec(tt, cur, index, declared) {
                Err(e) => Err(e),
                Ok(fd) => Ok(seq![Instruction::LoadFieldAddress(fd)]),
            },
            _ => Err(LowerError::UnsupportedStepKind),
        },
    }
}

/// Resolves the field at a position of a record to its name.
pub fn field_name(tt: &TypeTable, owner: Ty, index: usize, declared: Ty) -> (r: Result<
    FieldDescriptor,
    LowerError,
>)
    requires
        tt.valid(owner),
    ensures
        r == field_spec(tt, owner, index, declared),
{
    match &tt.kinds[owner.0] {
        TyKind::Adt(def) => {
            if index < def.fields.len() {
                Ok(FieldDescriptor { owner, field_ty: declared, name: def.fields[index].name.clone() })
            } else {
                Err(LowerError::FieldIndexOutOfRange { owner, index })
            }
        },
        _ => Err(LowerError::UnsupportedOwnerType(owner)),
    }
}

fn load_kind_of(k: ScalarKind) -> (r: IndirectKind)
    ensures
        r == load_kind(k),
{
    match k {
        ScalarKind::I8 => IndirectKind::Int8,
        ScalarKind::I16 => IndirectKind::Int16,
        ScalarKind::I32 => IndirectKind::Int32,
        ScalarKind::I64 => IndirectKind::Int64,
        ScalarKind::ISize => IndirectKind::NativeInt,
        ScalarKind::U8 => IndirectKind::UInt8,
        ScalarKind::U16 => IndirectKind::UInt16,
        ScalarKind::U32 => IndirectKind::UInt32,
        ScalarKind::U64 => IndirectKind::Int64,
        ScalarKind::USize => IndirectKind::NativeInt,
        ScalarKind::Float32 => IndirectKind::Real32,
        ScalarKind::Float64 => IndirectKind::Real64,
        ScalarKind::Bool => IndirectKind::UInt8,
        ScalarKind::Char => IndirectKind::UInt32,
    }
}

fn store_kind_of(k: ScalarKind) -> (r: IndirectKind)
    ensures
        r == store_kind(k),
{
    match k {
        ScalarKind::I8 | ScalarKind::U8 | ScalarKind::Bool => IndirectKind::Int8,
        ScalarKind::I16 | ScalarKind::U16 => IndirectKind::Int16,
        ScalarKind::I32 | ScalarKind::U32 | ScalarKind::Char => IndirectKind::Int32,
        ScalarKind::I64 | ScalarKind::U64 => IndirectKind::Int64,
        ScalarKind::ISize | ScalarKind::USize => IndirectKind::NativeInt,
        ScalarKind::Float32 => IndirectKind::Real32,
        ScalarKind::Float64 => IndirectKind::Real64,
    }
}

/// The load through a pointer to a value of type `p`.
pub fn deref_op(tt: &TypeTable, p: Ty) -> (r: Result<Instruction, LowerError>)
    requires
        tt.valid(p),
    ensures
        r == deref_load_spec(tt, p),
{
    match &tt.kinds[p.0] {
        TyKind::Scalar(k) => Ok(Instruction::LoadIndirect(load_kind_of(*k))),
        TyKind::Ref(_) => Ok(Instruction::LoadIndirect(IndirectKind::NativeInt)),
        TyKind::RawPtr(_) => Ok(Instruction::LoadIndirect(IndirectKind::NativeInt)),
        _ => Err(LowerError::UnsupportedScalarWidth(p)),
    }
}

/// The store through a pointer to a value of type `p`.
pub fn deref_store_op(tt: &TypeTable, p: Ty) -> (r: Result<Instruction, LowerError>)
    requires
        tt.valid(p),
    ensures
        r == deref_store_spec(tt, p),
{
    match &tt.kinds[p.0] {
        TyKind::Scalar(k) => Ok(Instruction::StoreIndirect(store_kind_of(*k))),
        TyKind::Ref(_) => Ok(Instruction::StoreIndirect(IndirectKind::NativeInt)),
        TyKind::RawPtr(_) => Ok(Instruction::StoreIndirect(IndirectKind::NativeInt)),
        _ => Err(LowerError::UnsupportedScalarWidth(p)),
    }
}

/// A sequence of one instruction.
fn single(op: Instruction) -> (r: Vec<Instruction>)
    ensures
        r@ == seq![op],
{
    let mut v = Vec::new();
    v.push(op);
    proof {
        assert(v@ =~= seq![op]);
    }
    v
}

/// Lowers an interior step from a value of type `cur`.
pub fn place_elem_body(tt: &TypeTable, s: &AccessStep, cur: Ty) -> (r: Result<
    (Ty, Vec<Instruction>),
    LowerError,
>)
    requires
        tt.wf(),
        tt.valid(cur),
        step_wf(tt, *s),
    ensures
        match r {
            Ok((t, ops)) => interior_spec(tt, *s, cur) == Ok::<_, LowerError>((t, ops@)) && tt.valid(t),
            Err(e) => interior_spec(tt, *s, cur) == Err::<(Ty, Seq<Instruction>), _>(e),
        },
{
    match s {
        AccessStep::Deref => {
            let p = match pointed_type(tt, cur) {
                Ok(p) => p,
                Err(e) => return Err(e),
            };
            match classify(tt, p) {
                Err(e) => Err(e),
                Ok(Repr::ByAddress) => Ok((p, Vec::new())),
                Ok(Repr::ByValue) => match deref_op(tt, p) {
                    Err(e) => Err(e),
                    Ok(op) => Ok((p, single(op))),
                },
            }
        },
        AccessStep::Field(index, declared) => {
            let fd = match field_name(tt, cur, *index, *declared) {
                Ok(fd) => fd,
                Err(e) => return Err(e),
            };
            match classify(tt, *declared) {
                Err(e) => Err(e),
                Ok(Repr::ByAddress) => Ok((*declared, single(Instruction::LoadFieldAddress(fd)))),
                Ok(Repr::ByValue) => Ok((*declared, single(Instruction::LoadField(fd)))),
            }
        },
        _ => Err(LowerError::UnsupportedStepKind),
    }
}

/// Lowers the last step of a chain, from a value of type `cur`, for an intent.
pub fn place_elem_terminal(tt: &TypeTable, s: &AccessStep, cur: Ty, intent: Intent) -> (r: Result<
    Vec<Instruction>,
    LowerError,
>)
    requires
        tt.wf(),
        tt.valid(cur),
        step_wf(tt, *s),
    ensures
        match r {
            Ok(ops) => terminal_spec(tt, *s, cur, intent) == Ok::<_, LowerError>(ops@),
            Err(e) => terminal_spec(tt, *s, cur, intent) == Err::<Seq<Instruction>, _>(e),
        },
{
    match intent {
        Intent::Get => match place_elem_body(tt, s, cur) {
            Err(e) => Err(e),
            Ok((_, ops)) => Ok(ops),
        },
        Intent::Store(v) => match s {
            AccessStep::Deref => {
                let p = match pointed_type(tt, cur) {
                    Ok(p) => p,
                    Err(e) => return Err(e),
                };
                match deref_store_op(tt, p) {
                    Err(e) => Err(e),
                    Ok(op) => {
                        let mut ops = v;
                        ops.push(op);
                        Ok(ops)
                    },
                }
            },
            AccessStep::Field(index, declared) => match field_name(tt, cur, *index, *declared) {
                Err(e) => Err(e),
                Ok(fd) => {
                    let mut ops = v;
                    ops.push(Instruction::StoreField(fd));
                    Ok(ops)
                },
            },
            _ => Err(LowerError::UnsupportedStepKind),
        },
        Intent::AddressOf => match s {
            AccessStep::Deref => match pointed_type(tt, cur) {
                Err(e) => Err(e),
                Ok(_) => Ok(Vec::new()),
            },
            AccessStep::Field(index, declared) => match field_name(tt, cur, *index, *declared) {
                Err(e) => Err(e),
                Ok(fd) => Ok(single(Instruction::LoadFieldAddress(fd))),
            },
            _ => Err(LowerError::UnsupportedStepKind),
        },
    }
}

} // verus!
