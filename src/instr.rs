//! The instructions that the lowering emits, and the primitive accesses to a
//! function's storage slots.
use vstd::prelude::*;
use crate::ty::{LowerError, Repr, Ty, TypeTable, classify, classify_spec};

verus! {

/// A nominal reference to a record field: the record type, the field's type
/// and the field's name.
#[derive(Clone, Debug, PartialEq, Eq)]
pub struct FieldDescriptor {
    pub owner: Ty,
    pub field_ty: Ty,
    pub name: String,
}

/// The width and class of an indirect load or store.
#[derive(Clone, Copy, Debug, PartialEq, Eq)]
pub enum IndirectKind {
    Int8,
    Int16,
    Int32,
    Int64,
    UInt8,
    UInt16,
    UInt32,
    Real32,
    Real64,
    NativeInt,
}

/// One instruction of the stack machine.
#[derive(Clone, Debug, PartialEq, Eq)]
pub enum Instruction {
    LoadLocal(usize),
    LoadArg(usize),
    LoadLocalAddress(usize),
    LoadArgAddress(usize),
    StoreLocal(usize),
    StoreArg(usize),
    LoadField(FieldDescriptor),
    LoadFieldAddress(FieldDescriptor),
    StoreField(FieldDescriptor),
    LoadIndirect(IndirectKind),
    StoreIndirect(IndirectKind),
}

/// A function body as the lowering reads it: how many arguments it takes,
/// and the declared type of each storage slot.
pub struct Body {
    pub arg_count: usize,
    pub local_types: Vec<Ty>,
}

impl Body {
    /// Every slot's type is in the table.
    pub open spec fn wf(&self, tt: &TypeTable) -> bool {
        forall|i: int| 0 <= i < self.local_types@.len() ==> tt.valid(#[trigger] self.local_types@[i])
    }

    pub open spec fn slot_ty(&self, slot: usize) -> Ty {
        self.local_types@[slot as int]
    }
}

/// Slot 0 is the return slot, local 0; slots 1 to `arg_count` are arguments
/// from 0 on; the slots after them are locals from 1 on.
pub open spec fn is_arg(arg_count: usize, slot: usize) -> bool {
    1 <= slot <= arg_count
}

pub open spec fn local_index(arg_count: usize, slot: usize) -> usize {
    if slot == 0 { 0 } else { (slot - arg_count) as usize }
}

pub open spec fn arg_index(slot: usize) -> usize {
    (slot - 1) as usize
}

/// Pushes the slot's value.
pub open spec fn load_value(arg_count: usize, slot: usize) -> Instruction {
    if is_arg(arg_count, slot) {
        Instruction::LoadArg(arg_index(slot))
    } else {
        Instruction::LoadLocal(local_index(arg_count, slot))
    }
}

/// Pushes the address of the slot's storage.
pub open spec fn load_address(arg_count: usize, slot: usize) -> Instruction {
    if is_arg(arg_count, slot) {
        Instruction::LoadArgAddress(arg_index(slot))
    } else {
        Instruction::LoadLocalAddress(local_index(arg_count, slot))
    }
}

/// Pops a value into the slot.
pub open spec fn store_value(arg_count: usize, slot: usize) -> Instruction {
    if is_arg(arg_count, slot) {
        Instruction::StoreArg(arg_index(slot))
    } else {
        Instruction::StoreLocal(local_index(arg_count, slot))
    }
}

/// The access that starts a walk from a slot of type `t`: its address where
/// `t` is handled by address, its value otherwise.
pub open spec fn initial_access_spec(tt: &TypeTable, arg_count: usize, slot: usize, t: Ty) -> Result<Instruction, LowerError> {
    match classify_spec(tt, t) {
        Ok(Repr::ByAddress) => Ok(load_address(arg_count, slot)),
        Ok(Repr::ByValue) => Ok(load_value(arg_count, slot)),
        Err(e) => Err(e),
    }
}

/// Pushes the value of a slot.
pub fn local_get(slot: usize, body: &Body) -> (r: Instruction)
    ensures
        r == load_value(body.arg_count, slot),
{
    if slot == 0 {
        Instruction::LoadLocal(0)
    } else if slot > body.arg_count {
        Instruction::LoadLocal(slot - body.arg_count)
    } else {
        Instruction::LoadArg(slot - 1)
    }
}

/// Pops a value into a slot.
pub fn local_set(slot: usize, body: &Body) -> (r: Instruction)
    ensures
        r == store_value(body.arg_count, slot),
{
    if slot == 0 {
        Instruction::StoreLocal(0)
    } else if slot > body.arg_count {
        Instruction::StoreLocal(slot - body.arg_count)
    } else {
        Instruction::StoreArg(slot - 1)
    }
}

/// Pushes the address of a slot.
pub fn local_adress(slot: usize, body: &Body) -> (r: Instruction)
    ensures
        r == load_address(body.arg_count, slot),
{
    if slot == 0 {
        Instruction::LoadLocalAddress(0)
    } else if slot > body.arg_count {
        Instruction::LoadLocalAddress(slot - body.arg_count)
    } else {
        Instruction::LoadArgAddress(slot - 1)
    }
}

/// The access that starts a walk from a slot, with the slot's type.
pub fn local_body(tt: &TypeTable, slot: usize, body: &Body) -> (r: Result<(Instruction, Ty), LowerError>)
    requires
        body.wf(tt),
        slot < body.local_types@.len(),
    ensures
        match r {
            Ok((op, t)) => t == body.slot_ty(slot) && initial_access_spec(
                tt,
                body.arg_count,
                slot,
                t,
            ) == Ok::<Instruction, LowerError>(op),
            Err(e) => initial_access_spec(tt, body.arg_count, slot, body.slot_ty(slot)) == Err::<
                Instruction,
                LowerError,
            >(e),
        },
{
    let t = body.local_types[slot];
    match classify(tt, t) {
        Ok(Repr::ByAddress) => Ok((local_adress(slot, body), t)),
        Ok(Repr::ByValue) => Ok((local_get(slot, body), t)),
        Err(e) => Err(e),
    }
}

} // verus!
