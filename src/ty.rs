//! The host type system as the lowering sees it: an interning table of type
//! kinds, addressed by `Ty` handles, and the rules that read it.
use vstd::prelude::*;

verus! {

/// A handle to an interned type: an index into a `TypeTable`.
#[derive(Clone, Copy, Debug, PartialEq, Eq)]
pub struct Ty(pub usize);

/// The primitive scalar kinds, by width, signedness and class.
#[derive(Clone, Copy, Debug, PartialEq, Eq)]
pub enum ScalarKind {
    I8,
    I16,
    I32,
    I64,
    ISize,
    U8,
    U16,
    U32,
    U64,
    USize,
    Float32,
    Float64,
    Bool,
    Char,
}

/// A named field of a record type.
#[derive(Clone, Debug, PartialEq, Eq)]
pub struct FieldDef {
    pub name: String,
    pub ty: Ty,
}

/// A nominal record type with its fields in declaration order.
#[derive(Clone, Debug, PartialEq, Eq)]
pub struct AdtDef {
    pub name: String,
    pub fields: Vec<FieldDef>,
}

/// The shape of a type.
#[derive(Clone, Debug, PartialEq, Eq)]
pub enum TyKind {
    Scalar(ScalarKind),
    Ref(Ty),
    RawPtr(Ty),
    Adt(AdtDef),
    Tuple(Vec<Ty>),
    Array(Ty, u64),
    Slice(Ty),
    Str,
}

/// How values of a type are handled on the evaluation stack.
#[derive(Clone, Copy, Debug, PartialEq, Eq)]
pub enum Repr {
    /// The value itself sits on the stack (scalars, pointers).
    ByValue,
    /// Only a pointer to the value's storage sits on the stack (records).
    ByAddress,
}

/// Why a place could not be lowered.
#[derive(Clone, Copy, Debug, PartialEq, Eq)]
pub enum LowerError {
    /// The type's kind has no representation.
    UnsupportedType(Ty),
    /// The access step is neither a dereference nor a field access.
    UnsupportedStepKind,
    /// No indirect load or store moves a value of this type.
    UnsupportedScalarWidth(Ty),
    /// A dereference of a type that is not a reference or pointer.
    NotAPointerType(Ty),
    /// The record has no field at this position.
    FieldIndexOutOfRange { owner: Ty, index: usize },
    /// The type has no named fields.
    UnsupportedOwnerType(Ty),
}

/// The interning table of the host's types.
pub struct TypeTable {
    pub kinds: Vec<TyKind>,
}

impl TypeTable {
    pub open spec fn valid(&self, t: Ty) -> bool {
        t.0 < self.kinds@.len()
    }

    pub open spec fn kind(&self, t: Ty) -> TyKind {
        self.kinds@[t.0 as int]
    }

    /// Every handle that a kind of the table holds is in the table.
    pub open spec fn kind_wf(&self, k: TyKind) -> bool {
        match k {
            TyKind::Scalar(_) => true,
            TyKind::Ref(p) => self.valid(p),
            TyKind::RawPtr(p) => self.valid(p),
            TyKind::Adt(def) => forall|j: int|
                0 <= j < def.fields@.len() ==> self.valid(#[trigger] def.fields@[j].ty),
            TyKind::Tuple(elems) => forall|j: int|
                0 <= j < elems@.len() ==> self.valid(#[trigger] elems@[j]),
            TyKind::Array(e, _) => self.valid(e),
            TyKind::Slice(e) => self.valid(e),
            TyKind::Str => true,
        }
    }

    pub open spec fn wf(&self) -> bool {
        forall|i: int| 0 <= i < self.kinds@.len() ==> self.kind_wf(#[trigger] self.kinds@[i])
    }
}

/// The representation of a type: scalars and pointers by value, records by
/// address, every other kind unsupported.
pub open spec fn classify_spec(tt: &TypeTable, t: Ty) -> Result<Repr, LowerError> {
    match tt.kind(t) {
        TyKind::Scalar(_) => Ok(Repr::ByValue),
        TyKind::Ref(_) => Ok(Repr::ByValue),
        TyKind::RawPtr(_) => Ok(Repr::ByValue),
        TyKind::Adt(_) => Ok(Repr::ByAddress),
        _ => Err(LowerError::UnsupportedType(t)),
    }
}

/// The type a reference or pointer points to.
pub open spec fn pointee_spec(tt: &TypeTable, t: Ty) -> Result<Ty, LowerError> {
    match tt.kind(t) {
        TyKind::Ref(p) => Ok(p),
        TyKind::RawPtr(p) => Ok(p),
        _ => Err(LowerError::NotAPointerType(t)),
    }
}

/// Classifies a type as handled by value or by address.
pub fn classify(tt: &TypeTable, t: Ty) -> (r: Result<Repr, LowerError>)
    requires
        tt.valid(t),
    ensures
        r == classify_spec(tt, t),
{
    match &tt.kinds[t.0] {
        TyKind::Scalar(_) => Ok(Repr::ByValue),
        TyKind::Ref(_) => Ok(Repr::ByValue),
        TyKind::RawPtr(_) => Ok(Repr::ByValue),
        TyKind::Adt(_) => Ok(Repr::ByAddress),
        _ => Err(LowerError::UnsupportedType(t)),
    }
}

/// The pointee of a reference or pointer type.
pub fn pointed_type(tt: &TypeTable, t: Ty) -> (r: Result<Ty, LowerError>)
    requires
        tt.wf(),
        tt.valid(t),
    ensures
        r == pointee_spec(tt, t),
        r is Ok ==> tt.valid(r->Ok_0),
{
    match &tt.kinds[t.0] {
        TyKind::Ref(p) => Ok(*p),
        TyKind::RawPtr(p) => Ok(*p),
        _ => Err(LowerError::NotAPointerType(t)),
    }
}

} // verus!
