//! Properties that tie the lowering's functions together.
use vstd::prelude::*;
use crate::instr::{Body, Instruction, initial_access_spec, load_address, load_value};
use crate::place::{Place, lower_spec, walk_spec};
use crate::step::{AccessStep, Intent, field_spec, interior_spec, terminal_spec};
use crate::ty::{LowerError, Repr, Ty, TypeTable, classify_spec};

verus! {

/// A place without steps is read by loading the slot's value and addressed
/// by loading the slot's address, whatever the slot's type.
pub proof fn law_empty_chain(tt: &TypeTable, body: &Body, place: &Place)
    requires
        place.steps@.len() == 0,
    ensures
        lower_spec(tt, body, place, Intent::Get) == Ok::<_, LowerError>(
            seq![load_value(body.arg_count, place.base)],
        ),
        lower_spec(tt, body, place, Intent::AddressOf) == Ok::<_, LowerError>(
            seq![load_address(body.arg_count, place.base)],
        ),
{
}

/// Where the base slot's type is handled by address, every lowering of a
/// place with steps starts from the slot's address, never from its value.
pub proof fn law_by_address_base_starts_at_address(
    tt: &TypeTable,
    body: &Body,
    place: &Place,
    intent: Intent,
)
    requires
        place.steps@.len() > 0,
        place.base < body.local_types@.len(),
        classify_spec(tt, body.slot_ty(place.base)) == Ok::<_, LowerError>(Repr::ByAddress),
        lower_spec(tt, body, place, intent) is Ok,
    ensures
        lower_spec(tt, body, place, intent)->Ok_0[0] == load_address(body.arg_count, place.base),
        lower_spec(tt, body, place, intent)->Ok_0[0] != load_value(body.arg_count, place.base),
{
    let ops = lower_spec(tt, body, place, intent)->Ok_0;
    let base_ty = body.slot_ty(place.base);
    let (t, walked) = walk_spec(tt, place.steps@.drop_last(), base_ty)->Ok_0;
    let tail = terminal_spec(tt, place.steps@.last(), t, intent)->Ok_0;
    assert(ops == seq![load_address(body.arg_count, place.base)] + walked + tail);
    assert(ops[0] == load_address(body.arg_count, place.base));
}

/// The representation of a type is a function of the type alone, and it
/// alone decides what an interior step emits: a dereference emits nothing
/// exactly when the pointee is handled by address, and a field access loads
/// the field's address exactly when its type is handled by address.
pub proof fn law_classification_decides_interior(tt: &TypeTable, s: AccessStep, cur: Ty)
    requires
        interior_spec(tt, s, cur) is Ok,
    ensures
        ({
            let (t, ops) = interior_spec(tt, s, cur)->Ok_0;
            &&& classify_spec(tt, t) is Ok
            &&& s is Deref ==> (ops.len() == 0 <==> classify_spec(tt, t) == Ok::<_, LowerError>(
                Repr::ByAddress,
            ))
            &&& s is Field ==> ops.len() == 1 && (ops[0] is LoadFieldAddress <==> classify_spec(
                tt,
                t,
            ) == Ok::<_, LowerError>(Repr::ByAddress)) && (ops[0] is LoadField <==> classify_spec(
                tt,
                t,
            ) == Ok::<_, LowerError>(Repr::ByValue))
        }),
{
}

/// Reading, writing and addressing a field whose type is handled by value
/// share the whole walk: where reading `place.f` lowers to a walk followed
/// by a load of `f`, writing
/// `value_calc` into it lowers to the same walk, then `value_calc`, then a
/// store into the same field, and addressing it to the same walk followed by
/// a load of the same field's address.
pub proof fn law_field_access_shares_walk(
    tt: &TypeTable,
    body: &Body,
    place: &Place,
    value_calc: Vec<Instruction>,
)
    requires
        place.steps@.len() > 0,
        place.steps@.last() is Field,
        classify_spec(tt, place.steps@.last()->Field_1) == Ok::<_, LowerError>(Repr::ByValue),
        lower_spec(tt, body, place, Intent::Get) is Ok,
    ensures
        ({
            let g = lower_spec(tt, body, place, Intent::Get)->Ok_0;
            &&& g.len() > 0
            &&& g.last() is LoadField
            &&& lower_spec(tt, body, place, Intent::Store(value_calc)) == Ok::<_, LowerError>(
                g.drop_last() + value_calc@.push(Instruction::StoreField(g.last()->LoadField_0)),
            )
            &&& lower_spec(tt, body, place, Intent::AddressOf) == Ok::<_, LowerError>(
                g.drop_last().push(Instruction::LoadFieldAddress(g.last()->LoadField_0)),
            )
        }),
{
    let g = lower_spec(tt, body, place, Intent::Get)->Ok_0;
    let base_ty = body.slot_ty(place.base);
    let first = initial_access_spec(tt, body.arg_count, place.base, base_ty)->Ok_0;
    let (t, walked) = walk_spec(tt, place.steps@.drop_last(), base_ty)->Ok_0;
    let fd = field_spec(tt, t, place.steps@.last()->Field_0, place.steps@.last()->Field_1)->Ok_0;
    assert(g == seq![first] + walked + seq![Instruction::LoadField(fd)]);
    assert(g.drop_last() =~= seq![first] + walked);
    assert(seq![first] + walked + value_calc@.push(Instruction::StoreField(fd)) =~= g.drop_last()
        + value_calc@.push(Instruction::StoreField(fd)));
    assert(seq![first] + walked + seq![Instruction::LoadFieldAddress(fd)] =~= g.drop_last().push(
        Instruction::LoadFieldAddress(fd),
    ));
}

} // verus!
