//! Lowering of whole places: the walk over interior steps, shared by every
//! intent, followed by the terminal step.
use vstd::prelude::*;
use crate::instr::{Body, Instruction, initial_access_spec, load_address, load_value, local_adress, local_body, local_get, local_set, store_value};
use crate::step::{AccessStep, Intent, interior_spec, place_elem_body, place_elem_terminal, step_wf, terminal_spec};
use crate::ty::{LowerError, Ty, TypeTable};

verus! {

/// An addressable location: a storage slot refined by access steps, applied
/// from first to last.
pub struct Place {
    pub base: usize,
    pub steps: Vec<AccessStep>,
}

impl Place {
    /// The base slot is one of the body's slots, and every type a step names
    /// is in the table.
    pub open spec fn wf(&self, tt: &TypeTable, body: &Body) -> bool {
        &&& self.base < body.local_types@.len()
        &&& forall|i: int| 0 <= i < self.steps@.len() ==> step_wf(tt, #[trigger] self.steps@[i])
    }
}

/// The interior walk over `steps` from a value of type `start`: the type
/// reached and the instructions emitted, or the first failure.
pub open spec fn walk_spec(tt: &TypeTable, steps: Seq<AccessStep>, start: Ty) -> Result<
    (Ty, Seq<Instruction>),
    LowerError,
>
    decreases steps.len(),
{
    if steps.len() == 0 {
        Ok((start, Seq::empty()))
    } else {
        match walk_spec(tt, steps.drop_last(), start) {
            Err(e) => Err(e),
            Ok((t, ops)) => match interior_spec(tt, steps.last(), t) {
                Err(e) => Err(e),
                Ok((t2, ops2)) => Ok((t2, ops + ops2)),
            },
        }
    }
}

/// The instructions for accessing a place with an intent. Without steps the
/// slot is read, written or addressed directly. Otherwise the walk starts
/// with the slot's initial access, runs every step but the last as an
/// interior step, and ends with the last step lowered for the intent.
pub open spec fn lower_spec(tt: &TypeTable, body: &Body, place: &Place, intent: Intent) -> Result<
    Seq<Instruction>,
    LowerError,
> {
    let steps = place.steps@;
    let n = body.arg_count;
    if steps.len() == 0 {
        match intent {
            Intent::Get => Ok(seq![load_value(n, place.base)]),
            Intent::Store(v) => Ok(v@.push(store_value(n, place.base))),
            Intent::AddressOf => Ok(seq![load_address(n, place.base)]),
        }
    } else {
        let base_ty = body.slot_ty(place.base);
        match initial_access_spec(tt, n, place.base, base_ty) {
            Err(e) => Err(e),
            Ok(first) => match walk_spec(tt, steps.drop_last(), base_ty) {
                Err(e) => Err(e),
                Ok((t, ops)) => match terminal_spec(tt, steps.last(), t, intent) {
                    Err(e) => Err(e),
                    Ok(tail) => Ok(seq![first] + ops + tail),
                },
            },
        }
    }
}

/// The result of a lowering, with its instructions as a sequence.
pub open spec fn result_view(r: Result<Vec<Instruction>, LowerError>) -> Result<
    Seq<Instruction>,
    LowerError,
> {
    match r {
        Ok(v) => Ok(v@),
        Err(e) => Err(e),
    }
}

/// Once a prefix of the walk fails, the whole walk fails the same way.
proof fn lemma_walk_failure_persists(tt: &TypeTable, steps: Seq<AccessStep>, start: Ty, k: int)
    requires
        0 <= k <= steps.len(),
        walk_spec(tt, steps.subrange(0, k), start) is Err,
    ensures
        walk_spec(tt, steps, start) == walk_spec(tt, steps.subrange(0, k), start),
    decreases steps.len(),
{
    if k < steps.len() {
        assert(steps.drop_last().subrange(0, k) =~= steps.subrange(0, k));
        lemma_walk_failure_persists(tt, steps.drop_last(), start, k);
    } else {
        assert(steps.subrange(0, k) =~= steps);
    }
}

/// Splits a non-empty slice into its last element and the rest.
pub fn slice_head<T>(slice: &[T]) -> (r: (&T, &[T]))
    requires
        slice@.len() > 0,
    ensures
        *r.0 == slice@.last(),
        r.1@ == slice@.drop_last(),
{
    let last = &slice[slice.len() - 1];
    (last, &slice[0..(slice.len() - 1)])
}

/// Lowers an access to a place with an intent.
pub fn lower_place(place: &Place, tt: &TypeTable, intent: Intent, body: &Body) -> (r: Result<
    Vec<Instruction>,
    LowerError,
>)
    requires
        tt.wf(),
        body.wf(tt),
        place.wf(tt, body),
    ensures
        result_view(r) == lower_spec(tt, body, place, intent),
{
    if place.steps.len() == 0 {
        let mut ops: Vec<Instruction> = Vec::new();
        match intent {
            Intent::Get => ops.push(local_get(place.base, body)),
            Intent::Store(v) => {
                ops = v;
                ops.push(local_set(place.base, body));
            },
            Intent::AddressOf => ops.push(local_adress(place.base, body)),
        }
        proof {
            assert(ops@ =~= lower_spec(tt, body, place, intent)->Ok_0);
        }
        return Ok(ops);
    }
    let (first, base_ty) = match local_body(tt, place.base, body) {
        Ok(r) => r,
        Err(e) => return Err(e),
    };
    let (last, interior) = slice_head(place.steps.as_slice());
    let mut ops: Vec<Instruction> = Vec::new();
    ops.push(first);
    let mut ty = base_ty;
    let mut i: usize = 0;
    proof {
        assert(interior@.subrange(0, 0) =~= Seq::<AccessStep>::empty());
        assert(ops@.drop_first() =~= Seq::<Instruction>::empty());
    }
    while i < interior.len()
        invariant
            tt.wf(),
            tt.valid(ty),
            0 <= i <= interior@.len(),
            interior@ == place.steps@.drop_last(),
            place.steps@.len() == interior@.len() + 1,
            base_ty == body.slot_ty(place.base),
            initial_access_spec(tt, body.arg_count, place.base, base_ty) == Ok::<_, LowerError>(first),
            place.wf(tt, body),
            walk_spec(tt, interior@.subrange(0, i as int), base_ty) == Ok::<_, LowerError>(
                (ty, ops@.drop_first()),
            ),
            ops@.len() >= 1,
            ops@[0] == first,
        decreases interior@.len() - i,
    {
        assert(interior@.subrange(0, i + 1).drop_last() =~= interior@.subrange(0, i as int));
        assert(interior@[i as int] == place.steps@[i as int]);
        assert(step_wf(tt, place.steps@[i as int]));
        match place_elem_body(tt, &interior[i], ty) {
            Ok((t, mut more)) => {
                let ghost before = ops@;
                let ghost added = more@;
                ops.append(&mut more);
                ty = t;
                proof {
                    assert(ops@.drop_first() =~= before.drop_first() + added);
                }
            },
            Err(e) => {
                proof {
                    let prefix = interior@.subrange(0, i + 1);
                    assert(prefix.last() == interior@[i as int]);
                    assert(walk_spec(tt, prefix, base_ty) == Err::<(Ty, Seq<Instruction>), _>(e));
                    lemma_walk_failure_persists(tt, interior@, base_ty, i + 1);
                }
                return Err(e);
            },
        }
        i = i + 1;
    }
    assert(interior@.subrange(0, i as int) =~= interior@);
    assert(step_wf(tt, place.steps@.last()));
    let mut tail = match place_elem_terminal(tt, last, ty, intent) {
        Ok(t) => t,
        Err(e) => return Err(e),
    };
    let ghost before = ops@;
    let ghost added = tail@;
    ops.append(&mut tail);
    proof {
        assert(ops@ =~= seq![first] + before.drop_first() + added);
    }
    Ok(ops)
}

/// The instructions that push the value of a place.
pub fn place_get(place: &Place, tt: &TypeTable, body: &Body) -> (r: Result<Vec<Instruction>, LowerError>)
    requires
        tt.wf(),
        body.wf(tt),
        place.wf(tt, body),
    ensures
        result_view(r) == lower_spec(tt, body, place, Intent::Get),
{
    lower_place(place, tt, Intent::Get, body)
}

/// The instructions that run `value_calc`, which pushes a value, and write
/// that value into a place.
pub fn place_set(place: &Place, tt: &TypeTable, value_calc: Vec<Instruction>, body: &Body) -> (r: Result<
    Vec<Instruction>,
    LowerError,
>)
    requires
        tt.wf(),
        body.wf(tt),
        place.wf(tt, body),
    ensures
        result_view(r) == lower_spec(tt, body, place, Intent::Store(value_calc)),
{
    lower_place(place, tt, Intent::Store(value_calc), body)
}

/// The instructions that push the address of a place.
pub fn place_adress(place: &Place, tt: &TypeTable, body: &Body) -> (r: Result<Vec<Instruction>, LowerError>)
    requires
        tt.wf(),
        body.wf(tt),
        place.wf(tt, body),
    ensures
        result_view(r) == lower_spec(tt, body, place, Intent::AddressOf),
{
    lower_place(place, tt, Intent::AddressOf, body)
}

} // verus!
