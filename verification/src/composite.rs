//! The composer: merge participants into one aggregate object type.

use crate::object::{field_names, fields_disjoint, ComposableObject};
use crate::value::{Argument, CompositionError, ResolutionError, Value};
use core::marker::PhantomData;
use vstd::prelude::*;

verus! {

/// The aggregate object type built from two participants.
///
/// A composite holds no data of its own: it is a pure dispatcher. Its field
/// list is `A`'s fields followed by `B`'s fields, and resolving a field
/// forwards the call to a fresh neutral instance of the participant that
/// declares it. The context type defaults to the unit context.
///
/// A composite of more than two participants is written by nesting: the
/// composite itself satisfies [`ComposableObject`], so it can stand as a
/// participant of a further composition.
pub struct Composite<A, B, Ctx = ()> where A: ComposableObject<Ctx>, B: ComposableObject<Ctx> {
    participants: PhantomData<(A, B, Ctx)>,
}

/// Whether `names` contains `target`, compared by characters.
fn contains_field(names: &Vec<String>, target: &String) -> (r: bool)
    ensures
        r == field_names(names@).contains(target@),
{
    let mut i: usize = 0;
    while i < names.len()
        invariant
            i <= names.len(),
            forall|j: int| 0 <= j < i ==> field_names(names@)[j] != target@,
        decreases names.len() - i,
    {
        if names[i] == *target {
            assert(field_names(names@)[i as int] == target@);
            return true;
        }
        i += 1;
    }
    false
}

/// A field name occurring in both lists, if the lists share one.
fn find_shared(a: &Vec<String>, b: &Vec<String>) -> (r: Option<String>)
    ensures
        match r {
            Some(name) => field_names(a@).contains(name@) && field_names(b@).contains(name@),
            None => fields_disjoint(field_names(a@), field_names(b@)),
        },
{
    let mut i: usize = 0;
    while i < a.len()
        invariant
            i <= a.len(),
            forall|j: int| 0 <= j < i ==> !field_names(b@).contains(#[trigger] field_names(a@)[j]),
        decreases a.len() - i,
    {
        if contains_field(b, &a[i]) {
            assert(field_names(a@)[i as int] == a@[i as int]@);
            return Some(a[i].clone());
        }
        i += 1;
    }
    proof {
        assert forall|f: Seq<char>| field_names(a@).contains(f) implies !field_names(
            b@,
        ).contains(f) by {
            let j = choose|j: int|
                0 <= j < field_names(a@).len() && field_names(a@)[j] == f;
            assert(!field_names(b@).contains(field_names(a@)[j]));
        }
    }
    None
}

/// Compose two participants into one object type.
///
/// Composition succeeds exactly when the participants' field-name lists are
/// disjoint; otherwise it fails with an error naming a field that both
/// declare. The returned composite's field list is `A`'s fields followed by
/// `B`'s fields.
pub fn compose<A, B, Ctx>() -> (r: Result<Composite<A, B, Ctx>, CompositionError>) where
    A: ComposableObject<Ctx>,
    B: ComposableObject<Ctx>,

    ensures
        r is Ok <==> fields_disjoint(A::spec_fields(), B::spec_fields()),
        r matches Err(e) ==> A::spec_fields().contains(e.duplicate_field@)
            && B::spec_fields().contains(e.duplicate_field@),
{
    let a_fields = A::fields();
    let b_fields = B::fields();
    match find_shared(&a_fields, &b_fields) {
        Some(name) => Err(CompositionError { duplicate_field: name }),
        None => Ok(Composite { participants: PhantomData }),
    }
}

impl<A, B, Ctx> ComposableObject<Ctx> for Composite<A, B, Ctx> where
    A: ComposableObject<Ctx>,
    B: ComposableObject<Ctx>,
 {
    /// The composite's fields: `A`'s fields followed by `B`'s fields.
    open spec fn spec_fields() -> Seq<Seq<char>> {
        A::spec_fields() + B::spec_fields()
    }

    /// Dispatch: the declaring participant's own outcome, or a "field not
    /// found" error when neither participant declares the field.
    open spec fn spec_resolve(field: Seq<char>, args: Seq<Argument>, ctx: Ctx) -> Result<
        Value,
        ResolutionError,
    > {
        if A::spec_fields().contains(field) {
            A::spec_resolve(field, args, ctx)
        } else if B::spec_fields().contains(field) {
            B::spec_resolve(field, args, ctx)
        } else {
            Err(ResolutionError::FieldNotFound)
        }
    }

    fn fields() -> (r: Vec<String>) {
        let mut out = A::fields();
        let mut rest = B::fields();
        out.append(&mut rest);
        proof {
            assert(field_names(out@) =~= A::spec_fields() + B::spec_fields());
        }
        out
    }

    fn neutral() -> (r: Self) {
        Composite { participants: PhantomData }
    }

    fn resolve_field(&self, field: &String, args: &Vec<Argument>, ctx: &Ctx) -> (r: Result<
        Value,
        ResolutionError,
    >) {
        let a_fields = A::fields();
        if contains_field(&a_fields, field) {
            let a = A::neutral();
            a.resolve_field(field, args, ctx)
        } else {
            let b_fields = B::fields();
            if contains_field(&b_fields, field) {
                let b = B::neutral();
                b.resolve_field(field, args, ctx)
            } else {
                Err(ResolutionError::FieldNotFound)
            }
        }
    }
}

/// Law: a composite's field list is the ordered union of its participants'
/// lists — participant order preserved, fields within a participant in that
/// participant's declared order.
pub proof fn lemma_composite_fields_are_union<A, B, Ctx>() where
    A: ComposableObject<Ctx>,
    B: ComposableObject<Ctx>,

    ensures
        Composite::<A, B, Ctx>::spec_fields() == A::spec_fields() + B::spec_fields(),
{
}

/// Law: a field declared by the first participant alone resolves through the
/// composite to exactly that participant's own outcome, with the arguments
/// and the context handed on unchanged.
pub proof fn lemma_resolution_forwards_left<A, B, Ctx>(
    field: Seq<char>,
    args: Seq<Argument>,
    ctx: Ctx,
) where A: ComposableObject<Ctx>, B: ComposableObject<Ctx>
    requires
        A::spec_fields().contains(field),
        !B::spec_fields().contains(field),
    ensures
        Composite::<A, B, Ctx>::spec_resolve(field, args, ctx) == A::spec_resolve(
            field,
            args,
            ctx,
        ),
{
}

/// Law: a field declared by the second participant alone resolves through
/// the composite to exactly that participant's own outcome, with the
/// arguments and the context handed on unchanged.
pub proof fn lemma_resolution_forwards_right<A, B, Ctx>(
    field: Seq<char>,
    args: Seq<Argument>,
    ctx: Ctx,
) where A: ComposableObject<Ctx>, B: ComposableObject<Ctx>
    requires
        B::spec_fields().contains(field),
        !A::spec_fields().contains(field),
    ensures
        Composite::<A, B, Ctx>::spec_resolve(field, args, ctx) == B::spec_resolve(
            field,
            args,
            ctx,
        ),
{
}

/// Law: a field that no participant declares resolves to the composite's
/// own defensive "field not found" error — the one error the dispatcher
/// originates itself.
pub proof fn lemma_resolution_field_not_found<A, B, Ctx>(
    field: Seq<char>,
    args: Seq<Argument>,
    ctx: Ctx,
) where A: ComposableObject<Ctx>, B: ComposableObject<Ctx>
    requires
        !A::spec_fields().contains(field),
        !B::spec_fields().contains(field),
    ensures
        Composite::<A, B, Ctx>::spec_resolve(field, args, ctx) == Err::<
            Value,
            ResolutionError,
        >(ResolutionError::FieldNotFound),
{
}

/// Law: composites are themselves valid participants, and a higher-level
/// composite keeps every field of the composites it is built from: each
/// field of either participant is a field of the composite.
pub proof fn lemma_composite_keeps_participant_fields<A, B, Ctx>(field: Seq<char>) where
    A: ComposableObject<Ctx>,
    B: ComposableObject<Ctx>,

    requires
        A::spec_fields().contains(field) || B::spec_fields().contains(field),
    ensures
        Composite::<A, B, Ctx>::spec_fields().contains(field),
{
    if A::spec_fields().contains(field) {
        let j = choose|j: int| 0 <= j < A::spec_fields().len() && A::spec_fields()[j] == field;
        assert((A::spec_fields() + B::spec_fields())[j] == field);
    } else {
        let j = choose|j: int| 0 <= j < B::spec_fields().len() && B::spec_fields()[j] == field;
        assert((A::spec_fields() + B::spec_fields())[A::spec_fields().len() + j] == field);
    }
}

} // verus!
