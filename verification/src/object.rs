//! The capability contract a type must satisfy to take part in composition.

use crate::value::{Argument, ResolutionError, Value};
use vstd::prelude::*;

verus! {

/// The field names of an executable name list, each as its character
/// sequence.
pub open spec fn field_names(names: Seq<String>) -> Seq<Seq<char>> {
    names.map_values(|s: String| s@)
}

/// Two field-name lists are disjoint when no name occurs in both.
pub open spec fn fields_disjoint(a: Seq<Seq<char>>, b: Seq<Seq<char>>) -> bool {
    forall|f: Seq<char>| a.contains(f) ==> !b.contains(f)
}

/// Object types that are to be composed into one must implement this trait.
///
/// A participant is stateless: it supports a neutral, no-argument
/// construction path, it can enumerate the field names it declares without
/// an instance, and the outcome of resolving a field on it depends on the
/// field name, the arguments and the context alone — never on the instance,
/// which is constructed fresh for each dispatch and discarded afterwards.
///
/// The declared field list must match exactly the fields the type's resolver
/// accepts; `spec_resolve` is that resolver's meaning, and `resolve_field`
/// is bound to it.
pub trait ComposableObject<Ctx>: Sized {
    /// The field names this object type declares, in declaration order.
    ///
    /// Left unspecified by default; an implementation that is to be reasoned
    /// about gives its own definition.
    open spec fn spec_fields() -> Seq<Seq<char>> {
        vstd::pervasive::arbitrary()
    }

    /// The outcome of resolving `field` with arguments `args` against the
    /// context `ctx`. Participants are stateless, so the outcome is a
    /// function of these three alone.
    ///
    /// Left unspecified by default; an implementation that is to be reasoned
    /// about gives its own definition.
    open spec fn spec_resolve(field: Seq<char>, args: Seq<Argument>, ctx: Ctx) -> Result<
        Value,
        ResolutionError,
    > {
        vstd::pervasive::arbitrary()
    }

    /// The list of fields that exist on this object type.
    fn fields() -> (r: Vec<String>)
        ensures
            field_names(r@) == Self::spec_fields(),
    ;

    /// The neutral construction path: a fresh instance with no state of its
    /// own, built for a single dispatch.
    fn neutral() -> (r: Self);

    /// Resolve `field` against `ctx`, returning the resolved value or the
    /// resolver's own error.
    fn resolve_field(&self, field: &String, args: &Vec<Argument>, ctx: &Ctx) -> (r: Result<
        Value,
        ResolutionError,
    >)
        ensures
            r == Self::spec_resolve(field@, args@, *ctx),
    ;
}

/// The participant that declares no fields.
///
/// It is the identity of composition: composing it with any participant
/// yields a composite with exactly that participant's fields. It also lets
/// a single participant stand as a composite of its own.
pub struct EmptyObject;

impl<Ctx> ComposableObject<Ctx> for EmptyObject {
    open spec fn spec_fields() -> Seq<Seq<char>> {
        Seq::empty()
    }

    open spec fn spec_resolve(field: Seq<char>, args: Seq<Argument>, ctx: Ctx) -> Result<
        Value,
        ResolutionError,
    > {
        Err(ResolutionError::FieldNotFound)
    }

    fn fields() -> (r: Vec<String>) {
        let r: Vec<String> = Vec::new();
        proof {
            assert(field_names(r@) =~= Seq::<Seq<char>>::empty());
        }
        r
    }

    fn neutral() -> (r: Self) {
        EmptyObject
    }

    fn resolve_field(&self, field: &String, args: &Vec<Argument>, ctx: &Ctx) -> (r: Result<
        Value,
        ResolutionError,
    >) {
        Err(ResolutionError::FieldNotFound)
    }
}

} // verus!
