//! The shape of a GraphQL type reference, as it appears in schema metadata.

use vstd::prelude::*;

verus! {

/// A reference to a GraphQL type: a (possibly non-null) named type, or a
/// (possibly non-null) list of some inner type with an optional fixed size.
#[derive(Debug, PartialEq)]
pub enum TypeRef {
    Named(String),
    NonNullNamed(String),
    List(Box<TypeRef>, Option<usize>),
    NonNullList(Box<TypeRef>, Option<usize>),
}

/// A deep copy of a type reference that owns every name it mentions.
///
/// When participants' field metadata is gathered into the composite's own
/// schema, each borrowed type reference is turned into an owned one; the
/// copy is equal to the original in every part.
pub fn type_to_owned(ty: &TypeRef) -> (r: TypeRef)
    ensures
        r == *ty,
    decreases *ty,
{
    match ty {
        TypeRef::Named(name) => TypeRef::Named(name.clone()),
        TypeRef::NonNullNamed(name) => TypeRef::NonNullNamed(name.clone()),
        TypeRef::List(inner, size) => TypeRef::List(Box::new(type_to_owned(&**inner)), *size),
        TypeRef::NonNullList(inner, size) => TypeRef::NonNullList(
            Box::new(type_to_owned(&**inner)),
            *size,
        ),
    }
}

} // verus!
