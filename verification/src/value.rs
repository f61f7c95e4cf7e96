//! Plain values carried through a field resolution call.
//!
//! The composition core never inspects these values: arguments, resolved
//! values and resolver errors travel through the dispatcher unchanged. They
//! are modeled here as concrete types so that contracts can state that the
//! forwarded call receives, and the composite returns, exactly the same
//! values.

use vstd::prelude::*;
use vstd::string::StringExecFns;

verus! {

/// A value produced by resolving a field, or supplied as an argument to one.
#[derive(Debug, PartialEq)]
pub enum Value {
    Null,
    Boolean(bool),
    Int(i64),
    Text(String),
    List(Vec<Value>),
}

/// One named argument of a field resolution request.
#[derive(Debug, PartialEq)]
pub struct Argument {
    pub name: String,
    pub value: Value,
}

/// An error returned from a field resolution call.
#[derive(Debug, PartialEq)]
pub enum ResolutionError {
    /// The requested field is not declared by any participant of the
    /// composite. A validated composition only reaches this defensively,
    /// when asked for a field outside its own field list.
    FieldNotFound,
    /// An error produced by the declaring participant's own resolver,
    /// propagated through the composite unchanged.
    Resolver { message: String },
}

/// The error of composing participants whose field names overlap.
#[derive(Debug, PartialEq)]
pub struct CompositionError {
    /// A field name declared by more than one participant.
    pub duplicate_field: String,
}

impl CompositionError {
    /// The failure in words, naming the colliding field.
    pub fn message(&self) -> (r: String)
        ensures
            r@ == "field declared by more than one participant: "@ + self.duplicate_field@,
    {
        let prefix: String = "field declared by more than one participant: ".to_owned();
        prefix.concat(self.duplicate_field.as_str())
    }
}

} // verus!
