//! Compose several partial GraphQL object types into a single aggregate
//! object type.
//!
//! A large schema root (a `Query` or `Mutation` type) quickly grows into one
//! monolithic declaration. This library lets each domain area declare its own
//! partial object type — a *participant* — and merges any number of
//! participants into one *composite* object type. The composite holds no data
//! of its own: its field list is the concatenation of the participants' field
//! lists, and resolving a field forwards the call, unchanged, to a fresh
//! neutral instance of the single participant that declares that field.
//!
//! Composition is validated up front: [`compose`] refuses two participants
//! that declare the same field name, naming a colliding field, so that an
//! ambiguous schema is rejected before any query is served. Composites
//! themselves satisfy the participant contract, so they can be composed
//! again into higher-level composites.

pub mod composite;
pub mod object;
pub mod type_ref;
pub mod value;

pub use composite::{compose, Composite};
pub use object::{ComposableObject, EmptyObject};
pub use type_ref::{type_to_owned, TypeRef};
pub use value::{Argument, CompositionError, ResolutionError, Value};
