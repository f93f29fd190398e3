//! Derivation of builder types for records with named fields.
//!
//! Given a model of a record declaration (its name, its fields, and the
//! per-field directives attached to them), this crate classifies each field's
//! declared type, resolves the directives, and emits the source text of a
//! companion builder type: one optional storage slot per field, a setter or
//! accumulator method per field, and a finishing operation that validates
//! required fields and assembles the record.
//!
//! The crate also states, in the `semantics` module, what a builder emitted
//! from a classified field list does when it runs: setting, accumulating and
//! finishing are modelled as verified operations on a slot vector, and the
//! properties of the finishing operation are proved of that model.

use vstd::prelude::*;

pub mod context;
pub mod directive;
pub mod emit;
pub mod semantics;
pub mod ty;

verus! {

/// The shape of a field's declared type, as the generator classifies it:
/// a plain value, an optional single value, or an ordered sequence of values.
#[derive(Clone, Copy, Debug, PartialEq, Eq, Structural)]
pub enum Shape {
    Plain,
    Optional,
    Sequence,
}

/// A fatal generation-time error: the input declaration cannot be turned
/// into a builder, and no partial output is produced.
#[derive(Debug)]
pub enum GenError {
    /// The declaration is not a record with named fields; `kind` describes
    /// the unsupported shape.
    UnsupportedShape { kind: String },
    /// A recognized wrapper type carries `count` generic type arguments
    /// instead of exactly one.
    WrapperArity { wrapper: String, count: usize },
    /// A sequence field's accumulator directive names the field itself, so
    /// the accumulator method would collide with the whole-value setter.
    AccumulatorClash { field: String },
}

/// The text of a generation-time error message, naming the offending
/// construct.
pub open spec fn spec_error_message(e: GenError) -> Seq<char> {
    match e {
        GenError::UnsupportedShape { kind } => "unsupported declaration shape: "@ + kind@,
        GenError::WrapperArity { wrapper, count } => wrapper@
            + " must take exactly one type argument"@,
        GenError::AccumulatorClash { field } => "accumulator name collides with field "@
            + field@,
    }
}

impl GenError {
    /// Renders the error as a message naming the offending construct.
    pub fn message(&self) -> (r: String)
        ensures
            r@ == spec_error_message(*self),
    {
        match self {
            GenError::UnsupportedShape { kind } => {
                let mut m = String::from_str("unsupported declaration shape: ");
                m.append(kind.as_str());
                m
            },
            GenError::WrapperArity { wrapper, count } => {
                let mut m = wrapper.clone();
                m.append(" must take exactly one type argument");
                m
            },
            GenError::AccumulatorClash { field } => {
                let mut m = String::from_str("accumulator name collides with field ");
                m.append(field.as_str());
                m
            },
        }
    }
}

} // verus!
