//! Attribute value shapes.
//!
//! Commands are declared with annotations that can carry values in a
//! handful of syntactic shapes. The shapes themselves are plain data;
//! classifying and rendering them needs no help from the annotation
//! parser.

use vstd::prelude::*;

verus! {

/// The ways a value can be associated with an annotation name.
#[derive(Clone, Copy, Debug, PartialEq, Eq, Structural)]
pub enum ValueKind {
    /// A bare name with no associated value: `#[<name>]`.
    Name,
    /// A name with a single value after an equals sign:
    /// `#[<name> = <value>]`.
    Equals,
    /// A name with a parenthesised list of values:
    /// `#[<name>([<value>, <value>, ...])]`.
    List,
    /// A name with a single value formatted as a list:
    /// `#[<name>(<value>)]`.
    SingleList,
}

impl ValueKind {
    /// A human-readable rendering of the shape.
    pub fn description(&self) -> (s: &'static str)
        ensures
            s@ == match *self {
                ValueKind::Name => "`#[<name>]`"@,
                ValueKind::Equals => "`#[<name> = <value>]`"@,
                ValueKind::List => "`#[<name>([<value>, <value>, <value>, ...])]`"@,
                ValueKind::SingleList => "`#[<name>(<value>)]`"@,
            },
    {
        match self {
            ValueKind::Name => "`#[<name>]`",
            ValueKind::Equals => "`#[<name> = <value>]`",
            ValueKind::List => "`#[<name>([<value>, <value>, <value>, ...])]`",
            ValueKind::SingleList => "`#[<name>(<value>)]`",
        }
    }
}

} // verus!
