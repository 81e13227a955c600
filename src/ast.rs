//! The schema tree built from an operation's query parameters.
use vstd::prelude::*;

verus! {

/// A constraint, tagged by the kind of value it applies to.
#[derive(Clone, Copy, Debug, PartialEq, Eq, Structural)]
pub enum Validation {
    Min(i64),
    Max(i64),
    MinLength(usize),
    MaxLength(usize),
    MinItems(usize),
    MaxItems(usize),
}

/// The type of a parameter or of an array's items.
#[derive(Debug, PartialEq)]
pub enum Type {
    Integer,
    String,
    Boolean,
    /// An array, with the schema of its items when one is known.
    Array(Option<Box<Item>>),
}

/// The schema of an array's items: a type and its own constraints.
#[derive(Debug, PartialEq)]
pub struct Item {
    pub ty: Type,
    pub validates: Vec<Validation>,
}

/// One query parameter.
#[derive(Debug, PartialEq)]
pub struct Schema {
    pub name: String,
    pub required: bool,
    pub ty: Type,
    pub validates: Vec<Validation>,
}

/// The query parameters of one operation, under its operation id.
#[derive(Debug, PartialEq)]
pub struct RootSchema {
    pub name: Option<String>,
    pub parameters: Vec<Schema>,
}

/// Copies a list of constraints.
pub fn copy_validations(v: &Vec<Validation>) -> (r: Vec<Validation>)
    ensures
        r@ == v@,
{
    let mut r: Vec<Validation> = Vec::new();
    let mut i: usize = 0;
    while i < v.len()
        invariant
            i <= v@.len(),
            r@ == v@.subrange(0, i as int),
        decreases v@.len() - i,
    {
        r.push(v[i]);
        i = i + 1;
        assert(r@ =~= v@.subrange(0, i as int));
    }
    assert(r@ =~= v@);
    r
}

} // verus!
