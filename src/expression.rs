use vstd::prelude::*;

use crate::function::Function;

verus! {

/// A node of a query tree, as far as the function catalog needs to see one.
#[derive(Debug, PartialEq)]
pub enum Expression {
    /// A reference to a column, by name.
    Column(String),
    /// A placeholder for one value bound at execution time.
    Parameter,
    /// Fixed SQL text written by the query builder.
    Raw(String),
    /// A function call.
    Function(Box<Function>),
}

} // verus!
