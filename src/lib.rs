use vstd::prelude::*;

pub mod collections;
pub mod specification;
pub mod reader;
pub mod parser;
pub mod types;

verus! {

} // verus!
