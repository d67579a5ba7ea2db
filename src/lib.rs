use vstd::prelude::*;

pub mod config;
pub mod filename;
pub mod finding;
pub mod hash;
pub mod levenshtein;
pub mod output;
pub mod pipeline;
pub mod scanner;

verus! {

} // verus!
