use vstd::prelude::*;

verus! {

pub mod identity;
pub mod sampler;
pub mod context;
pub mod stack;
pub mod record;
pub mod export;
pub mod span;

} // verus!
