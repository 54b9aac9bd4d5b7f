use vstd::prelude::*;

pub mod message;
pub mod session;
pub mod laws;
pub mod registry;

verus! {

} // verus!
