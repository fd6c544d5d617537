use vstd::prelude::*;

pub mod player;
pub mod store;
pub mod service;
pub mod laws;

verus! {

} // verus!
