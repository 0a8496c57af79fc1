use vstd::prelude::*;

pub mod config;
pub mod listener;
pub mod relay;

verus! {

} // verus!
