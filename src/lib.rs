//! A growable array whose capacity management is chosen by a state tag.
use vstd::prelude::*;

pub mod components;
pub mod laws;
mod raw;
mod sector;
pub mod states;

pub use raw::{array_fits, is_zst};
pub use sector::{Drain, IntoIter, Sector};

verus! {

} // verus!
