//! A trait that no other crate can implement: it closes the set of mode
//! tags and of physical pins.

use vstd::prelude::*;

verus! {

pub trait Sealed {}

} // verus!
