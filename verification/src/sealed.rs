//! Keeps the marker traits of this crate closed to other crates.

use vstd::prelude::*;

verus! {

pub trait Sealed {

}

} // verus!
