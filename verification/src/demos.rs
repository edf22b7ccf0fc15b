//! A small demonstration type: a number that is copied, not moved.

use vstd::prelude::*;

verus! {

/// A number that is `Copy`, so it can be passed by value more than once.
#[derive(Debug, Clone, Copy)]
pub struct MyNr {
    pub nr: i32,
}

} // verus!
