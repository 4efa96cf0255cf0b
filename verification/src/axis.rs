//! Names for the three coordinate axes.

use vstd::prelude::*;

verus! {

/// One of the three coordinate axes.
#[derive(Clone, Copy, PartialEq, Eq, Structural, Debug)]
pub enum Axis3 {
    X,
    Y,
    Z,
}

} // verus!
