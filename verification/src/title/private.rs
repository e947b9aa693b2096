//! Keeps the set of title positions closed.

use vstd::prelude::*;
use crate::title::{Above, After, Before, Below, Bottom, Left, Right, Top};

verus! {

/// Implemented by the eight title positions and by nothing else.
pub trait Sealed {
}

impl Sealed for Top {
}

impl Sealed for Bottom {
}

impl Sealed for Above {
}

impl Sealed for Below {
}

impl Sealed for Left {
}

impl Sealed for Right {
}

impl Sealed for Before {
}

impl Sealed for After {
}

} // verus!
