use vstd::prelude::*;

use crate::error::Error;

verus! {

/// A set of settings that turns into the thing it configures.
pub trait Builder: Sized {
    type TargetItem;

    fn new() -> Self;

    fn build(self) -> Result<Self::TargetItem, Error>;
}

} // verus!
