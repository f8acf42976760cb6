//! Plain data carriers shared by the renderer and its configuration.

use vstd::prelude::*;

verus! {

/// A width-height pair.
#[derive(Clone, Copy, Debug, PartialEq, Eq)]
pub struct Size<T> {
    pub width: T,
    pub height: T,
}

} // verus!
