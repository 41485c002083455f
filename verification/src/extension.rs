//! The registry of the plain make: tokens without an extension, every
//! operation by the registry's own rule.

use vstd::prelude::*;
use crate::traits::{Cw721Execute, Cw721Query};

verus! {

/// The registry that keeps the empty payload with its tokens and takes every
/// operation as the two interfaces give it.
#[derive(Clone, Copy, Debug, PartialEq, Eq)]
pub struct Cw721BaseExtensions {}

impl Default for Cw721BaseExtensions {
    fn default() -> (r: Self)
        ensures
            r == (Cw721BaseExtensions {  }),
    {
        Cw721BaseExtensions {  }
    }
}

impl Cw721Execute for Cw721BaseExtensions {

}

impl Cw721Query for Cw721BaseExtensions {

}

} // verus!
