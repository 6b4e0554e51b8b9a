//! A handle on a freshly fetched repository that still awaits its
//! working-tree checkout.

use vstd::prelude::*;

verus! {

/// A utility to collect configuration on how to perform a checkout into a
/// working tree; until the checkout finishes, the freshly fetched repository
/// is owned here and is dropped when this handle is dropped.
#[must_use]
pub struct PrepareCheckout {
    /// The directory of the freshly initialized repository while it is still
    /// owned by this handle, or `None` once it was handed to the user.
    pub repo: Option<Vec<u8>>,
}

} // verus!
