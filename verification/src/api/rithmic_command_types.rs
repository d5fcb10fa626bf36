//! Parameters of the order plant's commands.

use vstd::prelude::*;

verus! {

/// The order to cancel, by its id.
#[derive(Debug, Clone)]
pub struct RithmicCancelOrder {
    pub id: String,
}

} // verus!
