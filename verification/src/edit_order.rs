//! The outcome of editing an order.

use vstd::prelude::*;

verus! {

/// Why an edit was turned down.
#[derive(Debug)]
pub struct EditOrderError {
    pub edit_failure_reason: String,
    pub preview_failure_reason: String,
}

/// Whether an edit went through, and if not, why.
#[derive(Debug)]
pub struct EditOrder {
    pub success: bool,
    pub errors: Vec<EditOrderError>,
}

} // verus!
