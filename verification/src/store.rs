//! The boundary to the store: the one operation that a call hands over, and
//! the failure of an operation, classified where it comes back.

use vstd::prelude::*;
use crate::search::Query;

verus! {

/// The one operation that a call hands to the store.
#[derive(Debug, PartialEq, Eq)]
pub enum StoreCall<D, C, F> {
    /// Look the row with this key up.
    Fetch { id: String },
    /// Run this search.
    Search(Query<F>),
    /// Insert this row.
    Insert(D),
    /// Apply the changes to the row with this key.
    Update { id: String, changes: C },
    /// Delete the row with this key.
    Delete { id: String },
}

/// How a store operation failed: the row it was aimed at is absent, or
/// anything else (connectivity, constraint violation, serialization).
#[derive(Clone, Copy, Debug, PartialEq, Eq, Structural)]
pub enum StoreFault {
    NotFound,
    Other,
}

/// A failed store operation, classified at the store boundary.
#[derive(Debug, PartialEq, Eq)]
pub struct StoreError {
    pub fault: StoreFault,
    pub message: String,
}

/// The model of a [`StoreError`].
pub struct StoreErrorView {
    pub fault: StoreFault,
    pub message: Seq<char>,
}

impl View for StoreError {
    type V = StoreErrorView;

    open spec fn view(&self) -> StoreErrorView {
        StoreErrorView { fault: self.fault, message: self.message@ }
    }
}

/// What diesel prints for its `NotFound` error.
pub open spec fn missing_row_text() -> Seq<char> {
    "NotFound"@
}

/// Renders `diesel::result::Error::NotFound` with its `Display` impl.
/// Trusted: that impl writes the text `NotFound` for this variant.
#[verifier::external_body]
fn diesel_not_found_text() -> (text: String)
    ensures
        text@ == missing_row_text(),
{
    diesel::result::Error::NotFound.to_string()
}

impl StoreError {
    /// The failure of an operation whose target row is absent, worded as the
    /// store words it.
    pub fn not_found() -> (error: StoreError)
        ensures
            error@ == (StoreErrorView { fault: StoreFault::NotFound, message: missing_row_text() }),
    {
        StoreError { fault: StoreFault::NotFound, message: diesel_not_found_text() }
    }

    /// Any other failure, with the store's own words.
    pub fn other(message: String) -> (error: StoreError)
        ensures
            error@ == (StoreErrorView { fault: StoreFault::Other, message: message@ }),
    {
        StoreError { fault: StoreFault::Other, message }
    }
}

} // verus!
