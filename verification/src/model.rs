//! The ledger as mathematics: a sequence of entry views and three functions
//! on it, one per operation. The contracts of the operations are stated over
//! these.

use vstd::prelude::*;
use crate::store::{EntryView, ErrorCode};

verus! {

/// The contents of a ledger that has just been created: nothing.
pub open spec fn created() -> Seq<EntryView> {
    Seq::empty()
}

/// The contents after one more arrival: what was there, then the new entry.
pub open spec fn appended(products: Seq<EntryView>, entry: EntryView) -> Seq<EntryView> {
    products.push(entry)
}

/// The contents after recording `entries` one at a time, first to last.
pub open spec fn appended_all(products: Seq<EntryView>, entries: Seq<EntryView>) -> Seq<EntryView>
    decreases entries.len(),
{
    if entries.len() == 0 {
        products
    } else {
        appended_all(appended(products, entries.first()), entries.drop_first())
    }
}

/// What reading a ledger yields: all of it, unless there is nothing to yield.
pub open spec fn listed(products: Seq<EntryView>) -> Result<Seq<EntryView>, ErrorCode> {
    if products.len() == 0 {
        Err(ErrorCode::NoProducts)
    } else {
        Ok(products)
    }
}

} // verus!
