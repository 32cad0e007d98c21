//! Properties of the ledger that hold across operations.

use vstd::prelude::*;
use crate::model::{appended, appended_all, created, listed};
use crate::instructions::{check_store, listing_view};
use crate::store::{CheckStore, EntryView, ErrorCode, Store};

verus! {

/// Reading a ledger that was created and never written to reports
/// `NoProducts`.
pub proof fn lemma_created_lists_nothing()
    ensures
        listed(created()) == Err::<Seq<EntryView>, ErrorCode>(ErrorCode::NoProducts),
{
}

/// Recording a run of entries puts exactly that run, in order, behind what
/// the ledger already held.
pub proof fn lemma_appended_all_is_concatenation(products: Seq<EntryView>, entries: Seq<EntryView>)
    ensures
        appended_all(products, entries) == products + entries,
    decreases entries.len(),
{
    if entries.len() == 0 {
        assert(products + entries =~= products);
    } else {
        lemma_appended_all_is_concatenation(appended(products, entries.first()), entries.drop_first());
        assert(appended(products, entries.first()) + entries.drop_first() =~= products + entries);
    }
}

/// After any one or more arrivals are recorded in a new ledger, reading it
/// returns exactly those entries, in the order they were recorded and with
/// every field as it was given.
pub proof fn lemma_append_then_list(entries: Seq<EntryView>)
    requires
        entries.len() >= 1,
    ensures
        listed(appended_all(created(), entries)) == Ok::<Seq<EntryView>, ErrorCode>(entries),
{
    lemma_appended_all_is_concatenation(created(), entries);
    assert(created() + entries =~= entries);
}

/// A ledger only grows: recording a run of entries lengthens it by the
/// length of the run, and every entry it held before stays at its position
/// with its value. In particular a new ledger holds as many entries as were
/// recorded.
pub proof fn lemma_monotonic_growth(products: Seq<EntryView>, entries: Seq<EntryView>)
    ensures
        appended_all(products, entries).len() == products.len() + entries.len(),
        appended_all(created(), entries).len() == entries.len(),
        forall|i: int| 0 <= i < products.len() ==> appended_all(products, entries)[i] == products[i],
        forall|i: int|
            0 <= i < entries.len() ==> appended_all(products, entries)[products.len() + i]
                == entries[i],
{
    lemma_appended_all_is_concatenation(products, entries);
    lemma_appended_all_is_concatenation(created(), entries);
}

/// Reading is repeatable: whatever two readings of one untouched ledger
/// return, they return the same thing.
pub proof fn lemma_reads_agree(
    ctx: CheckStore,
    first: Result<Vec<Store>, ErrorCode>,
    second: Result<Vec<Store>, ErrorCode>,
)
    requires
        call_ensures(check_store, (&ctx,), first),
        call_ensures(check_store, (&ctx,), second),
    ensures
        listing_view(first) == listing_view(second),
        listing_view(first) == listed(ctx.store_account@),
{
}

} // verus!
