//! The three operations on a ledger.

use vstd::prelude::*;
use crate::model::{appended, created, listed};
use crate::store::{
    entries_view, CheckStore, EntryView, ErrorCode, Initialize, RecordIncoming, Store,
};

verus! {

/// Turns the record behind `ctx` into an empty ledger. Always succeeds.
pub fn initialize(ctx: &mut Initialize) -> (result: Result<(), ErrorCode>)
    ensures
        result == Ok::<(), ErrorCode>(()),
        final(ctx).store_account@ == created(),
        final(ctx).store_account.products@ == Seq::<Store>::empty(),
{
    ctx.store_account.products = Vec::new();
    Ok(())
}

/// Records one arrival at the end of the ledger. Always succeeds, whatever
/// the four values are and whatever the ledger already holds; every earlier
/// entry stays where it was.
pub fn record_incoming(
    ctx: &mut RecordIncoming,
    item: String,
    price: String,
    quantity: i64,
    entrydate: i64,
) -> (result: Result<(), ErrorCode>)
    ensures
        result == Ok::<(), ErrorCode>(()),
        final(ctx).store_account.products@ == old(ctx).store_account.products@.push(
            (Store { item, price, quantity, entrydate }),
        ),
        final(ctx).store_account@ == appended(
            old(ctx).store_account@,
            (Store { item, price, quantity, entrydate })@,
        ),
{
    let store = Store { item, price, quantity, entrydate };
    ctx.store_account.products.push(store);
    proof {
        assert(ctx.store_account@ =~= appended(old(ctx).store_account@, store@));
    }
    Ok(())
}

/// What a reading means in contracts: the views of the entries it returned,
/// or the failure it reported.
pub open spec fn listing_view(result: Result<Vec<Store>, ErrorCode>) -> Result<
    Seq<EntryView>,
    ErrorCode,
> {
    match result {
        Ok(products) => Ok(entries_view(products@)),
        Err(code) => Err(code),
    }
}

/// Reads the whole ledger: a copy of every entry, oldest first, or
/// `NoProducts` exactly when there is none. The ledger is left untouched.
pub fn check_store(ctx: &CheckStore) -> (result: Result<Vec<Store>, ErrorCode>)
    ensures
        result is Err <==> ctx.store_account@.len() == 0,
        result matches Err(code) ==> code == ErrorCode::NoProducts,
        result matches Ok(products) ==> products@ == ctx.store_account.products@,
        listing_view(result) == listed(ctx.store_account@),
{
    if ctx.store_account.products.is_empty() {
        return Err(ErrorCode::NoProducts);
    }
    let products = ctx.store_account.products.clone();
    proof {
        assert(products@ =~= ctx.store_account.products@);
    }
    Ok(products)
}

} // verus!
