//! The data held by the ledger and the handles through which it is reached.

use vstd::prelude::*;

verus! {

/// One product arrival. No field is validated: any text and any integer,
/// empty or negative included, is stored exactly as given.
#[derive(Debug)]
pub struct Store {
    /// Product name. Names need not be unique.
    pub item: String,
    /// Product price, kept as text and never parsed.
    pub price: String,
    /// Quantity that arrived.
    pub quantity: i64,
    /// Caller-supplied timestamp of the arrival.
    pub entrydate: i64,
}

/// What a [`Store`] means in contracts: its two texts as character
/// sequences, its two integers unchanged.
pub struct EntryView {
    pub item: Seq<char>,
    pub price: Seq<char>,
    pub quantity: i64,
    pub entrydate: i64,
}

impl View for Store {
    type V = EntryView;

    open spec fn view(&self) -> EntryView {
        EntryView {
            item: self.item@,
            price: self.price@,
            quantity: self.quantity,
            entrydate: self.entrydate,
        }
    }
}

impl Clone for Store {
    /// A copy that agrees with the source in every field.
    fn clone(&self) -> (copy: Self)
        ensures
            copy == *self,
    {
        Store {
            item: self.item.clone(),
            price: self.price.clone(),
            quantity: self.quantity,
            entrydate: self.entrydate,
        }
    }
}

/// The views of a run of entries, in the same order.
pub open spec fn entries_view(entries: Seq<Store>) -> Seq<EntryView> {
    entries.map_values(|entry: Store| entry@)
}

/// The ledger: every recorded arrival, oldest first. Duplicates are allowed.
#[derive(Debug)]
pub struct StoreAccount {
    pub products: Vec<Store>,
}

impl View for StoreAccount {
    type V = Seq<EntryView>;

    open spec fn view(&self) -> Seq<EntryView> {
        entries_view(self.products@)
    }
}

/// The only failure the ledger itself reports.
#[derive(Debug, Clone, Copy, PartialEq, Eq, Structural)]
pub enum ErrorCode {
    /// The ledger was read while it held no entry.
    NoProducts,
}

/// Exclusive handle on the record that is about to become a ledger.
/// Allocating and paying for the record is the host's business.
#[derive(Debug)]
pub struct Initialize {
    pub store_account: StoreAccount,
}

/// Exclusive handle on an existing ledger, for recording one arrival.
#[derive(Debug)]
pub struct RecordIncoming {
    pub store_account: StoreAccount,
}

/// Handle on an existing ledger, for reading it.
#[derive(Debug)]
pub struct CheckStore {
    pub store_account: StoreAccount,
}

} // verus!
