//! An append-only product ledger: one record that is created empty, grows by
//! one entry per recorded arrival, and can be read back in full.
//!
//! The entry and ledger types live in [`store`], the mathematical model of the
//! three operations in [`model`], the operations themselves in
//! [`instructions`], and the properties that tie them together in [`laws`].

pub mod store;
pub mod model;
pub mod instructions;
pub mod laws;

pub use store::{
    CheckStore, EntryView, ErrorCode, Initialize, RecordIncoming, Store, StoreAccount,
};
pub use instructions::{check_store, initialize, record_incoming};
