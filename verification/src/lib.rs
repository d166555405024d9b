//! Ownership and delegation tracking for product records.
//!
//! A [`store::ProductFactory`] holds an append-only sequence of
//! [`record::Product`] records, each addressed by the identifier it was
//! assigned at creation. The current owner of a record may delegate transfer
//! rights to another principal, who must accept explicitly to become the new
//! owner.

pub mod record;
pub mod store;

pub use record::AccountId;
pub use record::Product;
pub use record::State;
pub use store::Error;
pub use store::ProductFactory;
