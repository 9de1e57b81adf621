//! An owner-gated catalog of commodity listings and a client-writable order
//! ledger, kept in `ink_storage` collections and driven by an explicit caller
//! identity.
pub mod account;
pub mod storage;
pub mod model;
pub mod store;
pub mod laws;
