//! Core of a modular plugin runtime: modules identified by a package name are
//! held in a registry that dispatches `invoke` requests to them and reports
//! each outcome through a one-shot callback.
//!
//! The types here model the values that cross the runtime's FFI and WASM
//! boundaries as plain data, so that the dispatch, marshalling and lifecycle
//! rules can be stated and checked. The unverified shells (dynamic-library
//! loading, WASM instantiation, worker threads) live outside this crate and
//! drive these types.

pub mod abi;
pub mod callback;
pub mod errors;
pub mod ffi;
pub mod module;
pub mod registry;
pub mod state;
pub mod wasm;
