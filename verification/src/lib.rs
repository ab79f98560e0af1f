//! A minimal ledger state machine: pluggable state components ("pallets")
//! composed into a runtime that applies blocks of extrinsics in order.

pub mod numeric;
pub mod pallets;
pub mod runtime;
pub mod storage;
pub mod support;
pub mod system;
pub mod types;
