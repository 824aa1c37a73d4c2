//! A minimal contract core that persists a single secret viewing key at
//! initialization, answers a configuration query with it, and forwards it to
//! an external token contract's set-viewing-key entry point.
//!
//! The crate is split along the lines of the design:
//! - `msg`: the request/response schema and the error taxonomy;
//! - `codec`: the deterministic wire encoding of every schema value;
//! - `state`: the persisted configuration record and its store;
//! - `snip20`: the call into the external token-contract toolkit;
//! - `contract`: the `init` / `handle` / `query` entry points.

pub mod codec;
pub mod contract;
pub mod msg;
pub mod snip20;
pub mod state;
