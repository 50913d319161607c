//! Typed call descriptors and event demultiplexing for clients of ink! smart contracts.
//!
//! The descriptors carry a pre-encoded call payload to a transport; the event collection
//! routes the raw events of one transaction back to the contract that emitted them.

mod calls;
mod errors;
mod events;
mod primitives;

pub use calls::{lemma_instantiate_with_salt, ExecCall, InstantiateCall, ReadCall};
pub use errors::InkLangError;
pub use events::{emitted_by, lemma_emitted_by, ContractEvent, ContractEvents, EventSource};
