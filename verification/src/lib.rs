//! Provisioning core of a Grid daemon that runs on a Splinter circuit.
//!
//! The crate computes everything the daemon decides: Sabre state addresses,
//! the transactions and the batch that install the Pike and Product smart
//! contracts, the scope of the submission, which administrative events lead
//! to provisioning, and how the event listener reacts to connection failures.
//! Reading files, talking to the network, encoding protocol messages and
//! signing are left to the caller, who hands their results in as plain values.

pub mod address;
pub mod batch;
pub mod consistency;
pub mod error;
pub mod event;
pub mod hash;
pub mod hex;
pub mod key;
pub mod listener;
pub mod node;
pub mod nonce;
pub mod setup;
pub mod submit;
pub mod text;
pub mod transaction;
