//! Reliable submission pipeline for tax-relevant business documents.
//!
//! The library models the durable record store of a compliance middleware:
//! per-tenant invoice sequencing, the record lifecycle state machine, the
//! immediate-send-then-retry delivery protocol with exponential backoff, and
//! the field-level crypto codec used to store lookup keys at rest.

pub mod accounts;
pub mod codec;
pub mod delivery;
pub mod payloads;
pub mod provisioning;
pub mod record;
pub mod retry;
pub mod status;
pub mod store;
