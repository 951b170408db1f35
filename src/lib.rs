//! Validation rules of a community food-ordering network built on per-agent
//! hash chains.
//!
//! Whether an agent may act (join a household, run an order round, invoice
//! a producer) is decided locally and after the fact, by replaying the
//! agent's own chain up to the action in question and looking for a live
//! membership or role claim ([`claims`], [`membership`]). The rules of each
//! zome ([`households`], [`orders`], [`producers`]) build on that replay, and
//! one entry point per zome routes each operation to its rule ([`dispatch`],
//! [`orders_dispatch`], [`producers_dispatch`]). The rules read only the
//! history handed to them ([`known`]); where something is missing they say
//! what to fetch. [`laws`] states and proves the protocol's guarantees.
use vstd::prelude::*;

pub mod action;
pub mod claims;
pub mod dispatch;
pub mod entries;
pub mod hash;
pub mod households;
pub mod known;
pub mod laws;
pub mod lifecycle;
pub mod membership;
pub mod orders;
pub mod orders_dispatch;
pub mod producers;
pub mod producers_dispatch;
pub mod revisions;
