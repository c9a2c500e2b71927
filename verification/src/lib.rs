//! Core of a small multi-tenant commerce backend: products and payment
//! methods are looked up on behalf of one owning user, and sales are
//! re-priced from the stored product data, aggregated, classified and
//! persisted as one atomic record.
//!
//! All money amounts are integers in the currency's minor unit, so the
//! arithmetic is exact.

pub mod auth;
pub mod engine;
pub mod errors;
pub mod ids;
pub mod money;
pub mod payment_method;
pub mod product;
pub mod repository;
pub mod sale;
pub mod text;
pub mod time;
pub mod user;
