//! Billing logic for the Parakram backend: the plan catalog, Stripe request
//! shapes, webhook signature verification, and the decision steps of the
//! checkout, portal and webhook flows.

pub mod api;
pub mod plans;
pub mod primitives;
pub mod stripe;
pub mod text;
pub mod webhook;
