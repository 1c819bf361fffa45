//! Core of a small account-management HTTP API: stateless token
//! authentication, a bounded pool of permits for CPU-heavy hashing work,
//! and translation of typed domain failures into a stable JSON contract.

pub mod auth;
pub mod dispatch;
pub mod error;
pub mod handlers;
pub mod msg;
pub mod token;
pub mod user;
