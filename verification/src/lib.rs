//! A minimal pseudo-relational data-access layer.
//!
//! Flat delimited text is parsed into attribute-keyed records, searched by
//! single-attribute equality, and converted into typed domain entities whose
//! foreign-key fields are resolved by opening further record stores.

pub use crate::consumer::Consumer;

pub mod consumer;
pub mod db;
pub mod errors;
pub mod product;
pub mod provider;
pub mod record;
pub mod request;
pub mod service;
pub mod store;
pub mod subscriber;
pub mod text;
