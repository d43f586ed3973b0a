//! Core rules of an HTTP service that manages organizations: page
//! arithmetic for listings, the translation of persistence failures into
//! client-facing errors, the repository contract, and the shape of replies.

pub mod error;
pub mod handlers;
pub mod memory;
pub mod model;
pub mod pagination;
pub mod repository;
pub mod response;
