//! Data-access and normalization core for an environmental sensor reading
//! service: sanitizing numeric samples, deriving descriptive tags, building
//! parameterized retrieval statements, and preparing rows for storage.

pub mod fbits;
pub mod query;
pub mod reading;
pub mod repo;
pub mod sanitize;
pub mod tags;
pub mod time;
pub mod zone;
