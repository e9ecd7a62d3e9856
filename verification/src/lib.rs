//! Core of a model-comparison gateway: it takes the outcome of querying two
//! image-classification backends, normalizes each into a `ModelResult`, and
//! computes a head-to-head `Comparison` of their ranked predictions, together
//! with a runtime-updatable configuration of the two backend URLs.

pub mod comparison;
pub mod config;
pub mod model;
pub mod response;
pub mod text;
