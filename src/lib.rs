//! Load testing for OCI distribution registries: synthetic image generation,
//! registry target parsing, and classification of concurrent task outcomes.
pub mod text;
pub mod target;
pub mod artifact;
pub mod image;
pub mod tester;
pub mod index;
