//! Shaping what the Docker engine reports into domain values, and the
//! error type of the engine adapters.
pub mod clock;
pub mod container_mapper;
pub mod engine_support;
pub mod error;
pub mod records;
pub mod stack_mapper;
pub mod stack_support;
pub mod volume_links;
