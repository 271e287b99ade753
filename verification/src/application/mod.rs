//! Use-case level data: the transfer objects handed to the screens, the
//! mappers that build them from domain entities, and the application error.
pub mod container_dto;
pub mod container_mapper;
pub mod error;
pub mod image_dto;
pub mod image_mapper;
pub mod prune;
pub mod stack_dto;
pub mod volume_dto;
