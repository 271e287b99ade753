//! Business concepts: containers, images, volumes, Compose stacks, and the
//! rules about which operations each state allows.
pub mod byte_size;
pub mod container;
pub mod error;
pub mod image;
pub mod stack;
pub mod volume;
