//! A library for browsing and managing Docker containers, volumes, images and
//! Compose stacks from a terminal: the domain rules, the data shaping between
//! the Docker engine and the screens, and the screen state.
pub mod text;
pub mod domain;
pub mod failure;
pub mod application;
pub mod presentation;
pub mod infrastructure;
