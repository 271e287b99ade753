//! Screen state and screen text: filters, table selections, presenters,
//! key bindings, titles and messages, and the decisions of the main loop.
pub mod app;
pub mod app_laws;
pub mod container_presenter;
pub mod exec;
pub mod filter;
pub mod image_presenter;
pub mod keys;
pub mod resources;
pub mod selection;
pub mod stack_presenter;
pub mod volume_presenter;
pub mod widgets;
