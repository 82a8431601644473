//! Keyboard events, the view components and the controller.
pub mod event;
pub mod components;
pub mod app;
