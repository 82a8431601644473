//! The views of the dashboard: the filter line, the service list and the details pane.
pub mod filter;
pub mod list;
pub mod details;
