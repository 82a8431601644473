//! The core of a terminal dashboard for the services of a host service manager.
//!
//! The crate holds the state and the rules of the dashboard: the text editor of
//! the filter line, the filtered list with its selection, the scrollable details
//! view and the controller that routes events between them. It performs no I/O.
//! A front end reads the keyboard, talks to the service manager and paints the
//! screen; it hands every event and every backend outcome to the controller and
//! carries out the requests the controller returns.
pub mod domain;
pub mod error;
pub mod infrastructure;
pub mod terminal;
pub mod text;
