//! Services as the service manager reports them, and the requests made of it.
pub mod service;
pub mod service_property;
pub mod service_state;
pub mod service_repository;
