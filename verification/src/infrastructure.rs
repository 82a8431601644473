//! The rules of the adapter to the service manager, without its calls.
pub mod systemd_service_adapter;
