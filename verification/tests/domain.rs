use systemd_manager_tui::domain::service::{ExtendedProperties, Service};
use systemd_manager_tui::domain::service_property::{
    clone_commands, clone_texts, ExecCommand, ServiceProperty,
};
use systemd_manager_tui::domain::service_repository::{FetchKind, Operation};
use systemd_manager_tui::domain::service_state::ServiceState;
use systemd_manager_tui::error::AppError;

fn state() -> ServiceState {
    ServiceState::new(
        "loaded".to_string(),
        "active".to_string(),
        "running".to_string(),
        "enabled".to_string(),
    )
}

fn command() -> ExecCommand {
    ExecCommand {
        path: "/usr/sbin/sshd".to_string(),
        argv: vec!["/usr/sbin/sshd".to_string(), "-D".to_string()],
        ignore_errors: false,
        start_time: 11,
        stop_time: 12,
        pid: 4242,
        code: 1,
        status: 0,
    }
}

fn property() -> ServiceProperty {
    ServiceProperty::new(
        vec![command()],
        Vec::new(),
        Vec::new(),
        Vec::new(),
        Vec::new(),
        4242,
        100,
        0,
        1,
        0,
        4242,
        0,
        "on-failure".to_string(),
        100_000,
        "listening".to_string(),
        "success".to_string(),
        "root".to_string(),
        "wheel".to_string(),
        u64::MAX,
        1024,
        4096,
        65536,
        u64::MAX,
        1024,
    )
}

#[test]
fn service_state_keeps_its_four_parts() {
    let state = state();
    assert_eq!(state.load(), "loaded");
    assert_eq!(state.active(), "active");
    assert_eq!(state.sub(), "running");
    assert_eq!(state.file(), "enabled");
    assert_eq!(state.clone(), state);
}

#[test]
fn new_service_has_no_properties_yet() {
    let service = Service::new("sshd.service".to_string(), "OpenSSH".to_string(), state());
    assert_eq!(service.name(), "sshd.service");
    assert_eq!(service.description(), "OpenSSH");
    assert_eq!(service.state(), &state());
    assert_eq!(service.properties(), &ExtendedProperties::NotFetched);
    assert!(service.is_named(&"sshd.service".to_string()));
    assert!(!service.is_named(&"sshd".to_string()));
}

#[test]
fn update_properties_records_the_bundle() {
    let mut service = Service::new("sshd.service".to_string(), "OpenSSH".to_string(), state());
    service.update_properties(property());
    assert_eq!(service.properties(), &ExtendedProperties::Fetched(property()));
    assert_eq!(service.name(), "sshd.service");
    assert_eq!(service.state(), &state());
}

#[test]
fn fail_properties_records_the_reason() {
    let mut service = Service::new("sshd.service".to_string(), "OpenSSH".to_string(), state());
    service.fail_properties("no such unit".to_string());
    assert_eq!(
        service.properties(),
        &ExtendedProperties::FetchFailed("no such unit".to_string())
    );
    service.update_properties(property());
    assert_eq!(service.properties(), &ExtendedProperties::Fetched(property()));
}

#[test]
fn service_clone_is_equal() {
    let mut service = Service::new("sshd.service".to_string(), "OpenSSH".to_string(), state());
    assert_eq!(service.clone(), service);
    service.update_properties(property());
    assert_eq!(service.clone(), service);
    service.fail_properties("gone".to_string());
    assert_eq!(service.clone(), service);
}

#[test]
fn service_property_new_fills_each_field() {
    let property = property();
    assert_eq!(property.exec_start, vec![command()]);
    assert!(property.exec_start_pre.is_empty());
    assert!(property.exec_start_post.is_empty());
    assert!(property.exec_stop.is_empty());
    assert!(property.exec_stop_post.is_empty());
    assert_eq!(property.exec_main_pid, 4242);
    assert_eq!(property.exec_main_start_timestamp, 100);
    assert_eq!(property.exec_main_exit_timestamp, 0);
    assert_eq!(property.exec_main_code, 1);
    assert_eq!(property.exec_main_status, 0);
    assert_eq!(property.main_pid, 4242);
    assert_eq!(property.control_pid, 0);
    assert_eq!(property.restart, "on-failure");
    assert_eq!(property.restart_usec, 100_000);
    assert_eq!(property.status_text, "listening");
    assert_eq!(property.result, "success");
    assert_eq!(property.user, "root");
    assert_eq!(property.group, "wheel");
    assert_eq!(property.limit_cpu, u64::MAX);
    assert_eq!(property.limit_nofile, 1024);
    assert_eq!(property.limit_nproc, 4096);
    assert_eq!(property.limit_memlock, 65536);
    assert_eq!(property.memory_limit, u64::MAX);
    assert_eq!(property.cpu_shares, 1024);
    assert_eq!(property.clone(), property);
}

#[test]
fn clone_helpers_copy_every_element() {
    let texts = vec!["a".to_string(), String::new(), "\u{e9}".to_string()];
    assert_eq!(clone_texts(&texts), texts);
    let commands = vec![command(), command()];
    assert_eq!(clone_commands(&commands), commands);
    assert_eq!(clone_commands(&Vec::new()), Vec::<ExecCommand>::new());
}

#[test]
fn operation_words() {
    assert_eq!(Operation::Start.as_str(), "start");
    assert_eq!(Operation::Stop.as_str(), "stop");
    assert_eq!(Operation::Restart.as_str(), "restart");
    assert_eq!(Operation::Enable.as_str(), "enable");
    assert_eq!(Operation::Disable.as_str(), "disable");
    assert_eq!(FetchKind::UnitFile.as_str(), "unit file");
    assert_eq!(FetchKind::Logs.as_str(), "logs");
}

#[test]
fn error_messages() {
    let unavailable = AppError::BackendUnavailable { reason: "no bus".to_string() };
    assert_eq!(unavailable.message(), "service manager unavailable: no bus");
    assert!(!unavailable.is_fatal());
    let refused = AppError::OperationFailed {
        service: "sshd.service".to_string(),
        operation: Operation::Restart,
        reason: "access denied".to_string(),
    };
    assert_eq!(refused.message(), "could not restart sshd.service: access denied");
    assert!(!refused.is_fatal());
    let fetch = AppError::FetchFailed {
        service: "sshd.service".to_string(),
        kind: FetchKind::Logs,
        reason: "journal missing".to_string(),
    };
    assert_eq!(fetch.message(), "could not fetch the logs of sshd.service: journal missing");
    assert!(!fetch.is_fatal());
    let unit = AppError::FetchFailed {
        service: "a.service".to_string(),
        kind: FetchKind::UnitFile,
        reason: "x".to_string(),
    };
    assert_eq!(unit.message(), "could not fetch the unit file of a.service: x");
    assert_eq!(AppError::ChannelClosed.message(), "input channel closed");
    assert!(AppError::ChannelClosed.is_fatal());
}
