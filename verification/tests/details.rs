use systemd_manager_tui::domain::service::Service;
use systemd_manager_tui::domain::service_repository::{FetchKind, Request};
use systemd_manager_tui::domain::service_state::ServiceState;
use systemd_manager_tui::terminal::components::details::{
    DetailsIntent, ServiceDetails, MAX_SCROLL, PAGE_LINES,
};
use systemd_manager_tui::terminal::event::{Direction, KeyCode, KeyEvent};

fn sshd() -> Service {
    let state = ServiceState::new(
        "loaded".to_string(),
        "active".to_string(),
        "running".to_string(),
        "enabled".to_string(),
    );
    Service::new("sshd.service".to_string(), "OpenSSH server daemon".to_string(), state)
}

fn shown() -> ServiceDetails {
    let mut details = ServiceDetails::new();
    details.show(sshd(), "line 1\nline 2\n".to_string());
    details
}

#[test]
fn new_details_show_nothing() {
    let details = ServiceDetails::new();
    assert!(details.service().is_none());
    assert_eq!(details.content(), "");
    assert_eq!(details.scroll_offset(), 0);
    assert_eq!(details.title(), None);
    assert_eq!(details.fetch_unit_file(), None);
}

#[test]
fn show_sets_service_and_content_and_resets_scroll() {
    let mut details = shown();
    details.scroll_down(7);
    assert_eq!(details.scroll_offset(), 7);
    details.show(sshd(), "other".to_string());
    assert_eq!(details.service().map(|service| service.name()), Some("sshd.service"));
    assert_eq!(details.content(), "other");
    assert_eq!(details.scroll_offset(), 0);
}

#[test]
fn title_frames_the_service_name() {
    assert_eq!(shown().title().as_deref(), Some(" sshd.service properties "));
}

#[test]
fn update_changes_only_the_service() {
    let mut details = shown();
    details.scroll_down(3);
    let state = ServiceState::new(String::new(), String::new(), String::new(), String::new());
    details.update(Service::new("cron.service".to_string(), String::new(), state));
    assert_eq!(details.service().map(|service| service.name()), Some("cron.service"));
    assert_eq!(details.content(), "line 1\nline 2\n");
    assert_eq!(details.scroll_offset(), 3);
}

#[test]
fn set_content_changes_only_the_text() {
    let mut details = shown();
    details.scroll_down(3);
    details.set_content("[Unit]\n".to_string());
    assert_eq!(details.service().map(|service| service.name()), Some("sshd.service"));
    assert_eq!(details.content(), "[Unit]\n");
    assert_eq!(details.scroll_offset(), 3);
}

#[test]
fn fetch_unit_file_names_the_shown_service() {
    assert_eq!(
        shown().fetch_unit_file(),
        Some(Request::Fetch { kind: FetchKind::UnitFile, service: "sshd.service".to_string() })
    );
}

#[test]
fn scroll_saturates_at_zero() {
    let mut details = shown();
    details.scroll_up(1);
    assert_eq!(details.scroll_offset(), 0);
    details.scroll_down(4);
    details.scroll_up(10);
    assert_eq!(details.scroll_offset(), 0);
}

#[test]
fn scroll_saturates_at_the_largest_offset() {
    assert_eq!(MAX_SCROLL, u16::MAX);
    let mut details = shown();
    details.scroll_down(MAX_SCROLL - 3);
    details.scroll_down(10);
    assert_eq!(details.scroll_offset(), MAX_SCROLL);
    details.scroll_down(1);
    assert_eq!(details.scroll_offset(), MAX_SCROLL);
}

#[test]
fn scroll_keys_move_by_one_and_by_page() {
    assert_eq!(PAGE_LINES, 10);
    let mut details = shown();
    assert_eq!(details.on_key_event(KeyEvent::press(KeyCode::Down)), DetailsIntent::Stay);
    assert_eq!(details.scroll_offset(), 1);
    assert_eq!(details.on_key_event(KeyEvent::press(KeyCode::PageDown)), DetailsIntent::Stay);
    assert_eq!(details.scroll_offset(), 11);
    assert_eq!(details.on_key_event(KeyEvent::press(KeyCode::Up)), DetailsIntent::Stay);
    assert_eq!(details.scroll_offset(), 10);
    assert_eq!(details.on_key_event(KeyEvent::press(KeyCode::PageUp)), DetailsIntent::Stay);
    assert_eq!(details.scroll_offset(), 0);
    assert_eq!(details.on_key_event(KeyEvent::press(KeyCode::PageUp)), DetailsIntent::Stay);
    assert_eq!(details.scroll_offset(), 0);
    assert_eq!(details.content(), "line 1\nline 2\n");
}

#[test]
fn back_keys_reset_and_leave() {
    for code in [KeyCode::Left, KeyCode::Right, KeyCode::Char('q')] {
        let mut details = shown();
        details.scroll_down(5);
        assert_eq!(details.on_key_event(KeyEvent::press(code)), DetailsIntent::Leave);
        assert!(details.service().is_none());
        assert_eq!(details.content(), "");
        assert_eq!(details.scroll_offset(), 0);
    }
}

#[test]
fn other_keys_leave_details_as_they_are() {
    let mut details = shown();
    details.scroll_down(5);
    for code in [KeyCode::Char('x'), KeyCode::Char('Q'), KeyCode::Enter, KeyCode::Esc, KeyCode::Other] {
        assert_eq!(details.on_key_event(KeyEvent::press(code)), DetailsIntent::Stay);
    }
    assert_eq!(details.service().map(|service| service.name()), Some("sshd.service"));
    assert_eq!(details.scroll_offset(), 5);
}

#[test]
fn reset_clears_everything() {
    let mut details = shown();
    details.scroll_down(5);
    details.reset();
    assert!(details.service().is_none());
    assert_eq!(details.content(), "");
    assert_eq!(details.scroll_offset(), 0);
    assert_eq!(details.title(), None);
}

#[test]
fn scroll_moves_by_one_line_or_one_page() {
    let mut details = shown();
    details.scroll(Direction::PageDown);
    assert_eq!(details.scroll_offset(), 10);
    details.scroll(Direction::Down);
    assert_eq!(details.scroll_offset(), 11);
    details.scroll(Direction::Up);
    assert_eq!(details.scroll_offset(), 10);
    details.scroll(Direction::PageUp);
    assert_eq!(details.scroll_offset(), 0);
    details.scroll(Direction::Up);
    assert_eq!(details.scroll_offset(), 0);
    details.scroll(Direction::PageDown);
    details.scroll(Direction::PageUp);
    details.scroll(Direction::PageUp);
    assert_eq!(details.scroll_offset(), 0);
}
