use systemd_manager_tui::terminal::event::{
    KeyCode, KeyEvent, KeyEventKind, KeyModifiers, ALT, CONTROL, SHIFT,
};

#[test]
fn press_has_no_modifiers() {
    let key = KeyEvent::press(KeyCode::Enter);
    assert_eq!(key.code, KeyCode::Enter);
    assert_eq!(key.modifiers, KeyModifiers::none());
    assert_eq!(key.modifiers.bits, 0);
    assert_eq!(key.kind, KeyEventKind::Press);
}

#[test]
fn new_is_a_press_with_modifiers() {
    let key = KeyEvent::new(KeyCode::Char('c'), KeyModifiers::control());
    assert_eq!(key.code, KeyCode::Char('c'));
    assert_eq!(key.modifiers.bits, CONTROL);
    assert_eq!(key.kind, KeyEventKind::Press);
}

#[test]
fn interrupt_is_control_c_in_either_case() {
    assert!(KeyEvent::new(KeyCode::Char('c'), KeyModifiers::control()).interrupts());
    assert!(KeyEvent::new(KeyCode::Char('C'), KeyModifiers::control()).interrupts());
    assert!(!KeyEvent::new(KeyCode::Char('d'), KeyModifiers::control()).interrupts());
    assert!(!KeyEvent::press(KeyCode::Char('c')).interrupts());
    assert!(!KeyEvent::new(KeyCode::Enter, KeyModifiers::control()).interrupts());
}

#[test]
fn interrupt_needs_control_alone() {
    let with_shift = KeyModifiers { bits: CONTROL | SHIFT };
    let with_alt = KeyModifiers { bits: CONTROL | ALT };
    assert!(!KeyEvent::new(KeyCode::Char('C'), with_shift).interrupts());
    assert!(!KeyEvent::new(KeyCode::Char('c'), with_alt).interrupts());
    assert!(!KeyEvent::new(KeyCode::Char('c'), KeyModifiers { bits: SHIFT }).interrupts());
}

#[test]
fn only_presses_are_forwarded() {
    let press = KeyEvent::press(KeyCode::Char('a'));
    assert!(press.should_forward());
    let release = KeyEvent { kind: KeyEventKind::Release, ..press };
    assert!(!release.should_forward());
    let repeat = KeyEvent { kind: KeyEventKind::Repeat, ..press };
    assert!(!repeat.should_forward());
}
