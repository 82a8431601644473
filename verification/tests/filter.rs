use systemd_manager_tui::terminal::components::filter::{
    EditOp, Filter, FilterSignal, HelpSegment, InputMode,
};
use systemd_manager_tui::terminal::event::{KeyCode, KeyEvent, KeyEventKind, KeyModifiers};

fn editing(text: &str) -> Filter {
    let mut filter = Filter::new();
    filter.enter_edit_mode();
    for c in text.chars() {
        filter.enter_char(c);
    }
    filter
}

fn check_cursor(filter: &Filter) {
    assert!(filter.cursor() <= filter.input().chars().count());
}

#[test]
fn new_filter_is_empty_and_normal() {
    let filter = Filter::new();
    assert_eq!(filter.input(), "");
    assert_eq!(filter.cursor(), 0);
    assert_eq!(filter.input_mode(), InputMode::Normal);
}

#[test]
fn enter_char_appends_and_advances() {
    let filter = editing("ssh");
    assert_eq!(filter.input(), "ssh");
    assert_eq!(filter.cursor(), 3);
}

#[test]
fn enter_char_inserts_at_cursor() {
    let mut filter = editing("sh");
    filter.move_cursor_left();
    filter.enter_char('s');
    assert_eq!(filter.input(), "ssh");
    assert_eq!(filter.cursor(), 2);
}

#[test]
fn enter_char_between_multibyte_characters() {
    let mut filter = editing("a\u{e9}\u{4e16}b");
    assert_eq!(filter.cursor(), 4);
    filter.move_cursor_left();
    filter.move_cursor_left();
    assert_eq!(filter.cursor(), 2);
    assert_eq!(filter.byte_index(), 3);
    filter.enter_char('\u{1f600}');
    assert_eq!(filter.input(), "a\u{e9}\u{1f600}\u{4e16}b");
    assert_eq!(filter.cursor(), 3);
    assert_eq!(filter.byte_index(), 7);
}

#[test]
fn enter_char_in_normal_mode_does_nothing() {
    let mut filter = Filter::new();
    filter.enter_char('x');
    assert_eq!(filter.input(), "");
    assert_eq!(filter.cursor(), 0);
}

#[test]
fn byte_index_counts_bytes_not_characters() {
    let mut filter = editing("\u{e9}\u{e9}");
    assert_eq!(filter.byte_index(), 4);
    filter.move_cursor_left();
    assert_eq!(filter.byte_index(), 2);
    filter.move_cursor_left();
    assert_eq!(filter.byte_index(), 0);
}

#[test]
fn delete_char_at_start_is_a_no_op() {
    let mut filter = editing("abc");
    filter.move_cursor_left();
    filter.move_cursor_left();
    filter.move_cursor_left();
    assert_eq!(filter.cursor(), 0);
    filter.delete_char();
    assert_eq!(filter.input(), "abc");
    assert_eq!(filter.cursor(), 0);
}

#[test]
fn delete_char_on_empty_text_is_a_no_op() {
    let mut filter = editing("");
    filter.delete_char();
    assert_eq!(filter.input(), "");
    assert_eq!(filter.cursor(), 0);
}

#[test]
fn delete_char_removes_left_of_cursor() {
    let mut filter = editing("abc");
    filter.move_cursor_left();
    filter.delete_char();
    assert_eq!(filter.input(), "ac");
    assert_eq!(filter.cursor(), 1);
}

#[test]
fn delete_char_removes_a_whole_multibyte_character() {
    let mut filter = editing("a\u{4e16}b");
    filter.move_cursor_left();
    filter.delete_char();
    assert_eq!(filter.input(), "ab");
    assert_eq!(filter.cursor(), 1);
}

#[test]
fn delete_char_in_normal_mode_does_nothing() {
    let mut filter = editing("abc");
    filter.cancel();
    filter.delete_char();
    assert_eq!(filter.input(), "abc");
    assert_eq!(filter.cursor(), 3);
}

#[test]
fn move_cursor_is_clamped_at_both_ends() {
    let mut filter = editing("ab");
    filter.move_cursor_right();
    assert_eq!(filter.cursor(), 2);
    filter.move_cursor_left();
    filter.move_cursor_left();
    assert_eq!(filter.cursor(), 0);
    filter.move_cursor_left();
    assert_eq!(filter.cursor(), 0);
    filter.move_cursor_right();
    assert_eq!(filter.cursor(), 1);
}

#[test]
fn clamp_cursor_limits_to_length_in_characters() {
    let filter = editing("\u{e9}\u{e9}\u{e9}");
    assert_eq!(filter.clamp_cursor(0), 0);
    assert_eq!(filter.clamp_cursor(2), 2);
    assert_eq!(filter.clamp_cursor(3), 3);
    assert_eq!(filter.clamp_cursor(4), 3);
    assert_eq!(filter.clamp_cursor(usize::MAX), 3);
}

#[test]
fn cursor_stays_within_text_along_a_sequence_of_edits() {
    let ops = [
        EditOp::Delete,
        EditOp::MoveLeft,
        EditOp::Insert('a'),
        EditOp::Insert('\u{e9}'),
        EditOp::MoveRight,
        EditOp::MoveRight,
        EditOp::MoveLeft,
        EditOp::Insert('z'),
        EditOp::Delete,
        EditOp::Delete,
        EditOp::Delete,
        EditOp::MoveLeft,
        EditOp::Insert('q'),
        EditOp::MoveRight,
        EditOp::Delete,
        EditOp::Delete,
        EditOp::Delete,
    ];
    let mut filter = Filter::new();
    filter.enter_edit_mode();
    check_cursor(&filter);
    for op in ops {
        filter.edit(op);
        check_cursor(&filter);
    }
    assert_eq!(filter.input(), "");
    assert_eq!(filter.cursor(), 0);
}

#[test]
fn edit_applies_each_kind_of_step() {
    let mut filter = Filter::new();
    filter.enter_edit_mode();
    filter.edit(EditOp::Insert('a'));
    filter.edit(EditOp::Insert('b'));
    assert_eq!((filter.input(), filter.cursor()), ("ab", 2));
    filter.edit(EditOp::MoveLeft);
    assert_eq!((filter.input(), filter.cursor()), ("ab", 1));
    filter.edit(EditOp::Delete);
    assert_eq!((filter.input(), filter.cursor()), ("b", 0));
    filter.edit(EditOp::MoveRight);
    assert_eq!((filter.input(), filter.cursor()), ("b", 1));
}

#[test]
fn submit_message_keeps_text_and_leaves_editing() {
    let mut filter = editing("ssh");
    filter.submit_message();
    assert_eq!(filter.input(), "ssh");
    assert_eq!(filter.cursor(), 3);
    assert_eq!(filter.input_mode(), InputMode::Normal);
}

#[test]
fn cancel_keeps_text_and_leaves_editing() {
    let mut filter = editing("ssh");
    filter.cancel();
    assert_eq!(filter.input(), "ssh");
    assert_eq!(filter.cursor(), 3);
    assert_eq!(filter.input_mode(), InputMode::Normal);
}

#[test]
fn clear_empties_text_and_resets_cursor() {
    let mut filter = editing("ssh");
    filter.clear();
    assert_eq!(filter.input(), "");
    assert_eq!(filter.cursor(), 0);
    assert_eq!(filter.input_mode(), InputMode::Editing);
}

#[test]
fn key_i_starts_editing() {
    let mut filter = Filter::new();
    let signal = filter.on_key_event(KeyEvent::press(KeyCode::Char('i')));
    assert_eq!(signal, FilterSignal::Suppress);
    assert_eq!(filter.input_mode(), InputMode::Editing);
    assert_eq!(filter.input(), "");
}

#[test]
fn other_keys_in_normal_mode_do_nothing() {
    let mut filter = Filter::new();
    for code in [KeyCode::Char('a'), KeyCode::Enter, KeyCode::Backspace, KeyCode::Left, KeyCode::Down] {
        assert_eq!(filter.on_key_event(KeyEvent::press(code)), FilterSignal::Idle);
    }
    assert_eq!(filter.input(), "");
    assert_eq!(filter.input_mode(), InputMode::Normal);
}

#[test]
fn esc_in_normal_mode_clears_and_commits() {
    let mut filter = editing("ssh");
    filter.submit_message();
    let signal = filter.on_key_event(KeyEvent::press(KeyCode::Esc));
    assert_eq!(signal, FilterSignal::Commit);
    assert_eq!(filter.input(), "");
    assert_eq!(filter.cursor(), 0);
    assert_eq!(filter.input_mode(), InputMode::Normal);
}

#[test]
fn typing_in_editing_mode_builds_text() {
    let mut filter = Filter::new();
    filter.on_key_event(KeyEvent::press(KeyCode::Char('i')));
    for c in ['i', 'n', 'x'] {
        assert_eq!(filter.on_key_event(KeyEvent::press(KeyCode::Char(c))), FilterSignal::Idle);
    }
    assert_eq!(filter.input(), "inx");
    filter.on_key_event(KeyEvent::press(KeyCode::Left));
    filter.on_key_event(KeyEvent::press(KeyCode::Backspace));
    assert_eq!(filter.input(), "ix");
    assert_eq!(filter.cursor(), 1);
    filter.on_key_event(KeyEvent::press(KeyCode::Right));
    assert_eq!(filter.cursor(), 2);
}

#[test]
fn enter_in_editing_mode_commits() {
    let mut filter = editing("ssh");
    let signal = filter.on_key_event(KeyEvent::press(KeyCode::Enter));
    assert_eq!(signal, FilterSignal::Commit);
    assert_eq!(filter.input(), "ssh");
    assert_eq!(filter.input_mode(), InputMode::Normal);
}

#[test]
fn esc_in_editing_mode_cancels_without_commit() {
    let mut filter = editing("ssh");
    let signal = filter.on_key_event(KeyEvent::press(KeyCode::Esc));
    assert_eq!(signal, FilterSignal::Resume);
    assert_eq!(filter.input(), "ssh");
    assert_eq!(filter.input_mode(), InputMode::Normal);
}

#[test]
fn releases_and_repeats_are_ignored_while_editing() {
    let mut filter = editing("a");
    for kind in [KeyEventKind::Release, KeyEventKind::Repeat] {
        for code in [KeyCode::Char('b'), KeyCode::Backspace, KeyCode::Enter, KeyCode::Esc, KeyCode::Left] {
            let key = KeyEvent { code, modifiers: KeyModifiers::none(), kind };
            assert_eq!(filter.on_key_event(key), FilterSignal::Idle);
        }
    }
    assert_eq!(filter.input(), "a");
    assert_eq!(filter.cursor(), 1);
    assert_eq!(filter.input_mode(), InputMode::Editing);
}

#[test]
fn unmapped_keys_are_ignored_while_editing() {
    let mut filter = editing("a");
    for code in [KeyCode::Up, KeyCode::Down, KeyCode::PageUp, KeyCode::PageDown, KeyCode::Other] {
        assert_eq!(filter.on_key_event(KeyEvent::press(code)), FilterSignal::Idle);
    }
    assert_eq!(filter.input(), "a");
    assert_eq!(filter.cursor(), 1);
}

#[test]
fn help_message_depends_on_the_mode() {
    let mut filter = Filter::new();
    assert_eq!(
        filter.help_message(),
        vec![
            HelpSegment { text: "Press ", key: false },
            HelpSegment { text: "i", key: true },
            HelpSegment { text: " to start filtering.", key: false },
        ]
    );
    filter.enter_edit_mode();
    assert_eq!(
        filter.help_message(),
        vec![
            HelpSegment { text: "Press ", key: false },
            HelpSegment { text: "Esc", key: true },
            HelpSegment { text: " to stop filtering, ", key: false },
            HelpSegment { text: "Enter", key: true },
            HelpSegment { text: " to submit filter", key: false },
        ]
    );
}
