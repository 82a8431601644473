//! The editor of the filter line.
//!
//! The editor holds the text that narrows the service list and a cursor that
//! counts characters, never bytes. It reads keys in two modes: in `Normal` it
//! waits for the key that starts editing or the one that clears the filter, in
//! `Editing` every character key goes into the text.
use vstd::prelude::*;
use vstd::string::*;
use vstd::utf8::encode_utf8;
use crate::terminal::event::{KeyCode, KeyEvent, KeyEventKind};

verus! {

/// The two modes of the filter line.
#[derive(Clone, Copy, Debug, PartialEq, Eq, Structural)]
pub enum InputMode {
    Normal,
    Editing,
}

/// What the owner of the editor has to do after a key.
#[derive(Clone, Copy, Debug, PartialEq, Eq, Structural)]
pub enum FilterSignal {
    /// Nothing.
    Idle,
    /// Editing began: the list stops reading keys.
    Suppress,
    /// Editing ended without a new filter: the list reads keys again.
    Resume,
    /// The text of the editor is the new filter: the list reads keys again and
    /// is refreshed with it.
    Commit,
}

/// One step of editing: what a character key, Backspace, Left and Right do.
#[derive(Clone, Copy, Debug, PartialEq, Eq, Structural)]
pub enum EditOp {
    Insert(char),
    Delete,
    MoveLeft,
    MoveRight,
}

/// A piece of the help line above the filter: its text, and whether it names
/// a key and is to stand out.
#[derive(Clone, Copy, Debug, PartialEq, Eq)]
pub struct HelpSegment {
    pub text: &'static str,
    pub key: bool,
}

/// The pieces of `segments` as mathematical values, in order.
pub open spec fn segment_views(segments: Seq<HelpSegment>) -> Seq<(Seq<char>, bool)> {
    segments.map_values(|segment: HelpSegment| (segment.text@, segment.key))
}

/// The help line for `mode`: how to start filtering, or how to end it.
pub open spec fn help_line(mode: InputMode) -> Seq<(Seq<char>, bool)> {
    match mode {
        InputMode::Normal => seq![
            ("Press "@, false),
            ("i"@, true),
            (" to start filtering."@, false),
        ],
        InputMode::Editing => seq![
            ("Press "@, false),
            ("Esc"@, true),
            (" to stop filtering, "@, false),
            ("Enter"@, true),
            (" to submit filter"@, false),
        ],
    }
}

/// The editor as a mathematical value.
pub struct FilterView {
    pub input: Seq<char>,
    pub cursor: int,
    pub mode: InputMode,
}

impl FilterView {
    /// The cursor lies on the text or right behind it.
    pub open spec fn wf(self) -> bool {
        0 <= self.cursor <= self.input.len()
    }

    /// `pos` brought into the range from 0 to the length of the text.
    pub open spec fn clamp(self, pos: int) -> int {
        if pos < 0 {
            0
        } else if pos > self.input.len() {
            self.input.len() as int
        } else {
            pos
        }
    }

    /// The cursor one character to the left, not below 0.
    pub open spec fn move_left(self) -> Self {
        FilterView { cursor: self.clamp(self.cursor - 1), ..self }
    }

    /// The cursor one character to the right, not beyond the end of the text.
    pub open spec fn move_right(self) -> Self {
        FilterView { cursor: self.clamp(self.cursor + 1), ..self }
    }

    /// `c` put in at the cursor and the cursor moved behind it. Outside
    /// `Editing` nothing changes.
    pub open spec fn insert(self, c: char) -> Self {
        if self.mode == InputMode::Editing {
            let at = self.clamp(self.cursor);
            let input = self.input.insert(at, c);
            FilterView { input, cursor: (FilterView { input, ..self }).clamp(self.cursor + 1), ..self }
        } else {
            self
        }
    }

    /// The character left of the cursor taken out and the cursor moved onto its
    /// place. With the cursor at 0, or outside `Editing`, nothing changes.
    pub open spec fn delete(self) -> Self {
        if self.mode == InputMode::Editing && self.cursor != 0 {
            let input = if 0 < self.cursor <= self.input.len() {
                self.input.remove(self.cursor - 1)
            } else {
                self.input
            };
            FilterView { input, cursor: (FilterView { input, ..self }).clamp(self.cursor - 1), ..self }
        } else {
            self
        }
    }

    /// The editor after one step of editing.
    pub open spec fn apply(self, op: EditOp) -> Self {
        match op {
            EditOp::Insert(c) => self.insert(c),
            EditOp::Delete => self.delete(),
            EditOp::MoveLeft => self.move_left(),
            EditOp::MoveRight => self.move_right(),
        }
    }

    /// The editor after the steps `ops`, taken in order.
    pub open spec fn apply_all(self, ops: Seq<EditOp>) -> Self
        decreases ops.len(),
    {
        if ops.len() == 0 {
            self
        } else {
            self.apply_all(ops.drop_last()).apply(ops.last())
        }
    }

    /// `Editing` entered; text and cursor stay.
    pub open spec fn enter_edit(self) -> Self {
        FilterView { mode: InputMode::Editing, ..self }
    }

    /// `Normal` entered; text and cursor stay.
    pub open spec fn leave_edit(self) -> Self {
        FilterView { mode: InputMode::Normal, ..self }
    }

    /// The text emptied and the cursor at 0; the mode stays.
    pub open spec fn clear(self) -> Self {
        FilterView { input: Seq::empty(), cursor: 0, ..self }
    }

    /// The editor after `key`, and what its owner has to do.
    pub open spec fn on_key(self, key: KeyEvent) -> (Self, FilterSignal) {
        match self.mode {
            InputMode::Normal => match key.code {
                KeyCode::Char(c) => if c == 'i' {
                    (self.enter_edit(), FilterSignal::Suppress)
                } else {
                    (self, FilterSignal::Idle)
                },
                KeyCode::Esc => (self.clear(), FilterSignal::Commit),
                _ => (self, FilterSignal::Idle),
            },
            InputMode::Editing => if key.kind == KeyEventKind::Press {
                match key.code {
                    KeyCode::Enter => (self.leave_edit(), FilterSignal::Commit),
                    KeyCode::Char(c) => (self.insert(c), FilterSignal::Idle),
                    KeyCode::Backspace => (self.delete(), FilterSignal::Idle),
                    KeyCode::Left => (self.move_left(), FilterSignal::Idle),
                    KeyCode::Right => (self.move_right(), FilterSignal::Idle),
                    KeyCode::Esc => (self.leave_edit(), FilterSignal::Resume),
                    _ => (self, FilterSignal::Idle),
                }
            } else {
                (self, FilterSignal::Idle)
            },
        }
    }
}

/// A move puts the cursor on the text or right behind it, wherever it was
/// before; an insert and a delete keep it there.
pub proof fn lemma_edit_puts_cursor_on_text(editor: FilterView, op: EditOp)
    ensures
        op is MoveLeft || op is MoveRight || editor.wf() ==> editor.apply(op).wf(),
{
}

/// Along any sequence of inserts, deletes and moves the cursor stays within
/// 0 and the length of the text: it does so after every prefix of the
/// sequence, if it did at the start.
pub proof fn lemma_edits_keep_cursor_on_text(editor: FilterView, ops: Seq<EditOp>)
    requires
        editor.wf(),
    ensures
        forall|k: int| 0 <= k <= ops.len() ==> (#[trigger] editor.apply_all(ops.take(k))).wf(),
    decreases ops.len(),
{
    assert forall|k: int| 0 <= k <= ops.len() implies (#[trigger] editor.apply_all(
        ops.take(k),
    )).wf() by {
        if k == 0 {
            assert(ops.take(0).len() == 0);
        } else {
            let prefix = ops.take(k);
            lemma_edits_keep_cursor_on_text(editor, prefix.drop_last());
            assert(prefix.drop_last().take(k - 1) =~= prefix.drop_last());
            lemma_edit_puts_cursor_on_text(editor.apply_all(prefix.drop_last()), prefix.last());
        }
    }
}

/// Whatever key the editor reads, the cursor stays within 0 and the length
/// of the text.
pub proof fn lemma_key_keeps_cursor_on_text(editor: FilterView, key: KeyEvent)
    requires
        editor.wf(),
    ensures
        editor.on_key(key).0.wf(),
{
}

/// The number of bytes that the first `k` characters of `text` take in UTF-8.
pub open spec fn byte_offset(text: Seq<char>, k: int) -> nat {
    encode_utf8(text.take(k)).len()
}

/// `String::insert` of std: puts `c` into `text` at the byte position `at`.
/// std panics unless `at` is the start of a character or the end of the text,
/// so this asks for a position that is the byte offset of a character index.
/// The claim: the text afterwards is the old one with `c` put in at that index.
#[verifier::external_body]
fn insert_at_byte(text: &mut String, at: usize, c: char)
    requires
        exists|k: int| 0 <= k <= old(text)@.len() && at == byte_offset(old(text)@, k),
    ensures
        forall|k: int|
            0 <= k <= old(text)@.len() && at == #[trigger] byte_offset(old(text)@, k)
                ==> final(text)@ == old(text)@.insert(k, c),
{
    text.insert(at, c)
}

/// The editor of the filter line.
pub struct Filter {
    input: String,
    character_index: usize,
    input_mode: InputMode,
}

impl View for Filter {
    type V = FilterView;

    closed spec fn view(&self) -> FilterView {
        FilterView {
            input: self.input@,
            cursor: self.character_index as int,
            mode: self.input_mode,
        }
    }
}

impl Filter {
    /// An empty editor in `Normal`.
    pub fn new() -> (filter: Self)
        ensures
            filter@ == (FilterView { input: Seq::empty(), cursor: 0, mode: InputMode::Normal }),
    {
        Self { input: String::new(), input_mode: InputMode::Normal, character_index: 0 }
    }

    /// The text of the editor.
    pub fn input(&self) -> (text: &str)
        ensures
            text@ == self@.input,
    {
        self.input.as_str()
    }

    /// The mode the editor is in.
    pub fn input_mode(&self) -> (mode: InputMode)
        ensures
            mode == self@.mode,
    {
        self.input_mode
    }

    /// The help line to show above the text, in pieces.
    pub fn help_message(&self) -> (segments: Vec<HelpSegment>)
        ensures
            segment_views(segments@) == help_line(self@.mode),
    {
        let mut segments: Vec<HelpSegment> = Vec::new();
        match self.input_mode {
            InputMode::Normal => {
                segments.push(HelpSegment { text: "Press ", key: false });
                segments.push(HelpSegment { text: "i", key: true });
                segments.push(HelpSegment { text: " to start filtering.", key: false });
            },
            InputMode::Editing => {
                segments.push(HelpSegment { text: "Press ", key: false });
                segments.push(HelpSegment { text: "Esc", key: true });
                segments.push(HelpSegment { text: " to stop filtering, ", key: false });
                segments.push(HelpSegment { text: "Enter", key: true });
                segments.push(HelpSegment { text: " to submit filter", key: false });
            },
        }
        assert(segment_views(segments@) =~= help_line(self@.mode));
        segments
    }

    /// The cursor as a count of characters from the start of the text.
    pub fn cursor(&self) -> (index: usize)
        ensures
            index == self@.cursor,
    {
        self.character_index
    }

    /// Moves the cursor one character to the left; at 0 it stays.
    pub fn move_cursor_left(&mut self)
        ensures
            final(self)@ == old(self)@.move_left(),
    {
        let cursor_moved_left = self.character_index.saturating_sub(1);
        self.character_index = self.clamp_cursor(cursor_moved_left);
    }

    /// Moves the cursor one character to the right; at the end it stays.
    pub fn move_cursor_right(&mut self)
        ensures
            final(self)@ == old(self)@.move_right(),
    {
        let cursor_moved_right = self.character_index.saturating_add(1);
        self.character_index = self.clamp_cursor(cursor_moved_right);
    }

    /// In `Editing`, puts `new_char` in at the cursor and moves the cursor
    /// behind it. In `Normal` it does nothing.
    pub fn enter_char(&mut self, new_char: char)
        ensures
            final(self)@ == old(self)@.insert(new_char),
    {
        match self.input_mode {
            InputMode::Editing => {
                let index = self.byte_index();
                insert_at_byte(&mut self.input, index, new_char);
                self.move_cursor_right();
            },
            InputMode::Normal => {},
        }
    }

    /// The byte position in the text at which the character under the cursor
    /// starts: the length of the text in bytes where the cursor is at its end
    /// or beyond.
    pub fn byte_index(&self) -> (index: usize)
        ensures
            index == byte_offset(self@.input, self@.clamp(self@.cursor)),
    {
        let len = self.input.as_str().unicode_len();
        let chars = if self.character_index > len {
            len
        } else {
            self.character_index
        };
        let prefix = self.input.as_str().substring_char(0, chars);
        prefix.as_bytes().len()
    }

    /// In `Editing`, takes out the character left of the cursor and moves the
    /// cursor onto its place. With the cursor at 0, and in `Normal`, it does
    /// nothing.
    pub fn delete_char(&mut self)
        ensures
            final(self)@ == old(self)@.delete(),
            old(self)@.cursor == 0 ==> final(self)@ == old(self)@,
    {
        let is_not_cursor_leftmost = self.character_index != 0;
        match self.input_mode {
            InputMode::Editing => {
                if is_not_cursor_leftmost {
                    let current_index = self.character_index;
                    let len = self.input.as_str().unicode_len();
                    if current_index <= len {
                        let before_char_to_delete = self.input.as_str().substring_char(
                            0,
                            current_index - 1,
                        );
                        let after_char_to_delete = self.input.as_str().substring_char(
                            current_index,
                            len,
                        );
                        let mut rest = String::from_str(before_char_to_delete);
                        rest.append(after_char_to_delete);
                        assert(rest@ =~= self.input@.remove(current_index - 1));
                        self.input = rest;
                    }
                    self.move_cursor_left();
                }
            },
            InputMode::Normal => {},
        }
    }

    /// Takes one step of editing.
    pub fn edit(&mut self, op: EditOp)
        ensures
            final(self)@ == old(self)@.apply(op),
    {
        match op {
            EditOp::Insert(c) => self.enter_char(c),
            EditOp::Delete => self.delete_char(),
            EditOp::MoveLeft => self.move_cursor_left(),
            EditOp::MoveRight => self.move_cursor_right(),
        }
    }

    /// `new_cursor_pos`, or the length of the text where that is less.
    pub fn clamp_cursor(&self, new_cursor_pos: usize) -> (pos: usize)
        ensures
            pos == self@.clamp(new_cursor_pos as int),
            self@.input.len() <= usize::MAX,
    {
        let len = self.input.as_str().unicode_len();
        if new_cursor_pos > len {
            len
        } else {
            new_cursor_pos
        }
    }

    /// Enters `Editing`.
    pub fn enter_edit_mode(&mut self)
        ensures
            final(self)@ == old(self)@.enter_edit(),
    {
        self.input_mode = InputMode::Editing;
    }

    /// Ends editing with the text as it stands, which is the filter to apply.
    pub fn submit_message(&mut self)
        ensures
            final(self)@ == old(self)@.leave_edit(),
    {
        self.input_mode = InputMode::Normal;
    }

    /// Ends editing; the text stays as it is and is not applied.
    pub fn cancel(&mut self)
        ensures
            final(self)@ == old(self)@.leave_edit(),
    {
        self.input_mode = InputMode::Normal;
    }

    /// Empties the text and puts the cursor at 0.
    pub fn clear(&mut self)
        ensures
            final(self)@ == old(self)@.clear(),
    {
        self.input = String::new();
        self.character_index = 0;
    }

    /// Handles one key and tells the owner what follows from it.
    ///
    /// In `Normal`, `i` starts editing and Esc clears the filter, which is a
    /// commit of the empty text. In `Editing` only presses count: Enter commits
    /// the text, Esc ends editing without a commit, Backspace deletes, Left and
    /// Right move the cursor and every character key is put in.
    pub fn on_key_event(&mut self, key: KeyEvent) -> (signal: FilterSignal)
        ensures
            (final(self)@, signal) == old(self)@.on_key(key),
    {
        match self.input_mode {
            InputMode::Normal => match key.code {
                KeyCode::Char(c) => {
                    if c == 'i' {
                        self.enter_edit_mode();
                        FilterSignal::Suppress
                    } else {
                        FilterSignal::Idle
                    }
                },
                KeyCode::Esc => {
                    self.clear();
                    FilterSignal::Commit
                },
                _ => FilterSignal::Idle,
            },
            InputMode::Editing => match key.kind {
                KeyEventKind::Press => match key.code {
                    KeyCode::Enter => {
                        self.submit_message();
                        FilterSignal::Commit
                    },
                    KeyCode::Char(to_insert) => {
                        self.enter_char(to_insert);
                        FilterSignal::Idle
                    },
                    KeyCode::Backspace => {
                        self.delete_char();
                        FilterSignal::Idle
                    },
                    KeyCode::Left => {
                        self.move_cursor_left();
                        FilterSignal::Idle
                    },
                    KeyCode::Right => {
                        self.move_cursor_right();
                        FilterSignal::Idle
                    },
                    KeyCode::Esc => {
                        self.cancel();
                        FilterSignal::Resume
                    },
                    _ => FilterSignal::Idle,
                },
                _ => FilterSignal::Idle,
            },
        }
    }
}

} // verus!
