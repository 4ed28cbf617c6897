//! The input editor: a line of text with a cursor, the history of what was
//! submitted, and the pickers for files and commands.
//!
//! The cursor counts characters, so it always stands between two of them.

use vstd::prelude::*;
use crate::lines::strs;
use crate::picker::{
    command_names, filter_items, filtered, get_commands, PickerMode, MAX_PICKER_ITEMS,
};
use crate::text::{chars_of, find_last, last_index_of, push_all, slice_of, string_of};

verus! {

/// The state of the input editor.
#[derive(Debug)]
pub struct Editor {
    pub input: String,
    /// The number of characters before the cursor.
    pub input_cursor: usize,
    /// The lines submitted so far, the oldest first.
    pub history: Vec<String>,
    /// The line of the history that is shown; `history.len()` stands for the
    /// line that is being typed.
    pub history_pos: usize,
    /// The line that was being typed when the history was entered.
    pub saved_input: String,
    pub picker_mode: PickerMode,
    pub picker_query: String,
    pub picker_results: Vec<String>,
    pub picker_selected: usize,
    /// The files of the working directory, once they have been listed.
    pub files_cache: Option<Vec<String>>,
}

/// The character that opens a picker.
pub open spec fn trigger_of(mode: PickerMode) -> char {
    match mode {
        PickerMode::Commands => '/',
        _ => '@',
    }
}

/// The items that a picker chooses from.
pub open spec fn picker_items(mode: PickerMode, files: Option<Vec<String>>) -> Seq<Seq<char>> {
    match mode {
        PickerMode::Closed => Seq::empty(),
        PickerMode::Commands => command_names(),
        PickerMode::Files => match files {
            Some(f) => strs(f@),
            None => Seq::empty(),
        },
    }
}

/// The selection kept within `n` results.
pub open spec fn clamped(selected: usize, n: nat) -> usize {
    if n == 0 {
        0
    } else if selected < n {
        selected
    } else {
        (n - 1) as usize
    }
}

/// A pasted text as it is put into the line: line feeds become spaces and
/// carriage returns are left out.
pub open spec fn pasted(text: Seq<char>) -> Seq<char>
    decreases text.len(),
{
    if text.len() == 0 {
        seq![]
    } else if text.last() == '\r' {
        pasted(text.drop_last())
    } else if text.last() == '\n' {
        pasted(text.drop_last()).push(' ')
    } else {
        pasted(text.drop_last()).push(text.last())
    }
}

impl Editor {
    /// The cursor and the history position are in range, at most ten results
    /// are shown, one of them selected, and a closed picker holds nothing.
    pub open spec fn wf(&self) -> bool {
        &&& self.input_cursor <= self.input@.len()
        &&& self.history_pos <= self.history@.len()
        &&& self.picker_results@.len() <= MAX_PICKER_ITEMS
        &&& self.picker_selected == clamped(self.picker_selected, self.picker_results@.len())
        &&& self.picker_mode == PickerMode::Closed ==> self.picker_query@.len() == 0
            && self.picker_results@.len() == 0
    }

    /// Whether the history and the cache of files are those of `other`.
    pub open spec fn same_history(&self, other: &Editor) -> bool {
        &&& self.history == other.history
        &&& self.history_pos == other.history_pos
        &&& self.saved_input == other.saved_input
        &&& self.files_cache == other.files_cache
    }

    /// Whether the picker is that of `other`.
    pub open spec fn same_picker(&self, other: &Editor) -> bool {
        &&& self.picker_mode == other.picker_mode
        &&& self.picker_query == other.picker_query
        &&& self.picker_results == other.picker_results
        &&& self.picker_selected == other.picker_selected
    }

    /// Whether the picker is closed and empty.
    pub open spec fn picker_closed(&self) -> bool {
        &&& self.picker_mode == PickerMode::Closed
        &&& self.picker_query@.len() == 0
        &&& self.picker_results@.len() == 0
        &&& self.picker_selected == 0
    }

    /// Whether the picker shows what `query` selects in `mode`, with the
    /// selection `selected` kept in range.
    pub open spec fn picker_shows(&self, mode: PickerMode, query: Seq<char>, selected: usize) -> bool {
        &&& self.picker_mode == mode
        &&& self.picker_query@ == query
        &&& strs(self.picker_results@) == filtered(
            picker_items(mode, self.files_cache),
            query,
            MAX_PICKER_ITEMS as nat,
        )
        &&& self.picker_selected == clamped(selected, self.picker_results@.len())
    }

    /// Whether the editor is as at the start: an empty line, no history, no
    /// picker, and the files not listed yet.
    pub open spec fn fresh(&self) -> bool {
        &&& self.input@.len() == 0
        &&& self.input_cursor == 0
        &&& self.history@.len() == 0
        &&& self.history_pos == 0
        &&& self.saved_input@.len() == 0
        &&& self.picker_closed()
        &&& self.files_cache is None
    }

    /// An editor with an empty line, no history and no picker.
    pub fn new() -> (out: Self)
        ensures
            out.wf(),
            out.fresh(),
    {
        Editor {
            input: String::new(),
            input_cursor: 0,
            history: Vec::new(),
            history_pos: 0,
            saved_input: String::new(),
            picker_mode: PickerMode::Closed,
            picker_query: String::new(),
            picker_results: Vec::new(),
            picker_selected: 0,
            files_cache: None,
        }
    }

    /// Whether a picker is open.
    pub fn picker_active(&self) -> (out: bool)
        ensures
            out == (self.picker_mode != PickerMode::Closed),
    {
        match self.picker_mode {
            PickerMode::Closed => false,
            _ => true,
        }
    }

    /// The place of the cursor in the bytes of the line: the number of bytes
    /// that what stands before the cursor takes in UTF-8. The cursor stands
    /// between two characters, so that this is always the start of a
    /// character or the end of the line.
    pub fn byte_cursor(&self) -> (out: usize)
        requires
            self.wf(),
        ensures
            out == vstd::utf8::encode_utf8(self.input@.take(self.input_cursor as int)).len() as usize,
    {
        let before = self.input.as_str().substring_char(0, self.input_cursor);
        assert(before@ =~= self.input@.take(self.input_cursor as int));
        before.len()
    }

    /// Whether the files of the working directory have yet to be listed.
    pub fn wants_files(&self) -> (out: bool)
        ensures
            out == (self.files_cache is None),
    {
        self.files_cache.is_none()
    }

    /// Takes the list of the files of the working directory.
    pub fn provide_files(&mut self, files: Vec<String>)
        requires
            old(self).wf(),
        ensures
            final(self).wf(),
            final(self).files_cache == Some(files),
            final(self).input == old(self).input,
            final(self).input_cursor == old(self).input_cursor,
            final(self).history == old(self).history,
            final(self).history_pos == old(self).history_pos,
            final(self).saved_input == old(self).saved_input,
            final(self).same_picker(old(self)),
    {
        self.files_cache = Some(files);
    }

    /// Empties the line.
    pub fn clear_input(&mut self)
        requires
            old(self).wf(),
        ensures
            final(self).wf(),
            final(self).input@.len() == 0,
            final(self).input_cursor == 0,
            final(self).same_history(old(self)),
            final(self).same_picker(old(self)),
    {
        self.input = String::new();
        self.input_cursor = 0;
    }

    fn deactivate_picker(&mut self)
        requires
            old(self).wf(),
        ensures
            final(self).wf(),
            final(self).picker_closed(),
            final(self).input == old(self).input,
            final(self).input_cursor == old(self).input_cursor,
            final(self).same_history(old(self)),
    {
        self.picker_mode = PickerMode::Closed;
        self.picker_query = String::new();
        self.picker_results = Vec::new();
        self.picker_selected = 0;
    }

    fn update_picker_results(&mut self)
        requires
            old(self).input_cursor <= old(self).input@.len(),
            old(self).history_pos <= old(self).history@.len(),
            old(self).picker_mode != PickerMode::Closed,
        ensures
            final(self).wf(),
            final(self).picker_shows(
                old(self).picker_mode,
                old(self).picker_query@,
                old(self).picker_selected,
            ),
            final(self).input == old(self).input,
            final(self).input_cursor == old(self).input_cursor,
            final(self).same_history(old(self)),
    {
        let results = match self.picker_mode {
            PickerMode::Files => match &self.files_cache {
                Some(files) => filter_items(files, self.picker_query.as_str(), MAX_PICKER_ITEMS),
                None => {
                    let none: Vec<String> = Vec::new();
                    assert(strs(none@) =~= Seq::empty());
                    filter_items(&none, self.picker_query.as_str(), MAX_PICKER_ITEMS)
                },
            },
            _ => {
                let commands = get_commands();
                filter_items(&commands, self.picker_query.as_str(), MAX_PICKER_ITEMS)
            },
        };
        let n = results.len();
        self.picker_results = results;
        if n == 0 {
            self.picker_selected = 0;
        } else if self.picker_selected >= n {
            self.picker_selected = n - 1;
        }
    }

    fn activate_picker(&mut self, mode: PickerMode)
        requires
            old(self).input_cursor <= old(self).input@.len(),
            old(self).history_pos <= old(self).history@.len(),
            mode != PickerMode::Closed,
        ensures
            final(self).wf(),
            final(self).picker_shows(mode, Seq::empty(), 0),
            final(self).input == old(self).input,
            final(self).input_cursor == old(self).input_cursor,
            final(self).same_history(old(self)),
    {
        self.picker_mode = mode;
        self.picker_query = String::new();
        self.picker_selected = 0;
        self.update_picker_results();
    }

    /// Whether a character is held back: the character that opened the
    /// picker is not typed a second time while the picker is open.
    pub open spec fn holds_back(&self, c: char) -> bool {
        (c == '@' && self.picker_mode == PickerMode::Files) || (c == '/' && self.picker_mode
            == PickerMode::Commands)
    }

    /// What typing the character `c` makes of the editor `pre`.
    pub open spec fn typed(pre: &Editor, post: &Editor, c: char) -> bool {
        &&& post.same_history(pre)
        &&& pre.holds_back(c) ==> post.input == pre.input && post.input_cursor == pre.input_cursor
            && post.same_picker(pre)
        &&& !pre.holds_back(c) ==> post.input@ == pre.input@.insert(
            pre.input_cursor as int,
            c
        ) && post.input_cursor == pre.input_cursor + 1
        &&& !pre.holds_back(c) && c == '@' ==> post.picker_shows(
            PickerMode::Files,
            Seq::empty(),
            0
        )
        &&& !pre.holds_back(c) && c == '/' && pre.input_cursor == 0 ==> post.picker_shows(
            PickerMode::Commands,
            Seq::empty(),
            0,
        )
        &&& !pre.holds_back(c) && c != '@' && !(c == '/' && pre.input_cursor == 0)
            && pre.picker_mode != PickerMode::Closed ==> post.picker_shows(
            pre.picker_mode,
            pre.picker_query@.push(c),
            pre.picker_selected
        )
        &&& !pre.holds_back(c) && c != '@' && !(c == '/' && pre.input_cursor == 0)
            && pre.picker_mode == PickerMode::Closed ==> post.same_picker(pre)
    }

    /// Types a character at the cursor. `@` opens the file picker, `/` at the
    /// start of the line the command picker; while a picker is open, any
    /// other character is added to its query.
    pub fn insert_char(&mut self, c: char)
        requires
            old(self).wf(),
        ensures
            final(self).wf(),
            Self::typed(old(self), final(self), c),
    {
        let files_open = match self.picker_mode {
            PickerMode::Files => true,
            _ => false,
        };
        let commands_open = match self.picker_mode {
            PickerMode::Commands => true,
            _ => false,
        };
        if (c == '@' && files_open) || (c == '/' && commands_open) {
            return;
        }
        let mut chars = chars_of(self.input.as_str());
        chars.insert(self.input_cursor, c);
        assert(self.input_cursor + 1 <= chars.len());
        self.input = string_of(&chars);
        self.input_cursor = self.input_cursor + 1;
        if c == '@' {
            self.activate_picker(PickerMode::Files);
        } else if c == '/' && self.input_cursor == 1 {
            self.activate_picker(PickerMode::Commands);
        } else if files_open || commands_open {
            self.picker_query.push(c);
            self.update_picker_results();
        }
    }

    /// What deleting the character before the cursor makes of the editor `pre`.
    pub open spec fn erased(pre: &Editor, post: &Editor) -> bool {
        &&& post.same_history(pre)
        &&& pre.input_cursor == 0 ==> post.input == pre.input && post.input_cursor == 0
            && post.same_picker(pre)
        &&& pre.input_cursor > 0 ==> post.input@ == pre.input@.remove(
            pre.input_cursor - 1
        ) && post.input_cursor == pre.input_cursor - 1
        &&& pre.input_cursor > 0 && pre.picker_mode == PickerMode::Closed ==> post.same_picker(pre)
        &&& pre.input_cursor > 0 && pre.picker_mode != PickerMode::Closed
            && pre.input@[pre.input_cursor - 1] == trigger_of(pre.picker_mode)
            ==> post.picker_closed()
        &&& pre.input_cursor > 0 && pre.picker_mode != PickerMode::Closed
            && pre.input@[pre.input_cursor - 1] != trigger_of(pre.picker_mode) ==> post.picker_shows(
            pre.picker_mode,
            if pre.picker_query@.len() > 0 {
                pre.picker_query@.drop_last()
            } else {
                pre.picker_query@
            },
            pre.picker_selected
        )
    }

    /// Deletes the character before the cursor. Deleting the character that
    /// opened the picker closes it; deleting another one shortens the query.
    pub fn delete_char(&mut self)
        requires
            old(self).wf(),
        ensures
            final(self).wf(),
            Self::erased(old(self), final(self)),
    {
        if self.input_cursor == 0 {
            return;
        }
        let mut chars = chars_of(self.input.as_str());
        let removed = chars.remove(self.input_cursor - 1);
        self.input = string_of(&chars);
        self.input_cursor = self.input_cursor - 1;
        let trigger = match self.picker_mode {
            PickerMode::Closed => {
                return;
            },
            PickerMode::Files => '@',
            PickerMode::Commands => '/',
        };
        if removed == trigger {
            self.deactivate_picker();
        } else {
            let mut q = chars_of(self.picker_query.as_str());
            if q.len() > 0 {
                q.pop();
            }
            self.picker_query = string_of(&q);
            self.update_picker_results();
        }
    }

    /// What moving the cursor to the left makes of the editor `pre`.
    pub open spec fn moved_left(pre: &Editor, post: &Editor) -> bool {
        &&& post.input == pre.input
        &&& post.same_history(pre)
        &&& post.same_picker(pre)
        &&& post.input_cursor == if pre.input_cursor > 0 {
            (pre.input_cursor - 1) as usize
        } else {
            0
        }
    }

    /// Moves the cursor one character to the left, unless it is at the start.
    pub fn move_cursor_left(&mut self)
        requires
            old(self).wf(),
        ensures
            final(self).wf(),
            Self::moved_left(old(self), final(self)),
    {
        if self.input_cursor > 0 {
            self.input_cursor = self.input_cursor - 1;
        }
    }

    /// What moving the cursor to the right makes of the editor `pre`.
    pub open spec fn moved_right(pre: &Editor, post: &Editor) -> bool {
        &&& post.input == pre.input
        &&& post.same_history(pre)
        &&& post.same_picker(pre)
        &&& post.input_cursor == if pre.input_cursor < pre.input@.len() {
            (pre.input_cursor + 1) as usize
        } else {
            pre.input_cursor
        }
    }

    /// Moves the cursor one character to the right, unless it is at the end.
    pub fn move_cursor_right(&mut self)
        requires
            old(self).wf(),
        ensures
            final(self).wf(),
            Self::moved_right(old(self), final(self)),
    {
        let n = self.input.as_str().unicode_len();
        if self.input_cursor < n {
            self.input_cursor = self.input_cursor + 1;
        }
    }

    /// What the up key makes of the editor `pre`.
    pub open spec fn went_up(pre: &Editor, post: &Editor) -> bool {
        &&& post.history == pre.history
        &&& post.files_cache == pre.files_cache
        &&& pre.picker_mode != PickerMode::Closed ==> {
            &&& post.input == pre.input
            &&& post.input_cursor == pre.input_cursor
            &&& post.history_pos == pre.history_pos
            &&& post.saved_input == pre.saved_input
            &&& post.picker_mode == pre.picker_mode
            &&& post.picker_query == pre.picker_query
            &&& post.picker_results == pre.picker_results
            &&& post.picker_selected == if pre.picker_selected > 0 {
                (pre.picker_selected - 1) as usize
            } else {
                0
            }
        }
        &&& pre.picker_mode == PickerMode::Closed ==> post.same_picker(pre)
        &&& pre.picker_mode == PickerMode::Closed && pre.history_pos == 0 ==> {
            &&& post.input == pre.input
            &&& post.input_cursor == pre.input_cursor
            &&& post.history_pos == 0
            &&& post.saved_input == pre.saved_input
        }
        &&& pre.picker_mode == PickerMode::Closed && pre.history_pos > 0 ==> {
            &&& post.history_pos == pre.history_pos - 1
            &&& post.input@ == pre.history@[pre.history_pos - 1]@
            &&& post.input_cursor == post.input@.len()
            &&& post.saved_input@ == if pre.history_pos == pre.history@.len() {
                pre.input@
            } else {
                pre.saved_input@
            }
        }
    }

    /// With a picker open, selects the result above; else shows the line of
    /// the history before the one shown, keeping what was being typed.
    pub fn history_up(&mut self)
        requires
            old(self).wf(),
        ensures
            final(self).wf(),
            Self::went_up(old(self), final(self)),
    {
        if self.picker_active() {
            if self.picker_selected > 0 {
                self.picker_selected = self.picker_selected - 1;
            }
        } else if self.history.len() > 0 && self.history_pos > 0 {
            if self.history_pos == self.history.len() {
                self.saved_input = self.input.clone();
            }
            self.history_pos = self.history_pos - 1;
            self.input = self.history[self.history_pos].clone();
            self.input_cursor = self.input.as_str().unicode_len();
        }
    }

    /// What the down key makes of the editor `pre`.
    pub open spec fn went_down(pre: &Editor, post: &Editor) -> bool {
        &&& post.history == pre.history
        &&& post.files_cache == pre.files_cache
        &&& post.saved_input == pre.saved_input
        &&& pre.picker_mode != PickerMode::Closed ==> {
            &&& post.input == pre.input
            &&& post.input_cursor == pre.input_cursor
            &&& post.history_pos == pre.history_pos
            &&& post.picker_mode == pre.picker_mode
            &&& post.picker_query == pre.picker_query
            &&& post.picker_results == pre.picker_results
            &&& post.picker_selected == if pre.picker_selected + 1 < pre.picker_results@.len() {
                (pre.picker_selected + 1) as usize
            } else {
                pre.picker_selected
            }
        }
        &&& pre.picker_mode == PickerMode::Closed ==> post.same_picker(pre)
        &&& pre.picker_mode == PickerMode::Closed && pre.history_pos == pre.history@.len() ==> {
            &&& post.input == pre.input
            &&& post.input_cursor == pre.input_cursor
            &&& post.history_pos == pre.history_pos
        }
        &&& pre.picker_mode == PickerMode::Closed && pre.history_pos < pre.history@.len() ==> {
            &&& post.history_pos == pre.history_pos + 1
            &&& post.input@ == if pre.history_pos + 1 == pre.history@.len() {
                pre.saved_input@
            } else {
                pre.history@[pre.history_pos + 1]@
            }
            &&& post.input_cursor == post.input@.len()
        }
    }

    /// With a picker open, selects the result below; else shows the line of
    /// the history after the one shown, and after the last one what was being
    /// typed.
    pub fn history_down(&mut self)
        requires
            old(self).wf(),
        ensures
            final(self).wf(),
            Self::went_down(old(self), final(self)),
    {
        if self.picker_active() {
            if self.picker_selected < self.picker_results.len() && self.picker_selected + 1
                < self.picker_results.len() {
                self.picker_selected = self.picker_selected + 1;
            }
        } else if self.history_pos < self.history.len() {
            self.history_pos = self.history_pos + 1;
            if self.history_pos == self.history.len() {
                self.input = self.saved_input.clone();
            } else {
                self.input = self.history[self.history_pos].clone();
            }
            self.input_cursor = self.input.as_str().unicode_len();
        }
    }

    /// Whether accepting puts a result of the picker into the line: a result
    /// is selected and, for a file, an `@` stands before the cursor.
    pub open spec fn accepts(&self) -> bool {
        &&& self.picker_mode != PickerMode::Closed
        &&& self.picker_selected < self.picker_results@.len()
        &&& self.picker_mode == PickerMode::Commands || last_index_of(
            self.input@,
            '@',
            self.input_cursor as int,
        ) >= 0
    }

    /// The line after a result of the picker is accepted. For a file, what
    /// stands from the last `@` before the cursor through the cursor gives
    /// way to `@` and the file; what stands after the cursor stays. For a
    /// command, the whole line gives way to `/` and the command.
    pub open spec fn accepted_input(&self) -> Seq<char> {
        if !self.accepts() {
            self.input@
        } else {
            let item = self.picker_results@[self.picker_selected as int]@;
            if self.picker_mode == PickerMode::Commands {
                seq!['/'] + item
            } else {
                self.input@.take(last_index_of(self.input@, '@', self.input_cursor as int)) + seq![
                    '@',
                ] + item + self.input@.skip(self.input_cursor as int)
            }
        }
    }

    /// The place of the cursor after a result of the picker is accepted:
    /// after what was put in.
    pub open spec fn accepted_cursor(&self) -> int {
        if !self.accepts() {
            self.input_cursor as int
        } else {
            let item = self.picker_results@[self.picker_selected as int]@;
            if self.picker_mode == PickerMode::Commands {
                (1 + item.len()) as int
            } else {
                last_index_of(self.input@, '@', self.input_cursor as int) + 1 + item.len()
            }
        }
    }

    /// What accepting the selected result of the picker makes of the editor `pre`.
    pub open spec fn accepted(pre: &Editor, post: &Editor) -> bool {
        &&& post.same_history(pre)
        &&& post.input@ == pre.accepted_input()
        &&& post.input_cursor as int == pre.accepted_cursor()
        &&& pre.picker_mode == PickerMode::Closed ==> post.same_picker(pre)
        &&& pre.picker_mode != PickerMode::Closed ==> post.picker_closed()
    }

    /// Accepts the selected result of the picker and closes the picker. The
    /// cursor goes to the end of what was put in.
    pub fn select_picker_item(&mut self)
        requires
            old(self).wf(),
        ensures
            final(self).wf(),
            Self::accepted(old(self), final(self)),
    {
        if !self.picker_active() {
            return;
        }
        if self.picker_selected < self.picker_results.len() {
            let item = chars_of(self.picker_results[self.picker_selected].as_str());
            match self.picker_mode {
                PickerMode::Files => {
                    let chars = chars_of(self.input.as_str());
                    match find_last(&chars, '@', self.input_cursor) {
                        Some(at) => {
                            let mut line = slice_of(&chars, 0, at);
                            line.push('@');
                            push_all(&mut line, &item);
                            let end = line.len();
                            let rest = slice_of(&chars, self.input_cursor, chars.len());
                            push_all(&mut line, &rest);
                            assert(line@ =~= old(self).input@.take(at as int) + seq!['@'] + item@
                                + old(self).input@.skip(old(self).input_cursor as int));
                            self.input_cursor = end;
                            self.input = string_of(&line);
                        },
                        None => {},
                    }
                },
                _ => {
                    let mut line: Vec<char> = Vec::new();
                    line.push('/');
                    push_all(&mut line, &item);
                    assert(line@ =~= seq!['/'] + item@);
                    self.input_cursor = line.len();
                    self.input = string_of(&line);
                },
            }
        }
        self.deactivate_picker();
    }

    /// The line after the picker is dismissed: what stands before the last
    /// character before the cursor that opens the picker.
    pub open spec fn dismissed_input(&self) -> Seq<char> {
        if self.picker_mode == PickerMode::Closed {
            Seq::empty()
        } else {
            let at = last_index_of(self.input@, trigger_of(self.picker_mode), self.input_cursor as int);
            if at >= 0 {
                self.input@.take(at)
            } else {
                self.input@
            }
        }
    }

    /// What dismissing the picker makes of the editor `pre`.
    pub open spec fn dismissed(pre: &Editor, post: &Editor) -> bool {
        &&& post.same_history(pre)
        &&& post.picker_closed()
        &&& post.input@ == pre.dismissed_input()
        &&& post.input_cursor == if pre.picker_mode != PickerMode::Closed
            && last_index_of(
            pre.input@,
            trigger_of(pre.picker_mode),
            pre.input_cursor as int
        ) < 0 {
            pre.input_cursor
        } else {
            post.input@.len() as usize
        }
    }

    /// Dismisses the picker and what was typed for it; with no picker open,
    /// empties the line.
    pub fn cancel_picker(&mut self)
        requires
            old(self).wf(),
        ensures
            final(self).wf(),
            Self::dismissed(old(self), final(self)),
    {
        let trigger = match self.picker_mode {
            PickerMode::Closed => {
                self.input = String::new();
                self.input_cursor = 0;
                self.picker_selected = 0;
                return;
            },
            PickerMode::Files => '@',
            PickerMode::Commands => '/',
        };
        let chars = chars_of(self.input.as_str());
        match find_last(&chars, trigger, self.input_cursor) {
            Some(at) => {
                let line = slice_of(&chars, 0, at);
                assert(line@ =~= old(self).input@.take(at as int));
                self.input = string_of(&line);
                self.input_cursor = at;
            },
            None => {},
        }
        self.deactivate_picker();
    }

    /// What pasting a text makes of the editor `pre`.
    pub open spec fn pasted_in(pre: &Editor, post: &Editor, text: Seq<char>) -> bool {
        &&& post.same_history(pre)
        &&& post.picker_closed()
        &&& post.input@ == pre.input@.take(pre.input_cursor as int) + pasted(
            text
        ) + pre.input@.skip(pre.input_cursor as int)
        &&& post.input_cursor == pre.input_cursor + pasted(text).len()
    }

    /// Puts a pasted text in at the cursor, on one line, and closes the
    /// picker.
    pub fn paste(&mut self, text: &str)
        requires
            old(self).wf(),
        ensures
            final(self).wf(),
            Self::pasted_in(old(self), final(self), text@),
    {
        self.deactivate_picker();
        let t = chars_of(text);
        let mut cleaned: Vec<char> = Vec::new();
        let mut i: usize = 0;
        assert(t@.take(0) =~= Seq::empty());
        while i < t.len()
            invariant
                i <= t.len(),
                cleaned@ == pasted(t@.take(i as int)),
                cleaned.len() <= i,
            decreases t.len() - i,
        {
            proof {
                assert(t@.take(i + 1).drop_last() =~= t@.take(i as int));
            }
            if t[i] == '\r' {
            } else if t[i] == '\n' {
                cleaned.push(' ');
            } else {
                cleaned.push(t[i]);
            }
            i += 1;
        }
        assert(t@.take(i as int) =~= t@);
        let chars = chars_of(self.input.as_str());
        let mut line = slice_of(&chars, 0, self.input_cursor);
        push_all(&mut line, &cleaned);
        let tail = slice_of(&chars, self.input_cursor, chars.len());
        push_all(&mut line, &tail);
        assert(line@ =~= old(self).input@.take(old(self).input_cursor as int) + pasted(text@)
            + old(self).input@.skip(old(self).input_cursor as int));
        assert(self.input_cursor + cleaned.len() <= line.len());
        self.input = string_of(&line);
        self.input_cursor = self.input_cursor + cleaned.len();
    }
}

} // verus!
