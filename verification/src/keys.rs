//! Keys and other events of the terminal, and what each does to the
//! application.

use vstd::prelude::*;
use crate::app::{App, Effect, Surroundings};
use crate::editor::Editor;
use crate::picker::PickerMode;
use crate::submit::Supply;

verus! {

/// The key that was pressed.
#[derive(Debug, Clone, Copy, PartialEq, Eq, Structural)]
pub enum KeyCode {
    Enter,
    Tab,
    Esc,
    Backspace,
    Up,
    Down,
    Left,
    Right,
    PageUp,
    PageDown,
    Char(char),
    Other,
}

/// A key with its modifiers.
#[derive(Debug, Clone, Copy, PartialEq, Eq, Structural)]
pub struct Key {
    pub code: KeyCode,
    /// Whether the control key is held.
    pub control: bool,
    /// Whether any modifier but the control key is held.
    pub other_modifiers: bool,
}

/// An event of the terminal.
#[derive(Debug)]
pub enum Event {
    Key(Key),
    Paste(String),
    ScrollUp,
    ScrollDown,
    Other,
}

/// What a key asks for.
#[derive(Debug, Clone, Copy, PartialEq, Eq, Structural)]
pub enum KeyAction {
    Quit,
    ModalUp,
    ModalDown,
    ModalSelect,
    ModalCancel,
    AcceptPick,
    Submit,
    Abort,
    CancelPick,
    Delete,
    HistoryUp,
    HistoryDown,
    CursorLeft,
    CursorRight,
    ScrollUp,
    ScrollDown,
    Type(char),
    Ignore,
}

/// What a key asks for, from what is on the screen. Control-C and control-D
/// always quit. While a question is shown, the keys answer it. While the
/// agent is busy, Enter does nothing and Escape aborts.
pub open spec fn action_of(key: Key, modal: bool, busy: bool, picking: bool) -> KeyAction {
    let only_control = key.control && !key.other_modifiers;
    if only_control && (key.code == KeyCode::Char('c') || key.code == KeyCode::Char('d')) {
        KeyAction::Quit
    } else if modal {
        match key.code {
            KeyCode::Up => KeyAction::ModalUp,
            KeyCode::Down => KeyAction::ModalDown,
            KeyCode::Enter => KeyAction::ModalSelect,
            KeyCode::Esc => KeyAction::ModalCancel,
            _ => KeyAction::Ignore,
        }
    } else {
        match key.code {
            KeyCode::Enter => if busy {
                KeyAction::Ignore
            } else if picking {
                KeyAction::AcceptPick
            } else {
                KeyAction::Submit
            },
            KeyCode::Tab => if picking {
                KeyAction::AcceptPick
            } else {
                KeyAction::Ignore
            },
            KeyCode::Esc => if busy {
                KeyAction::Abort
            } else {
                KeyAction::CancelPick
            },
            KeyCode::Backspace => KeyAction::Delete,
            KeyCode::Up => KeyAction::HistoryUp,
            KeyCode::Down => KeyAction::HistoryDown,
            KeyCode::Left => KeyAction::CursorLeft,
            KeyCode::Right => KeyAction::CursorRight,
            KeyCode::PageUp => KeyAction::ScrollUp,
            KeyCode::PageDown => KeyAction::ScrollDown,
            KeyCode::Char(c) => if c == 'u' && only_control {
                KeyAction::ScrollUp
            } else if !key.control {
                KeyAction::Type(c)
            } else {
                KeyAction::Ignore
            },
            KeyCode::Other => KeyAction::Ignore,
        }
    }
}

/// Computes `action_of`.
pub fn key_action(key: Key, modal: bool, busy: bool, picking: bool) -> (out: KeyAction)
    ensures
        out == action_of(key, modal, busy, picking),
{
    let only_control = key.control && !key.other_modifiers;
    let quits = match key.code {
        KeyCode::Char(c) => only_control && (c == 'c' || c == 'd'),
        _ => false,
    };
    if quits {
        return KeyAction::Quit;
    }
    if modal {
        return match key.code {
            KeyCode::Up => KeyAction::ModalUp,
            KeyCode::Down => KeyAction::ModalDown,
            KeyCode::Enter => KeyAction::ModalSelect,
            KeyCode::Esc => KeyAction::ModalCancel,
            _ => KeyAction::Ignore,
        };
    }
    match key.code {
        KeyCode::Enter => if busy {
            KeyAction::Ignore
        } else if picking {
            KeyAction::AcceptPick
        } else {
            KeyAction::Submit
        },
        KeyCode::Tab => if picking {
            KeyAction::AcceptPick
        } else {
            KeyAction::Ignore
        },
        KeyCode::Esc => if busy {
            KeyAction::Abort
        } else {
            KeyAction::CancelPick
        },
        KeyCode::Backspace => KeyAction::Delete,
        KeyCode::Up => KeyAction::HistoryUp,
        KeyCode::Down => KeyAction::HistoryDown,
        KeyCode::Left => KeyAction::CursorLeft,
        KeyCode::Right => KeyAction::CursorRight,
        KeyCode::PageUp => KeyAction::ScrollUp,
        KeyCode::PageDown => KeyAction::ScrollDown,
        KeyCode::Char(c) => if c == 'u' && only_control {
            KeyAction::ScrollUp
        } else if !key.control {
            KeyAction::Type(c)
        } else {
            KeyAction::Ignore
        },
        KeyCode::Other => KeyAction::Ignore,
    }
}

impl App {
    /// Whether everything but the editor is that of `old`.
    pub open spec fn same_but_editor(&self, old: &App) -> bool {
        &&& self.same_journal(old)
        &&& self.same_turn(old)
        &&& self.same_settings(old)
        &&& self.session == old.session
        &&& self.same_flags(old)
    }

    /// Whether a picker is open.
    pub fn picker_active(&self) -> (out: bool)
        ensures
            out == (self.editor.picker_mode != PickerMode::Closed),
    {
        self.editor.picker_active()
    }

    /// Types a character into the line.
    pub fn insert_char(&mut self, c: char)
        requires
            old(self).wf(),
        ensures
            final(self).wf(),
            final(self).same_but_editor(old(self)),
            Editor::typed(&old(self).editor, &final(self).editor, c),
    {
        self.editor.insert_char(c);
    }

    /// Deletes the character before the cursor.
    pub fn delete_char(&mut self)
        requires
            old(self).wf(),
        ensures
            final(self).wf(),
            final(self).same_but_editor(old(self)),
            Editor::erased(&old(self).editor, &final(self).editor),
    {
        self.editor.delete_char();
    }

    /// Moves the cursor one character to the left.
    pub fn move_cursor_left(&mut self)
        requires
            old(self).wf(),
        ensures
            final(self).wf(),
            final(self).same_but_editor(old(self)),
            Editor::moved_left(&old(self).editor, &final(self).editor),
    {
        self.editor.move_cursor_left();
    }

    /// Moves the cursor one character to the right.
    pub fn move_cursor_right(&mut self)
        requires
            old(self).wf(),
        ensures
            final(self).wf(),
            final(self).same_but_editor(old(self)),
            Editor::moved_right(&old(self).editor, &final(self).editor),
    {
        self.editor.move_cursor_right();
    }

    /// Goes up in the picker, or back in the history.
    pub fn history_up(&mut self)
        requires
            old(self).wf(),
        ensures
            final(self).wf(),
            final(self).same_but_editor(old(self)),
            Editor::went_up(&old(self).editor, &final(self).editor),
    {
        self.editor.history_up();
    }

    /// Goes down in the picker, or forward in the history.
    pub fn history_down(&mut self)
        requires
            old(self).wf(),
        ensures
            final(self).wf(),
            final(self).same_but_editor(old(self)),
            Editor::went_down(&old(self).editor, &final(self).editor),
    {
        self.editor.history_down();
    }

    /// Accepts the selected result of the picker.
    pub fn select_picker_item(&mut self)
        requires
            old(self).wf(),
        ensures
            final(self).wf(),
            final(self).same_but_editor(old(self)),
            Editor::accepted(&old(self).editor, &final(self).editor),
    {
        self.editor.select_picker_item();
    }

    /// Dismisses the picker; with no picker open, empties the line.
    pub fn cancel_picker(&mut self)
        requires
            old(self).wf(),
        ensures
            final(self).wf(),
            final(self).same_but_editor(old(self)),
            Editor::dismissed(&old(self).editor, &final(self).editor),
    {
        self.editor.cancel_picker();
    }

    /// Puts a pasted text into the line.
    pub fn paste(&mut self, text: &str)
        requires
            old(self).wf(),
        ensures
            final(self).wf(),
            final(self).same_but_editor(old(self)),
            Editor::pasted_in(&old(self).editor, &final(self).editor, text@),
    {
        self.editor.paste(text);
    }
}

/// What a key makes of the application `pre`, and what is to be done then:
/// what the step that the key asks for makes of it.
pub open spec fn key_handled(
    pre: &App,
    post: &App,
    key: Key,
    supply: Supply,
    env: &Surroundings,
    out: Effect,
) -> bool {
    match action_of(
        key,
        pre.permission_modal is Some,
        !(pre.state is Idle),
        pre.editor.picker_mode != PickerMode::Closed,
    ) {
        KeyAction::Quit => out is Nothing && *post == (App { should_quit: true, ..*pre }),
        KeyAction::Ignore => out is Nothing && *post == *pre,
        KeyAction::Type(c) => out is Nothing && post.same_but_editor(pre) && Editor::typed(
            &pre.editor,
            &post.editor,
            c,
        ),
        KeyAction::Delete => out is Nothing && post.same_but_editor(pre) && Editor::erased(
            &pre.editor,
            &post.editor,
        ),
        KeyAction::CursorLeft => out is Nothing && post.same_but_editor(pre) && Editor::moved_left(
            &pre.editor,
            &post.editor,
        ),
        KeyAction::CursorRight => out is Nothing && post.same_but_editor(pre)
            && Editor::moved_right(&pre.editor, &post.editor),
        KeyAction::HistoryUp => out is Nothing && post.same_but_editor(pre) && Editor::went_up(
            &pre.editor,
            &post.editor,
        ),
        KeyAction::HistoryDown => out is Nothing && post.same_but_editor(pre) && Editor::went_down(
            &pre.editor,
            &post.editor,
        ),
        KeyAction::AcceptPick => out is Nothing && post.same_but_editor(pre) && Editor::accepted(
            &pre.editor,
            &post.editor,
        ),
        KeyAction::CancelPick => out is Nothing && post.same_but_editor(pre) && Editor::dismissed(
            &pre.editor,
            &post.editor,
        ),
        KeyAction::Abort => out is Nothing && App::aborted(pre, post),
        KeyAction::ScrollUp => out is Nothing && App::scrolled_up(pre, post),
        KeyAction::ScrollDown => out is Nothing && App::scrolled_down(pre, post),
        KeyAction::ModalUp => out is Nothing && App::moved_up(pre, post),
        KeyAction::ModalDown => out is Nothing && App::moved_down(pre, post),
        KeyAction::ModalSelect => App::answered(pre, post, env, out),
        KeyAction::ModalCancel => App::refused(pre, post, env, out),
        KeyAction::Submit => App::submitted(pre, post, supply, env.now, out),
    }
}

/// Carries out what a key asks for. `supply` holds what `submit_needs` asked
/// for, for the case that the key submits the line.
pub fn handle_key(app: &mut App, key: Key, supply: Supply, env: &Surroundings) -> (out: Effect)
    requires
        old(app).wf(),
    ensures
        final(app).wf(),
        key_handled(old(app), final(app), key, supply, env, out),
{
    let action = key_action(key, app.has_modal(), !app.is_idle(), app.picker_active());
    match action {
        KeyAction::Quit => {
            app.should_quit = true;
            Effect::Nothing
        },
        KeyAction::ModalUp => {
            app.modal_up();
            Effect::Nothing
        },
        KeyAction::ModalDown => {
            app.modal_down();
            Effect::Nothing
        },
        KeyAction::ModalSelect => app.modal_select(env),
        KeyAction::ModalCancel => app.modal_cancel(env),
        KeyAction::AcceptPick => {
            app.select_picker_item();
            Effect::Nothing
        },
        KeyAction::Submit => app.submit_input(supply, env.now),
        KeyAction::Abort => {
            app.abort_request();
            Effect::Nothing
        },
        KeyAction::CancelPick => {
            app.cancel_picker();
            Effect::Nothing
        },
        KeyAction::Delete => {
            app.delete_char();
            Effect::Nothing
        },
        KeyAction::HistoryUp => {
            app.history_up();
            Effect::Nothing
        },
        KeyAction::HistoryDown => {
            app.history_down();
            Effect::Nothing
        },
        KeyAction::CursorLeft => {
            app.move_cursor_left();
            Effect::Nothing
        },
        KeyAction::CursorRight => {
            app.move_cursor_right();
            Effect::Nothing
        },
        KeyAction::ScrollUp => {
            app.scroll_up();
            Effect::Nothing
        },
        KeyAction::ScrollDown => {
            app.scroll_down();
            Effect::Nothing
        },
        KeyAction::Type(c) => {
            app.insert_char(c);
            Effect::Nothing
        },
        KeyAction::Ignore => Effect::Nothing,
    }
}

/// What an event makes of the application `pre`, and what is to be done
/// then. A key first takes the error off the screen.
pub open spec fn event_handled(
    pre: &App,
    post: &App,
    event: Event,
    supply: Supply,
    env: &Surroundings,
    out: Effect,
) -> bool {
    match event {
        Event::Key(key) => key_handled(&(App { error: None, ..*pre }), post, key, supply, env, out),
        Event::Paste(text) => out is Nothing && post.same_but_editor(pre) && Editor::pasted_in(
            &pre.editor,
            &post.editor,
            text@,
        ),
        Event::ScrollUp => out is Nothing && App::scrolled_up(pre, post),
        Event::ScrollDown => out is Nothing && App::scrolled_down(pre, post),
        Event::Other => out is Nothing && *post == *pre,
    }
}

/// Carries out an event of the terminal. Any key takes the error off the
/// screen.
pub fn handle_event(app: &mut App, event: Event, supply: Supply, env: &Surroundings) -> (out: Effect)
    requires
        old(app).wf(),
    ensures
        final(app).wf(),
        event_handled(old(app), final(app), event, supply, env, out),
{
    match event {
        Event::Paste(text) => {
            app.paste(text.as_str());
            Effect::Nothing
        },
        Event::Key(key) => {
            app.error = None;
            handle_key(app, key, supply, env)
        },
        Event::ScrollUp => {
            app.scroll_up();
            Effect::Nothing
        },
        Event::ScrollDown => {
            app.scroll_down();
            Effect::Nothing
        },
        Event::Other => Effect::Nothing,
    }
}

} // verus!
