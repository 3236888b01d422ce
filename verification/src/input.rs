//! Key presses, the intents they decode to, and the reducer that applies
//! an intent to the application's state.

use crate::app::{after_submit, Application, ApplicationView};
use crate::message::{Message, MessageType, MessageView};
use crate::network::after_connect;
use vstd::arithmetic::div_mod::{
    lemma_add_mod_noop,
    lemma_add_mod_noop_right,
    lemma_fundamental_div_mod,
    lemma_fundamental_div_mod_converse,
    lemma_mod_add_multiples_vanish,
    lemma_mod_multiples_vanish,
    lemma_small_mod,
};
use vstd::prelude::*;

verus! {

/// The flag of the shift key among the modifiers of a key event.
pub const SHIFT: u8 = 0b0000_0001;

/// The flag of the control key among the modifiers of a key event.
pub const CONTROL: u8 = 0b0000_0010;

/// The flag of the alt key among the modifiers of a key event.
pub const ALT: u8 = 0b0000_0100;

/// The key of a key event. Keys that the client gives no meaning to are
/// `Other`.
#[derive(Debug, Clone, Copy, PartialEq, Eq, Structural)]
pub enum KeyCode {
    Backspace,
    Enter,
    Up,
    Down,
    Esc,
    Char(char),
    Other,
}

/// Whether a key went down, is held, or came up.
#[derive(Debug, Clone, Copy, PartialEq, Eq, Structural)]
pub enum KeyEventKind {
    Press,
    Repeat,
    Release,
}

/// One event of the keyboard.
#[derive(Debug, Clone, Copy, PartialEq, Eq, Structural)]
pub struct KeyEvent {
    pub code: KeyCode,
    /// The flags of the modifiers held with the key, one bit each. A
    /// shortcut asks for the control key and no other.
    pub modifiers: u8,
    pub kind: KeyEventKind,
}

/// The direction of a move of the picker's selection.
#[derive(Debug, Clone, Copy, PartialEq, Eq, Structural)]
pub enum Step {
    Up,
    Down,
}

impl Step {
    /// The change of the row number that the step asks for.
    pub open spec fn delta(self) -> int {
        match self {
            Step::Up => -1,
            Step::Down => 1,
        }
    }
}

/// What one event asks of the application.
#[derive(Debug, Clone, Copy, PartialEq, Eq, Structural)]
pub enum Intent {
    SubmitLine,
    TogglePicker,
    MoveSelection(Step),
    ConfirmSelection,
    ClosePicker,
    Quit,
    Noop,
}

/// The intent of a key pressed while the picker is shown.
pub open spec fn picker_intent(code: KeyCode) -> Intent {
    match code {
        KeyCode::Up => Intent::MoveSelection(Step::Up),
        KeyCode::Down => Intent::MoveSelection(Step::Down),
        KeyCode::Enter => Intent::ConfirmSelection,
        KeyCode::Esc => Intent::ClosePicker,
        _ => Intent::Noop,
    }
}

/// The intent of a key pressed while the picker is hidden and `input` is
/// the line typed so far.
pub open spec fn editor_intent(input: Seq<char>, code: KeyCode, modifiers: u8) -> Intent {
    match code {
        KeyCode::Char(c) => if modifiers == CONTROL && c == 'c' {
            Intent::Quit
        } else if modifiers == CONTROL && c == ' ' {
            Intent::TogglePicker
        } else {
            Intent::Noop
        },
        KeyCode::Enter => if input.len() > 0 {
            Intent::SubmitLine
        } else {
            Intent::Noop
        },
        _ => Intent::Noop,
    }
}

/// The typed line after a key pressed while the picker is hidden.
pub open spec fn edited_input(input: Seq<char>, code: KeyCode, modifiers: u8) -> Seq<char> {
    match code {
        KeyCode::Char(c) => if modifiers == CONTROL && (c == 'c' || c == ' ') {
            input
        } else {
            input.push(c)
        },
        KeyCode::Backspace => if input.len() > 0 {
            input.drop_last()
        } else {
            input
        },
        _ => input,
    }
}

/// The intent that `event` decodes to in state `app`. No event, and any
/// event but a press, asks for nothing.
pub open spec fn decoded(app: ApplicationView, event: Option<KeyEvent>) -> Intent {
    match event {
        Some(key) => if key.kind != KeyEventKind::Press {
            Intent::Noop
        } else if app.show_popup {
            picker_intent(key.code)
        } else {
            editor_intent(app.input, key.code, key.modifiers)
        },
        None => Intent::Noop,
    }
}

/// The state after `event` was decoded: only the typed line can differ,
/// and only by a key pressed while the picker is hidden.
pub open spec fn after_decode(app: ApplicationView, event: Option<KeyEvent>) -> ApplicationView {
    match event {
        Some(key) => if key.kind == KeyEventKind::Press && !app.show_popup {
            ApplicationView { input: edited_input(app.input, key.code, key.modifiers), ..app }
        } else {
            app
        },
        None => app,
    }
}

/// The selected row after one step among `count` rows: the step wraps at
/// both ends, and nothing moves where there are no rows.
pub open spec fn moved(selected: nat, step: Step, count: nat) -> nat {
    if count == 0 {
        selected
    } else {
        ((selected + step.delta() + count) % (count as int)) as nat
    }
}

/// The state after the highlighted target was confirmed: where the row
/// exists, the session is asked to connect to it and the picker is hidden,
/// whether or not the session accepts. Where there is no such row nothing
/// changes.
pub open spec fn after_confirm(app: ApplicationView) -> ApplicationView {
    if app.selected < app.registry.len() {
        ApplicationView {
            session: after_connect(
                app.session,
                app.registry[app.selected as int].name,
                app.tick,
            ),
            show_popup: false,
            ..app
        }
    } else {
        app
    }
}

/// The state after `intent` was applied.
pub open spec fn applied(app: ApplicationView, intent: Intent) -> ApplicationView {
    match intent {
        Intent::SubmitLine => after_submit(app),
        Intent::TogglePicker => ApplicationView { show_popup: !app.show_popup, ..app },
        Intent::MoveSelection(step) => ApplicationView {
            selected: moved(app.selected, step, app.registry.len()),
            ..app
        },
        Intent::ConfirmSelection => after_confirm(app),
        Intent::ClosePicker => ApplicationView { show_popup: false, ..app },
        Intent::Quit => app,
        Intent::Noop => app,
    }
}

/// What applying `intent` in state `app` asks of the event loop.
pub open spec fn request(app: ApplicationView, intent: Intent) -> MessageView {
    match intent {
        Intent::SubmitLine => MessageView {
            message_type: MessageType::SendInput,
            content: Some(app.input),
        },
        Intent::TogglePicker => MessageView { message_type: MessageType::ShowPopup, content: None },
        Intent::ClosePicker => MessageView { message_type: MessageType::ShowPopup, content: None },
        Intent::Quit => MessageView { message_type: MessageType::Quit, content: None },
        _ => MessageView { message_type: MessageType::Noop, content: None },
    }
}

/// The state after `intent` was applied `times` times in a row.
pub open spec fn applied_times(app: ApplicationView, intent: Intent, times: nat) -> ApplicationView
    decreases times,
{
    if times == 0 {
        app
    } else {
        applied(applied_times(app, intent, (times - 1) as nat), intent)
    }
}

/// One step from row `x % n` leads to row `(x + d) % n`.
proof fn lemma_step_mod(x: int, d: int, n: int)
    requires
        n > 0,
    ensures
        ((x % n) + d + n) % n == (x + d) % n,
{
    lemma_mod_add_multiples_vanish((x % n) + d, n);
    lemma_add_mod_noop(x, d, n);
    lemma_add_mod_noop_right(x % n, d, n);
}

/// After `times` steps in one direction the selection stands `times` rows
/// further along the cycle, and nothing else has changed.
proof fn lemma_selection_after_steps(app: ApplicationView, step: Step, times: nat)
    requires
        app.registry.len() >= 1,
        app.selected < app.registry.len(),
    ensures
        applied_times(app, Intent::MoveSelection(step), times) == (ApplicationView {
            selected: ((app.selected + times * step.delta()) % (app.registry.len() as int)) as nat,
            ..app
        }),
    decreases times,
{
    let n = app.registry.len() as int;
    if times == 0 {
        lemma_small_mod(app.selected, app.registry.len());
    } else {
        let before = (times - 1) as nat;
        lemma_selection_after_steps(app, step, before);
        let x = app.selected + before * step.delta();
        assert(x + step.delta() == app.selected + times * step.delta()) by (nonlinear_arith)
            requires
                x == app.selected + before * step.delta(),
                before == times - 1,
        ;
        lemma_step_mod(x, step.delta(), n);
    }
}

/// Stepping the selection as many times as the picker has rows, all in one
/// direction, returns it to the row it started from and changes nothing
/// else.
pub proof fn lemma_selection_wraps(app: ApplicationView, step: Step)
    requires
        app.registry.len() >= 1,
        app.selected < app.registry.len(),
    ensures
        applied_times(app, Intent::MoveSelection(step), app.registry.len()) == app,
{
    let n = app.registry.len();
    lemma_selection_after_steps(app, step, n);
    lemma_mod_multiples_vanish(step.delta(), app.selected as int, n as int);
    assert(n * step.delta() == (n as int) * step.delta());
    lemma_small_mod(app.selected, n);
}

/// Where the picker has no rows, a step in either direction changes
/// nothing.
pub proof fn lemma_selection_stays_on_empty_registry(app: ApplicationView, step: Step)
    requires
        app.registry.len() == 0,
    ensures
        applied(app, Intent::MoveSelection(step)) == app,
{
}

/// The selected row after one step among `count` rows.
pub fn move_selection(selected: usize, step: Step, count: usize) -> (row: usize)
    ensures
        row == moved(selected as nat, step, count as nat),
        count > 0 ==> row < count,
{
    if count == 0 {
        return selected;
    }
    let r: usize = selected % count;
    proof {
        let q = selected as int / count as int;
        lemma_fundamental_div_mod(selected as int, count as int);
        assert(selected as int == count as int * q + r as int);
        match step {
            Step::Down => {
                if r + 1 == count {
                    assert(selected + 1 + count == (q + 2) * count + 0) by (nonlinear_arith)
                        requires
                            selected as int == count as int * q + r as int,
                            r + 1 == count,
                    ;
                    lemma_fundamental_div_mod_converse(
                        selected + 1 + count,
                        count as int,
                        q + 2,
                        0,
                    );
                } else {
                    assert(selected + 1 + count == (q + 1) * count + (r + 1)) by (nonlinear_arith)
                        requires
                            selected as int == count as int * q + r as int,
                    ;
                    lemma_fundamental_div_mod_converse(
                        selected + 1 + count,
                        count as int,
                        q + 1,
                        r + 1,
                    );
                }
            },
            Step::Up => {
                if r == 0 {
                    assert(selected - 1 + count == q * count + (count - 1)) by (nonlinear_arith)
                        requires
                            selected as int == count as int * q + r as int,
                            r == 0,
                    ;
                    lemma_fundamental_div_mod_converse(
                        selected - 1 + count,
                        count as int,
                        q,
                        count - 1,
                    );
                } else {
                    assert(selected - 1 + count == (q + 1) * count + (r - 1)) by (nonlinear_arith)
                        requires
                            selected as int == count as int * q + r as int,
                    ;
                    lemma_fundamental_div_mod_converse(
                        selected - 1 + count,
                        count as int,
                        q + 1,
                        r - 1,
                    );
                }
            },
        }
    }
    match step {
        Step::Down => if r + 1 == count {
            0
        } else {
            r + 1
        },
        Step::Up => if r == 0 {
            count - 1
        } else {
            r - 1
        },
    }
}

impl<T> Application<T> {
    /// Decodes one poll of the keyboard into one intent, editing the typed
    /// line where the key is a key of the editor.
    pub fn decode(&mut self, event: Option<KeyEvent>) -> (intent: Intent)
        ensures
            intent == decoded(old(self)@, event),
            final(self)@ == after_decode(old(self)@, event),
            final(self).network_manager == old(self).network_manager,
    {
        let key = match event {
            Some(key) => key,
            None => {
                return Intent::Noop;
            },
        };
        if key.kind != KeyEventKind::Press {
            return Intent::Noop;
        }
        if self.show_popup {
            return match key.code {
                KeyCode::Up => Intent::MoveSelection(Step::Up),
                KeyCode::Down => Intent::MoveSelection(Step::Down),
                KeyCode::Enter => Intent::ConfirmSelection,
                KeyCode::Esc => Intent::ClosePicker,
                _ => Intent::Noop,
            };
        }
        match key.code {
            KeyCode::Char(c) => {
                if key.modifiers == CONTROL && c == 'c' {
                    Intent::Quit
                } else if key.modifiers == CONTROL && c == ' ' {
                    Intent::TogglePicker
                } else {
                    self.input.push(c);
                    Intent::Noop
                }
            },
            KeyCode::Backspace => {
                self.input.pop();
                Intent::Noop
            },
            KeyCode::Enter => {
                if !self.input.as_str().is_empty() {
                    Intent::SubmitLine
                } else {
                    Intent::Noop
                }
            },
            _ => Intent::Noop,
        }
    }

    /// Applies `intent` to the state and returns what is left for the event
    /// loop to do. No intent creates or releases a transport.
    pub fn apply(&mut self, intent: Intent) -> (message: Message)
        ensures
            final(self)@ == applied(old(self)@, intent),
            message@ == request(old(self)@, intent),
            final(self).network_manager.handle() == old(self).network_manager.handle(),
            !(intent is ConfirmSelection) ==> final(self).network_manager == old(self).network_manager,
    {
        match intent {
            Intent::SubmitLine => {
                let line = self.submit();
                Message::send_input(line)
            },
            Intent::TogglePicker => {
                self.toggle_popup();
                Message::show_popup()
            },
            Intent::MoveSelection(step) => {
                self.selected_connection =
                move_selection(self.selected_connection, step, self.config.len());
                Message::none()
            },
            Intent::ConfirmSelection => {
                if let Some(connection) = self.config.get_connection(self.selected_connection) {
                    let _ = self.network_manager.connect(connection, self.tick);
                    self.show_popup = false;
                }
                Message::none()
            },
            Intent::ClosePicker => {
                self.show_popup = false;
                Message::show_popup()
            },
            Intent::Quit => Message::quit(),
            Intent::Noop => Message::none(),
        }
    }

    /// Handles a key pressed while the picker is shown: moves the selection,
    /// confirms it, closes the picker, or does nothing.
    pub fn handle_popup_input(&mut self, key_event: KeyEvent) -> (message: Message)
        ensures
            final(self)@ == applied(old(self)@, picker_intent(key_event.code)),
            message@ == request(old(self)@, picker_intent(key_event.code)),
            final(self).network_manager.handle() == old(self).network_manager.handle(),
    {
        let intent = match key_event.code {
            KeyCode::Up => Intent::MoveSelection(Step::Up),
            KeyCode::Down => Intent::MoveSelection(Step::Down),
            KeyCode::Enter => Intent::ConfirmSelection,
            KeyCode::Esc => Intent::ClosePicker,
            _ => Intent::Noop,
        };
        self.apply(intent)
    }

    /// Handles what one poll of the keyboard brought: decodes it and applies
    /// the intent.
    pub fn handle_input(&mut self, event: Option<KeyEvent>) -> (message: Message)
        ensures
            final(self)@ == applied(after_decode(old(self)@, event), decoded(old(self)@, event)),
            message@ == request(after_decode(old(self)@, event), decoded(old(self)@, event)),
            final(self).network_manager.handle() == old(self).network_manager.handle(),
    {
        let intent = self.decode(event);
        self.apply(intent)
    }
}

} // verus!
