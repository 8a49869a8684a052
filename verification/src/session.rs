//! The chat session controller: the interaction state machine that owns the
//! current mode, the input buffer, the message log, the scroll offset and the
//! quit flag, and reacts to one keyboard key at a time.

use vstd::prelude::*;

use crate::text::pop_char;
use crate::text::push_char;

verus! {

/// The two-valued interaction mode gating which keys have meaning.
#[derive(Clone, Copy, Debug, PartialEq, Eq)]
pub enum InputMode {
    Normal,
    Editing,
}

/// A keyboard key, as far as the controller distinguishes keys. Keys the
/// controller does not react to are all `Other`.
#[derive(Clone, Copy, Debug, PartialEq, Eq)]
pub enum KeyCode {
    Char(char),
    Enter,
    Backspace,
    Esc,
    Up,
    Down,
    Other,
}

/// The mathematical model of a session: the five state components as plain
/// mathematical values.
#[verifier::ext_equal]
pub ghost struct ChatView {
    pub mode: InputMode,
    pub input: Seq<char>,
    pub log: Seq<Seq<char>>,
    pub quit: bool,
    pub scroll: nat,
}

/// The chat session state. The message log is append-only; the scroll offset
/// counts messages considered above the top of the viewport.
pub struct ChatInterface {
    pub input: String,
    pub input_mode: InputMode,
    pub chat_history: Vec<String>,
    pub quit_flag: bool,
    pub scroll_y: u16,
}

impl View for ChatInterface {
    type V = ChatView;

    open spec fn view(&self) -> ChatView {
        ChatView {
            mode: self.input_mode,
            input: self.input@,
            log: self.chat_history.deep_view(),
            quit: self.quit_flag,
            scroll: self.scroll_y as nat,
        }
    }
}

/// The transition function of the state machine: the session state after one
/// key, exactly as `ChatInterface::handle_event` performs it.
///
/// In Normal mode: 'e' enters Editing, 'q' requests quit, Up and Down move
/// the scroll offset (Up stops at 0, Down saturates at `u16::MAX`), all else
/// is a no-op. In Editing mode: Enter commits a non-empty buffer to the log
/// and drains it (an empty buffer is a no-op), a character key appends to the
/// buffer, Backspace drops the last buffered character, Esc returns to Normal
/// mode with the buffer preserved, all else is a no-op.
pub open spec fn handle_event_spec(s: ChatView, key: KeyCode) -> ChatView {
    match s.mode {
        InputMode::Normal => match key {
            KeyCode::Char(c) => if c == 'e' {
                ChatView { mode: InputMode::Editing, ..s }
            } else if c == 'q' {
                ChatView { quit: true, ..s }
            } else {
                s
            },
            KeyCode::Up => if s.scroll > 0 {
                ChatView { scroll: (s.scroll - 1) as nat, ..s }
            } else {
                s
            },
            KeyCode::Down => if s.scroll < u16::MAX {
                ChatView { scroll: s.scroll + 1, ..s }
            } else {
                s
            },
            _ => s,
        },
        InputMode::Editing => match key {
            KeyCode::Enter => if s.input.len() > 0 {
                ChatView { input: Seq::empty(), log: s.log.push(s.input), ..s }
            } else {
                s
            },
            KeyCode::Char(c) => ChatView { input: s.input.push(c), ..s },
            KeyCode::Backspace => if s.input.len() > 0 {
                ChatView { input: s.input.drop_last(), ..s }
            } else {
                s
            },
            KeyCode::Esc => ChatView { mode: InputMode::Normal, ..s },
            _ => s,
        },
    }
}

impl ChatInterface {
    /// A fresh session: Normal mode, empty buffer, empty log, offset 0, no
    /// quit requested.
    pub fn new() -> (r: ChatInterface)
        ensures
            r@.mode == InputMode::Normal,
            r@.input == Seq::<char>::empty(),
            r@.log == Seq::<Seq<char>>::empty(),
            r@.quit == false,
            r@.scroll == 0,
    {
        let r = ChatInterface {
            input: String::new(),
            input_mode: InputMode::Normal,
            chat_history: Vec::new(),
            quit_flag: false,
            scroll_y: 0,
        };
        proof {
            assert(r@.log =~= Seq::<Seq<char>>::empty());
        }
        r
    }

    /// Processes one keyboard key, per the state machine `handle_event_spec`.
    pub fn handle_event(&mut self, key: KeyCode)
        ensures
            final(self)@ == handle_event_spec(old(self)@, key),
    {
        match self.input_mode {
            InputMode::Normal => {
                match key {
                    KeyCode::Char(c) => {
                        if c == 'e' {
                            self.input_mode = InputMode::Editing;
                        } else if c == 'q' {
                            self.quit_flag = true;
                        }
                    },
                    KeyCode::Up => {
                        if self.scroll_y > 0 {
                            self.scroll_y = self.scroll_y - 1;
                        }
                    },
                    KeyCode::Down => {
                        if self.scroll_y < u16::MAX {
                            self.scroll_y = self.scroll_y + 1;
                        }
                    },
                    _ => {},
                }
            },
            InputMode::Editing => {
                match key {
                    KeyCode::Enter => {
                        if !self.input.as_str().is_empty() {
                            let msg = self.input.clone();
                            self.input = String::new();
                            self.chat_history.push(msg);
                        }
                    },
                    KeyCode::Char(c) => {
                        push_char(&mut self.input, c);
                    },
                    KeyCode::Backspace => {
                        let _ = pop_char(&mut self.input);
                    },
                    KeyCode::Esc => {
                        self.input_mode = InputMode::Normal;
                    },
                    _ => {},
                }
            },
        }
        proof {
            assert(self@ =~~= handle_event_spec(old(self)@, key));
        }
    }

    /// Appends `message` verbatim to the log, whatever the mode; nothing else
    /// changes.
    pub fn push_message(&mut self, message: String)
        ensures
            final(self)@.log == old(self)@.log.push(message@),
            final(self)@.mode == old(self)@.mode,
            final(self)@.input == old(self)@.input,
            final(self)@.quit == old(self)@.quit,
            final(self)@.scroll == old(self)@.scroll,
    {
        let ghost pre = self@.log;
        self.chat_history.push(message);
        proof {
            assert(self@.log =~~= pre.push(message@));
        }
    }

    /// Reports whether the session has requested termination.
    pub fn check_quit(&self) -> (r: bool)
        ensures
            r == self@.quit,
    {
        self.quit_flag
    }

    /// The number of messages in the log.
    pub fn message_count(&self) -> (n: usize)
        ensures
            n == self@.log.len(),
    {
        self.chat_history.len()
    }

    /// The message at index `i` of the log.
    pub fn message_at(&self, i: usize) -> (r: String)
        requires
            i < self@.log.len(),
        ensures
            r@ == self@.log[i as int],
    {
        self.chat_history[i].clone()
    }

    /// The current contents of the input buffer.
    pub fn input_text(&self) -> (r: String)
        ensures
            r@ == self@.input,
    {
        self.input.clone()
    }

    /// Whether the session is in Editing mode.
    pub fn is_editing(&self) -> (r: bool)
        ensures
            r == (self@.mode == InputMode::Editing),
    {
        match self.input_mode {
            InputMode::Editing => true,
            InputMode::Normal => false,
        }
    }

    /// The raw scroll offset, as last set by key handling or clamped by
    /// render-model building.
    pub fn scroll_offset(&self) -> (r: u16)
        ensures
            r as nat == self@.scroll,
    {
        self.scroll_y
    }
}

} // verus!
