//! Laws of the session state machine, proved once and for all over the
//! transition function `handle_event_spec`.

use vstd::prelude::*;

use crate::render::clamped_offset;
use crate::session::handle_event_spec;
use crate::session::ChatView;
use crate::session::InputMode;
use crate::session::KeyCode;

verus! {

/// The state after a whole sequence of keys, first key first.
pub open spec fn run_events(s: ChatView, keys: Seq<KeyCode>) -> ChatView
    decreases keys.len(),
{
    if keys.len() == 0 {
        s
    } else {
        run_events(handle_event_spec(s, keys[0]), keys.drop_first())
    }
}

/// No single key moves the scroll offset below zero; a Down key never
/// decreases it, and never moves it past `u16::MAX`.
pub proof fn lemma_scroll_step(s: ChatView, key: KeyCode)
    ensures
        handle_event_spec(s, key).scroll >= 0,
        key == KeyCode::Down ==> handle_event_spec(s, key).scroll >= s.scroll,
        key == KeyCode::Down && s.scroll <= u16::MAX ==> handle_event_spec(s, key).scroll
            <= u16::MAX,
{
}

/// From any representable scroll offset, no sequence of keys — Up, Down or
/// any other — can drive the offset below zero or past `u16::MAX`.
pub proof fn lemma_scroll_in_range(s: ChatView, keys: Seq<KeyCode>)
    requires
        s.scroll <= u16::MAX,
    ensures
        0 <= run_events(s, keys).scroll <= u16::MAX,
    decreases keys.len(),
{
    if keys.len() > 0 {
        lemma_scroll_in_range(handle_event_spec(s, keys[0]), keys.drop_first());
    }
}

/// Committing in Editing mode with an empty buffer changes neither the log
/// nor the buffer.
pub proof fn lemma_commit_empty(s: ChatView)
    requires
        s.mode == InputMode::Editing,
        s.input.len() == 0,
    ensures
        handle_event_spec(s, KeyCode::Enter).log == s.log,
        handle_event_spec(s, KeyCode::Enter).input == s.input,
{
}

/// Committing in Editing mode with a non-empty buffer appends exactly one
/// log entry, equal to the prior buffer contents, and leaves the buffer
/// empty.
pub proof fn lemma_commit_nonempty(s: ChatView)
    requires
        s.mode == InputMode::Editing,
        s.input.len() > 0,
    ensures
        handle_event_spec(s, KeyCode::Enter).log == s.log.push(s.input),
        handle_event_spec(s, KeyCode::Enter).input.len() == 0,
{
}

/// Esc leaves Editing mode for Normal mode with the buffer contents
/// preserved.
pub proof fn lemma_esc_preserves_buffer(s: ChatView)
    requires
        s.mode == InputMode::Editing,
    ensures
        handle_event_spec(s, KeyCode::Esc).mode == InputMode::Normal,
        handle_event_spec(s, KeyCode::Esc).input == s.input,
        handle_event_spec(s, KeyCode::Esc).log == s.log,
{
}

/// Re-entering Editing mode via 'e' from Normal mode never clears the
/// buffer.
pub proof fn lemma_edit_entry_preserves_buffer(s: ChatView)
    requires
        s.mode == InputMode::Normal,
    ensures
        handle_event_spec(s, KeyCode::Char('e')).mode == InputMode::Editing,
        handle_event_spec(s, KeyCode::Char('e')).input == s.input,
        handle_event_spec(s, KeyCode::Char('e')).log == s.log,
{
}

/// The clamped scroll offset always lands in the inclusive range `[0, n]`.
pub proof fn lemma_clamp_in_range(off: nat, n: nat)
    ensures
        0 <= clamped_offset(off, n) <= n,
        off <= n ==> clamped_offset(off, n) == off,
{
}

} // verus!
