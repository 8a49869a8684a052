//! Building the render model: the tooltip for the current mode, the input
//! line with its cursor column, and the display lines derived from the
//! message log under the scroll/overflow policy.
//!
//! The policy: the scroll offset is first clamped to `[0, N]` where `N` is
//! the log length. With offset 0 the display lines are exactly the indexed
//! messages. With `0 < offset < N` one synthetic line
//! "...{offset} messages above" is inserted at position `offset`. With
//! `offset >= N` (and `offset > 0`) the synthetic line is appended instead.

use vstd::prelude::*;

use vstd::string::StringExecFns;

use crate::session::ChatInterface;
use crate::session::InputMode;
use crate::text::dec_seq;
use crate::text::dec_string;

verus! {

/// The hint line shown below the input panel while in Normal mode.
pub open spec fn normal_tooltip() -> Seq<char> {
    "Press q to exit, e to start editing, UP/DOWN to scroll."@
}

/// The hint line shown below the input panel while in Editing mode.
pub open spec fn editing_tooltip() -> Seq<char> {
    "Press Esc to stop editing, Enter to record the message"@
}

/// A message as displayed: its zero-based index, a ": " separator, then the
/// message text.
pub open spec fn indexed_line(i: nat, m: Seq<char>) -> Seq<char> {
    dec_seq(i) + ": "@ + m
}

/// The log rendered message by message, each with its index prefix.
pub open spec fn indexed_lines(log: Seq<Seq<char>>) -> Seq<Seq<char>> {
    Seq::new(log.len(), |i: int| indexed_line(i as nat, log[i]))
}

/// The synthetic overflow-indicator line for a (clamped) scroll offset.
pub open spec fn synthetic_line(off: nat) -> Seq<char> {
    "..."@ + dec_seq(off) + " messages above"@
}

/// The offset clamped to the inclusive range `[0, n]`.
pub open spec fn clamped_offset(off: nat, n: nat) -> nat {
    if off <= n {
        off
    } else {
        n
    }
}

/// The display lines for a log and an already-clamped offset: the indexed
/// messages with the synthetic line inserted at the offset position when the
/// offset is strictly inside the log, appended when the offset is at or past
/// the end, and absent when the offset is 0.
pub open spec fn display_lines(log: Seq<Seq<char>>, off: nat) -> Seq<Seq<char>> {
    if off == 0 {
        indexed_lines(log)
    } else if off < log.len() {
        indexed_lines(log).insert(off as int, synthetic_line(off))
    } else {
        indexed_lines(log).push(synthetic_line(off))
    }
}

/// The displayed column width of a string, as the terminal will paint it; a
/// function of the characters alone.
pub uninterp spec fn display_width(s: Seq<char>) -> nat;

/// Relies on unicode_width::UnicodeWidthStr::width: the displayed width in
/// columns of a string, which depends on its characters alone; the empty
/// string has width 0.
#[verifier::external_body]
fn str_width(s: &str) -> (r: usize)
    ensures
        r as nat == display_width(s@),
        s@.len() == 0 ==> r == 0,
{
    unicode_width::UnicodeWidthStr::width(s)
}

/// Everything a screen-rendering collaborator needs to paint one frame.
pub struct RenderModel {
    /// The mode-dependent hint line.
    pub tooltip: String,
    /// The current input buffer contents.
    pub input_text: String,
    /// Whether the session is in Editing mode (cursor shown, input
    /// highlighted).
    pub editing: bool,
    /// The column just past the displayed input text, where the cursor goes
    /// while editing.
    pub cursor_col: usize,
    /// The display lines: indexed messages plus, possibly, the synthetic
    /// overflow-indicator line.
    pub lines: Vec<String>,
    /// The clamped scroll offset to apply when presenting `lines`.
    pub scroll: u16,
}

/// Renders the synthetic overflow-indicator line for offset `off`.
fn synthetic_string(off: usize) -> (r: String)
    ensures
        r@ == synthetic_line(off as nat),
{
    let mut s = String::from_str("...");
    let d = dec_string(off);
    s.append(d.as_str());
    s.append(" messages above");
    proof {
        assert(s@ =~= synthetic_line(off as nat));
    }
    s
}

impl ChatInterface {
    /// Builds the render model for the current state. As a documented side
    /// effect, clamps the stored scroll offset to `[0, N]` (`N` = log
    /// length); nothing else of the session changes.
    pub fn build_render_model(&mut self) -> (m: RenderModel)
        ensures
            final(self)@.scroll == clamped_offset(old(self)@.scroll, old(self)@.log.len()),
            final(self)@.mode == old(self)@.mode,
            final(self)@.input == old(self)@.input,
            final(self)@.log == old(self)@.log,
            final(self)@.quit == old(self)@.quit,
            m.scroll as nat == final(self)@.scroll,
            m.editing == (old(self)@.mode == InputMode::Editing),
            m.tooltip@ == if old(self)@.mode == InputMode::Editing {
                editing_tooltip()
            } else {
                normal_tooltip()
            },
            m.input_text@ == old(self)@.input,
            display_width(old(self)@.input) + 1 <= usize::MAX ==> m.cursor_col == display_width(
                old(self)@.input,
            ) + 1,
            display_width(old(self)@.input) + 1 > usize::MAX ==> m.cursor_col == usize::MAX,
            m.lines.deep_view() == display_lines(old(self)@.log, final(self)@.scroll),
    {
        let n = self.chat_history.len();
        if self.scroll_y as usize > n {
            self.scroll_y = n as u16;
        }
        let editing = match self.input_mode {
            InputMode::Editing => true,
            InputMode::Normal => false,
        };
        let tooltip = if editing {
            String::from_str("Press Esc to stop editing, Enter to record the message")
        } else {
            String::from_str("Press q to exit, e to start editing, UP/DOWN to scroll.")
        };
        let input_text = self.input.clone();
        let w = str_width(self.input.as_str());
        let cursor_col = if w < usize::MAX {
            w + 1
        } else {
            usize::MAX
        };

        let ghost logv = self@.log;
        let mut lines: Vec<String> = Vec::new();
        let mut i: usize = 0;
        while i < n
            invariant
                i <= n,
                n == logv.len(),
                self@.log == logv,
                n == self.chat_history.len(),
                lines.deep_view() == indexed_lines(logv).take(i as int),
            decreases n - i,
        {
            let mut line = dec_string(i);
            line.append(": ");
            line.append(self.chat_history[i].as_str());
            proof {
                assert(line@ == indexed_line(i as nat, logv[i as int]));
            }
            let ghost pre = lines.deep_view();
            lines.push(line);
            proof {
                assert(lines@.len() == pre.len() + 1);
                assert forall|j: int| 0 <= j < lines@.len() implies lines.deep_view()[j]
                    == indexed_lines(logv).take(i + 1 as int)[j] by {
                    if j < pre.len() {
                        assert(lines.deep_view()[j] == pre[j]);
                    } else {
                        assert(lines.deep_view()[j] == line@);
                    }
                }
                assert(lines.deep_view() =~~= indexed_lines(logv).take(i + 1 as int));
            }
            i = i + 1;
        }
        proof {
            assert(lines.deep_view() =~~= indexed_lines(logv));
        }

        let off = self.scroll_y;
        if off > 0 {
            let synth = synthetic_string(off as usize);
            if (off as usize) < n {
                lines.insert(off as usize, synth);
                proof {
                    assert(lines.deep_view() =~~= display_lines(logv, off as nat));
                }
            } else {
                lines.push(synth);
                proof {
                    assert(lines.deep_view() =~~= display_lines(logv, off as nat));
                }
            }
        }

        RenderModel { tooltip, input_text, editing, cursor_col, lines, scroll: off }
    }
}

} // verus!
