//! The input state machine: consumes one key event at a time, edits the
//! input buffer, switches between `Normal` and `Editing` mode, commits new
//! capture rules, and signals loop termination.

use vstd::prelude::*;
use crate::state::{App, InputMode};

verus! {

/// One key event, as the state machine reads it. The event loop translates
/// whatever the terminal backend delivers into this form; every key it does
/// not recognize arrives as `Other`.
#[derive(Clone, Copy, Debug, PartialEq, Eq, Structural)]
pub enum Key {
    Char(char),
    Enter,
    Backspace,
    Esc,
    Other,
}

/// What the event loop must do after dispatching one key event.
#[derive(Clone, Debug, PartialEq, Eq)]
pub enum Step {
    /// Keep looping; nothing to do outside the store.
    Continue,
    /// A rule was just committed: register a capture filter for this
    /// expression with the traffic collaborator, then keep looping.
    Register(String),
    /// Leave the loop and tear the terminal down.
    Quit,
}

/// Relies on `String: FromIterator<char>` (via `Iterator::collect`): the
/// collected string consists of exactly the given characters in order.
#[verifier::external_body]
fn chars_to_string(chars: &Vec<char>) -> (s: String)
    ensures
        s@ == chars@,
{
    chars.iter().collect()
}

impl App {
    /// Dispatch one key event.
    ///
    /// In `Normal` mode, `e` enters `Editing` mode and `q` — and only `q` —
    /// signals termination; everything else is a no-op. In `Editing` mode,
    /// printable characters and `Backspace` edit the input buffer, `Esc`
    /// returns to `Normal` mode leaving the buffer as it stands, and `Enter`
    /// drains the buffer — even an empty one — into a newly appended rule
    /// and asks the caller to register it. The sampler's state (series,
    /// window, counters) is never touched.
    pub fn on_key(&mut self, key: Key) -> (r: Step)
        requires
            old(self).wf(),
        ensures
            final(self).wf(),
            // termination comes from `q` in Normal mode and from nothing else
            (r == Step::Quit) <==> (old(self).input_mode == InputMode::Normal && key == Key::Char(
                'q',
            )),
            // no key event touches the sampler's state
            final(self).chart@ == old(self).chart@,
            final(self).net_speed@ == old(self).net_speed@,
            final(self).window == old(self).window,
            final(self).last_total == old(self).last_total,
            final(self).second == old(self).second,
            final(self).index == old(self).index,
            // Normal mode: `e` starts editing, everything else changes nothing
            old(self).input_mode == InputMode::Normal ==> {
                &&& final(self).rules == old(self).rules
                &&& final(self).input@ == old(self).input@
                &&& final(self).input_mode == (if key == Key::Char('e') {
                    InputMode::Editing
                } else {
                    InputMode::Normal
                })
                &&& (key != Key::Char('q') ==> r == Step::Continue)
            },
            // Editing mode: Enter commits the buffer as a new rule
            old(self).input_mode == InputMode::Editing && key == Key::Enter ==> {
                &&& final(self).rules_view() == old(self).rules_view().push(old(self).input@)
                &&& final(self).input@ == Seq::<char>::empty()
                &&& final(self).input_mode == InputMode::Editing
                &&& (r matches Step::Register(s) && s@ == old(self).input@)
            },
            // Editing mode: character keys extend the buffer
            old(self).input_mode == InputMode::Editing && (key matches Key::Char(c)) ==> {
                &&& final(self).rules == old(self).rules
                &&& (key matches Key::Char(c) ==> final(self).input@ == old(self).input@.push(c))
                &&& final(self).input_mode == InputMode::Editing
                &&& r == Step::Continue
            },
            // Editing mode: Backspace drops the last character, if any
            old(self).input_mode == InputMode::Editing && key == Key::Backspace ==> {
                &&& final(self).rules == old(self).rules
                &&& final(self).input@ == (if old(self).input@.len() == 0 {
                    old(self).input@
                } else {
                    old(self).input@.drop_last()
                })
                &&& final(self).input_mode == InputMode::Editing
                &&& r == Step::Continue
            },
            // Editing mode: Esc leaves editing with the buffer untouched
            old(self).input_mode == InputMode::Editing && key == Key::Esc ==> {
                &&& final(self).rules == old(self).rules
                &&& final(self).input@ == old(self).input@
                &&& final(self).input_mode == InputMode::Normal
                &&& r == Step::Continue
            },
            // Editing mode: unrecognized keys are no-ops
            old(self).input_mode == InputMode::Editing && key == Key::Other ==> {
                &&& final(self).rules == old(self).rules
                &&& final(self).input@ == old(self).input@
                &&& final(self).input_mode == InputMode::Editing
                &&& r == Step::Continue
            },
    {
        match self.input_mode {
            InputMode::Normal => {
                match key {
                    Key::Char(c) => {
                        if c == 'e' {
                            self.input_mode = InputMode::Editing;
                            Step::Continue
                        } else if c == 'q' {
                            Step::Quit
                        } else {
                            Step::Continue
                        }
                    },
                    _ => Step::Continue,
                }
            },
            InputMode::Editing => {
                match key {
                    Key::Enter => {
                        let committed = chars_to_string(&self.input);
                        self.input.clear();
                        self.rules.push(committed.clone());
                        proof {
                            assert(self.rules_view() =~= old(self).rules_view().push(
                                old(self).input@,
                            ));
                        }
                        Step::Register(committed)
                    },
                    Key::Char(c) => {
                        self.input.push(c);
                        Step::Continue
                    },
                    Key::Backspace => {
                        self.input.pop();
                        Step::Continue
                    },
                    Key::Esc => {
                        self.input_mode = InputMode::Normal;
                        Step::Continue
                    },
                    Key::Other => Step::Continue,
                }
            },
        }
    }

    /// The input buffer as a `String`, for display.
    pub fn input_string(&self) -> (s: String)
        ensures
            s@ == self.input@,
    {
        chars_to_string(&self.input)
    }
}

} // verus!
