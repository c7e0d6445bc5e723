//! The application state store: capture rules, the two bounded rolling
//! series, the input buffer and the input mode, together with the invariant
//! that every mutation preserves.

use vstd::prelude::*;
use crate::CAPACITY;

verus! {

/// Which of the two input states the key-event state machine is in.
#[derive(Clone, Copy, Debug, PartialEq, Eq, Structural)]
pub enum InputMode {
    Normal,
    Editing,
}

/// All mutable state of the dashboard. Mutated only through `tick` (the
/// sampler) and `on_key` (the input state machine); the renderer is a pure
/// reader of it.
pub struct App {
    /// Capture-filter expressions, append-only; each is also the display key
    /// of its series.
    pub rules: Vec<String>,
    /// Index of the rule currently charted.
    pub index: usize,
    /// Instantaneous-size history for the charted rule, newest first,
    /// at most `CAPACITY` entries.
    pub chart: Vec<u64>,
    /// Per-tick rate points `(second, delta_total)`, oldest first,
    /// at most `CAPACITY` entries.
    pub net_speed: Vec<(u64, u64)>,
    /// Visible x-axis bounds for the rate chart.
    pub window: (u64, u64),
    /// Cumulative total observed at the previous tick.
    pub last_total: u64,
    /// Ticks elapsed since start; the x coordinate of the next rate point.
    pub second: u64,
    /// Characters typed so far while editing a new rule.
    pub input: Vec<char>,
    /// Current state of the input state machine.
    pub input_mode: InputMode,
}

impl App {
    /// The state invariant: both rolling series stay within capacity, the
    /// charted index stays inside the rule list, and the visible window
    /// always spans exactly `CAPACITY` units.
    pub open spec fn wf(self) -> bool {
        &&& self.chart@.len() <= CAPACITY
        &&& self.net_speed@.len() <= CAPACITY
        &&& (if self.rules@.len() == 0 {
            self.index == 0
        } else {
            self.index < self.rules@.len()
        })
        &&& self.window.1 == self.window.0 + CAPACITY
    }

    /// The rule list as a sequence of character sequences.
    pub open spec fn rules_view(self) -> Seq<Seq<char>> {
        self.rules.deep_view()
    }

    /// A fresh store: no rules, empty series, the window spanning the first
    /// `CAPACITY` seconds, and the state machine in `Normal` mode.
    pub fn new() -> (a: App)
        ensures
            a.wf(),
            a.rules@ == Seq::<String>::empty(),
            a.index == 0,
            a.chart@ == Seq::<u64>::empty(),
            a.net_speed@ == Seq::<(u64, u64)>::empty(),
            a.window.0 == 0,
            a.window.1 == CAPACITY,
            a.last_total == 0,
            a.second == 0,
            a.input@ == Seq::<char>::empty(),
            a.input_mode == InputMode::Normal,
    {
        App {
            rules: Vec::new(),
            index: 0,
            chart: Vec::new(),
            net_speed: Vec::new(),
            window: (0, CAPACITY as u64),
            last_total: 0,
            second: 0,
            input: Vec::new(),
            input_mode: InputMode::Normal,
        }
    }
}

impl App {
    /// The rule whose series is currently charted, if any rule exists.
    /// The sampler reads this rule's counters on every tick.
    pub fn current_rule(&self) -> (r: Option<&String>)
        requires
            self.wf(),
        ensures
            r is Some <==> self.rules@.len() > 0,
            r matches Some(s) ==> s == &self.rules@[self.index as int],
    {
        if self.rules.len() > 0 {
            Some(&self.rules[self.index])
        } else {
            None
        }
    }
}

impl Default for App {
    fn default() -> (a: App)
        ensures
            a.wf(),
            a.rules@ == Seq::<String>::empty(),
            a.index == 0,
            a.chart@ == Seq::<u64>::empty(),
            a.net_speed@ == Seq::<(u64, u64)>::empty(),
            a.window.0 == 0,
            a.window.1 == CAPACITY,
            a.last_total == 0,
            a.second == 0,
            a.input@ == Seq::<char>::empty(),
            a.input_mode == InputMode::Normal,
    {
        App::new()
    }
}

} // verus!
