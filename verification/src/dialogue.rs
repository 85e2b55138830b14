//! The dialogue sequencer: the state machine that owns the queue of lines,
//! the cursor, the inter-line timing, and the decisions to spawn a line or
//! the advance indicator. It is ticked once per frame with the clock and
//! the frame delta and answers with at most one effect; performing the
//! effect (spawning the visual elements) is the host's job.

use vstd::prelude::*;

verus! {

/// Milliseconds a textbox waits before presenting its first line, and, once
/// a line is up, before presenting the advance indicator.
pub const TEXT_TRANSITION_TIME_MS: u64 = 750;

/// What the sequencer asks the host to do this frame. `at_ms` is the clock
/// time of the tick that raised the effect, so a freshly spawned element's
/// reveal starts at the current frame, not a stale one.
#[derive(Clone, Debug, PartialEq, Eq)]
pub enum Effect {
    /// Spawn the line with this text, its reveal starting at `at_ms`.
    SpawnLine { text: String, at_ms: u64 },
    /// Spawn the advance indicator, its animation starting at `at_ms`.
    SpawnIndicator { at_ms: u64 },
}

/// The state of one textbox conversation. The line queue is fixed at
/// creation; `current_text_index` is the cursor of the line being presented.
/// This engine presents the first line and then the advance prompt;
/// consuming the prompt to move the cursor onward is the host's input-driven
/// affordance and deliberately not part of the tick.
#[derive(Clone, Debug)]
pub struct TextBox {
    pub text_strings: Vec<String>,
    pub current_text_index: usize,
    pub last_text_index_displayed: Option<usize>,
    pub time_since_last_text_displayed_ms: u64,
    pub indicator_visible: bool,
}

impl TextBox {
    /// The indicator only ever accompanies a displayed line, and a displayed
    /// line is the one under the cursor, inside the queue.
    pub open spec fn wf(self) -> bool {
        &&& self.indicator_visible ==> self.last_text_index_displayed is Some
        &&& self.last_text_index_displayed matches Some(i) ==> i == self.current_text_index
            && i < self.text_strings.len()
    }

    /// The first line is due: nothing has been displayed yet and the
    /// transition delay has passed.
    pub open spec fn first_line_due(self) -> bool {
        &&& self.last_text_index_displayed is None
        &&& self.time_since_last_text_displayed_ms >= TEXT_TRANSITION_TIME_MS
    }

    /// The advance indicator is due: a line is up, the transition delay has
    /// passed again, and the indicator is not already present.
    pub open spec fn indicator_due(self) -> bool {
        &&& self.last_text_index_displayed is Some
        &&& self.time_since_last_text_displayed_ms >= TEXT_TRANSITION_TIME_MS
        &&& !self.indicator_visible
    }

    /// A fresh textbox over the given lines: cursor at the start, nothing
    /// displayed, no indicator, and the spawn timer at zero. An empty line
    /// queue is accepted and yields a textbox whose ticks never emit
    /// anything.
    pub fn new(text_strings: Vec<String>) -> (t: TextBox)
        ensures
            t == (TextBox {
                text_strings,
                current_text_index: 0usize,
                last_text_index_displayed: None::<usize>,
                time_since_last_text_displayed_ms: 0u64,
                indicator_visible: false,
            }),
            t.wf(),
    {
        TextBox {
            text_strings,
            current_text_index: 0,
            last_text_index_displayed: None,
            time_since_last_text_displayed_ms: 0,
            indicator_visible: false,
        }
    }

    /// One frame of the sequencer at clock time `elapsed_ms` with frame
    /// delta `delta_ms`. In priority order: present the first line once the
    /// transition delay has passed (resetting the spawn timer), then present
    /// the advance indicator once the delay has passed again (a one-way
    /// latch, so it is emitted exactly once), and otherwise accumulate the
    /// delta while the delay has not passed. A textbox with no lines never
    /// emits anything. The line queue itself never changes.
    pub fn tick(&mut self, elapsed_ms: u64, delta_ms: u64) -> (r: Option<Effect>)
        requires
            old(self).wf(),
            delta_ms <= u64::MAX - TEXT_TRANSITION_TIME_MS,
        ensures
            final(self).wf(),
            final(self).text_strings == old(self).text_strings,
            ({
                let s = *old(self);
                if s.first_line_due() && s.text_strings.len() > 0 {
                    &&& r matches Some(e) && e matches Effect::SpawnLine { text, at_ms }
                        && text@ == s.text_strings@[0]@ && at_ms == elapsed_ms
                    &&& *final(self) == (TextBox {
                        current_text_index: 0usize,
                        last_text_index_displayed: Some(0usize),
                        time_since_last_text_displayed_ms: 0u64,
                        ..s
                    })
                } else if s.first_line_due() {
                    r is None && *final(self) == s
                } else if s.indicator_due() {
                    &&& r matches Some(e) && e matches Effect::SpawnIndicator { at_ms }
                        && at_ms == elapsed_ms
                    &&& *final(self) == (TextBox { indicator_visible: true, ..s })
                } else if s.time_since_last_text_displayed_ms < TEXT_TRANSITION_TIME_MS {
                    &&& r is None
                    &&& *final(self) == (TextBox {
                        time_since_last_text_displayed_ms: (
                        s.time_since_last_text_displayed_ms + delta_ms) as u64,
                        ..s
                    })
                } else {
                    r is None && *final(self) == s
                }
            }),
    {
        if self.last_text_index_displayed.is_none()
            && self.time_since_last_text_displayed_ms >= TEXT_TRANSITION_TIME_MS {
            if self.text_strings.len() == 0 {
                return None;
            }
            let text = self.text_strings[0].clone();
            self.last_text_index_displayed = Some(0);
            self.current_text_index = 0;
            self.time_since_last_text_displayed_ms = 0;
            Some(Effect::SpawnLine { text, at_ms: elapsed_ms })
        } else if self.last_text_index_displayed.is_some()
            && self.time_since_last_text_displayed_ms >= TEXT_TRANSITION_TIME_MS
            && !self.indicator_visible {
            self.indicator_visible = true;
            Some(Effect::SpawnIndicator { at_ms: elapsed_ms })
        } else if self.time_since_last_text_displayed_ms < TEXT_TRANSITION_TIME_MS {
            self.time_since_last_text_displayed_ms =
                self.time_since_last_text_displayed_ms + delta_ms;
            None
        } else {
            None
        }
    }
}

/// Once the indicator is up it stays up and no further tick emits anything:
/// from any well-formed state with a displayed line and the indicator
/// latched, a tick is a no-op whenever the spawn timer has already passed
/// the transition delay.
pub proof fn lemma_indicator_latch(s: TextBox)
    requires
        s.wf(),
        s.last_text_index_displayed is Some,
        s.indicator_visible,
        s.time_since_last_text_displayed_ms >= TEXT_TRANSITION_TIME_MS,
    ensures
        !s.first_line_due(),
        !s.indicator_due(),
{
}

} // verus!
