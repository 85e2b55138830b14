//! Timed fade-in reveals: each freshly spawned visual element ramps from
//! invisible to its target value over a fixed appearance duration, then
//! latches as fully visible and is never recomputed again.

use vstd::prelude::*;

use crate::color::CHANNEL_FULL;
use crate::color::Rgba;

verus! {

/// Milliseconds of the clock that have passed since `spawn_ms`; zero when the
/// clock has not yet reached the spawn instant.
pub open spec fn elapsed_since(spawn_ms: u64, now_ms: u64) -> int {
    if now_ms <= spawn_ms {
        0
    } else {
        now_ms - spawn_ms
    }
}

/// Whether a reveal that started at `spawn_ms` and ramps for `duration_ms`
/// has finished at `now_ms`. A zero duration finishes immediately.
pub open spec fn ramp_complete(spawn_ms: u64, duration_ms: u64, now_ms: u64) -> bool {
    elapsed_since(spawn_ms, now_ms) >= duration_ms
}

/// The revealed portion of `target` at `now_ms`: `target` itself once the
/// ramp is complete, and `target` scaled by elapsed time over duration
/// before that. A zero duration never divides; it falls under the complete
/// branch.
pub open spec fn ramp_value(target: u32, spawn_ms: u64, duration_ms: u64, now_ms: u64) -> int {
    if ramp_complete(spawn_ms, duration_ms, now_ms) {
        target as int
    } else {
        target * elapsed_since(spawn_ms, now_ms) / (duration_ms as int)
    }
}

/// Once the elapsed time reaches the duration the ramp yields exactly the
/// target, and at or before the spawn instant it yields zero.
pub proof fn lemma_ramp_endpoints(target: u32, spawn_ms: u64, duration_ms: u64, now_ms: u64)
    ensures
        elapsed_since(spawn_ms, now_ms) >= duration_ms ==> ramp_value(
            target,
            spawn_ms,
            duration_ms,
            now_ms,
        ) == target,
        now_ms <= spawn_ms && duration_ms > 0 ==> ramp_value(
            target,
            spawn_ms,
            duration_ms,
            now_ms,
        ) == 0,
{
}

/// The ramp never exceeds its target.
pub proof fn lemma_ramp_le_target(target: u32, spawn_ms: u64, duration_ms: u64, now_ms: u64)
    ensures
        0 <= ramp_value(target, spawn_ms, duration_ms, now_ms) <= target,
{
    if !ramp_complete(spawn_ms, duration_ms, now_ms) {
        let e = elapsed_since(spawn_ms, now_ms);
        assert(0 <= target * e / (duration_ms as int) <= target) by (nonlinear_arith)
            requires
                0 <= e < duration_ms,
                target >= 0,
        ;
    }
}

/// The reveal ramp is monotonically non-decreasing in the clock: sampling
/// later never yields a smaller value.
pub proof fn lemma_ramp_monotonic(
    target: u32,
    spawn_ms: u64,
    duration_ms: u64,
    n1: u64,
    n2: u64,
)
    requires
        n1 <= n2,
    ensures
        ramp_value(target, spawn_ms, duration_ms, n1) <= ramp_value(
            target,
            spawn_ms,
            duration_ms,
            n2,
        ),
{
    let e1 = elapsed_since(spawn_ms, n1);
    let e2 = elapsed_since(spawn_ms, n2);
    assert(e1 <= e2);
    lemma_ramp_le_target(target, spawn_ms, duration_ms, n1);
    lemma_ramp_le_target(target, spawn_ms, duration_ms, n2);
    if !ramp_complete(spawn_ms, duration_ms, n1) && !ramp_complete(spawn_ms, duration_ms, n2) {
        assert(target * e1 / (duration_ms as int) <= target * e2 / (duration_ms as int))
            by (nonlinear_arith)
            requires
                0 <= e1 <= e2,
                duration_ms > 0,
                target >= 0,
        ;
    }
}

/// The reveal state of a textbox background layer: a fade from fully
/// transparent up to `visible_alpha` (in thousandths), over
/// `appearance_time_ms`, starting at `spawn_time_ms`. `with_cutout` records
/// which quad shape the layer regenerates while fading.
#[derive(Clone, Copy, Debug, PartialEq, Eq, Structural)]
pub struct TextBoxMesh {
    pub is_visible: bool,
    pub visible_alpha: u32,
    pub appearance_time_ms: u64,
    pub spawn_time_ms: u64,
    pub with_cutout: bool,
}

impl TextBoxMesh {
    /// The target alpha is a valid fixed-point channel.
    pub open spec fn wf(self) -> bool {
        self.visible_alpha <= CHANNEL_FULL
    }

    /// The state `new` constructs: not yet visible, with the given targets.
    pub open spec fn spec_new(
        appearance_time_ms: u64,
        spawn_time_ms: u64,
        visible_alpha: u32,
        with_cutout: bool,
    ) -> TextBoxMesh {
        TextBoxMesh { is_visible: false, visible_alpha, appearance_time_ms, spawn_time_ms, with_cutout }
    }

    pub fn new(
        appearance_time_ms: u64,
        spawn_time_ms: u64,
        visible_alpha: u32,
        with_cutout: bool,
    ) -> (m: TextBoxMesh)
        requires
            visible_alpha <= CHANNEL_FULL,
        ensures
            m == TextBoxMesh::spec_new(appearance_time_ms, spawn_time_ms, visible_alpha, with_cutout),
            m.wf(),
    {
        TextBoxMesh { is_visible: false, visible_alpha, appearance_time_ms, spawn_time_ms, with_cutout }
    }

    /// One animation step at clock time `now_ms`. Returns the alpha (in
    /// thousandths) the layer should currently render with, or `None` once
    /// the element has latched as fully visible and is frozen at its target.
    /// Reaching the appearance duration returns exactly the target alpha and
    /// sets the latch for good.
    pub fn step(&mut self, now_ms: u64) -> (r: Option<u32>)
        requires
            old(self).wf(),
        ensures
            final(self).wf(),
            old(self).is_visible ==> r is None && *final(self) == *old(self),
            !old(self).is_visible ==> {
                &&& r matches Some(alpha) && alpha == ramp_value(
                    old(self).visible_alpha,
                    old(self).spawn_time_ms,
                    old(self).appearance_time_ms,
                    now_ms,
                )
                &&& *final(self) == (TextBoxMesh {
                    is_visible: ramp_complete(
                        old(self).spawn_time_ms,
                        old(self).appearance_time_ms,
                        now_ms,
                    ),
                    ..*old(self)
                })
            },
    {
        if self.is_visible {
            return None;
        }
        let alpha = scaled_ramp(self.visible_alpha, self.spawn_time_ms, self.appearance_time_ms, now_ms);
        if ramp_done(self.spawn_time_ms, self.appearance_time_ms, now_ms) {
            self.is_visible = true;
        }
        Some(alpha)
    }
}

/// The reveal state of a text layer: a fade of `visible_color`'s alpha
/// channel from zero to full, over `appearance_time_ms`, starting at
/// `spawn_time_ms`.
#[derive(Clone, Copy, Debug, PartialEq, Eq, Structural)]
pub struct TextBoxText {
    pub is_visible: bool,
    pub visible_color: Rgba,
    pub appearance_time_ms: u64,
    pub spawn_time_ms: u64,
}

impl TextBoxText {
    /// The target color is a valid fixed-point color.
    pub open spec fn wf(self) -> bool {
        self.visible_color.wf()
    }

    /// The state `new` constructs: not yet visible, with the given target.
    pub open spec fn spec_new(
        appearance_time_ms: u64,
        spawn_time_ms: u64,
        visible_color: Rgba,
    ) -> TextBoxText {
        TextBoxText { is_visible: false, visible_color, appearance_time_ms, spawn_time_ms }
    }

    pub fn new(appearance_time_ms: u64, spawn_time_ms: u64, visible_color: Rgba) -> (t: TextBoxText)
        requires
            visible_color.wf(),
        ensures
            t == TextBoxText::spec_new(appearance_time_ms, spawn_time_ms, visible_color),
            t.wf(),
    {
        TextBoxText { is_visible: false, visible_color, appearance_time_ms, spawn_time_ms }
    }

    /// One animation step at clock time `now_ms`. Returns the color the text
    /// should currently render with, or `None` once the element has latched
    /// as fully visible and is frozen at its target. Before the ramp
    /// completes the result is the target color with its alpha channel
    /// replaced by the revealed fraction; on completion it is exactly the
    /// target color, and the latch is set for good.
    pub fn step(&mut self, now_ms: u64) -> (r: Option<Rgba>)
        requires
            old(self).wf(),
        ensures
            final(self).wf(),
            old(self).is_visible ==> r is None && *final(self) == *old(self),
            !old(self).is_visible ==> {
                &&& r matches Some(c) && c == (if ramp_complete(
                    old(self).spawn_time_ms,
                    old(self).appearance_time_ms,
                    now_ms,
                ) {
                    old(self).visible_color
                } else {
                    Rgba {
                        a: ramp_value(
                            CHANNEL_FULL,
                            old(self).spawn_time_ms,
                            old(self).appearance_time_ms,
                            now_ms,
                        ) as u32,
                        ..old(self).visible_color
                    }
                })
                &&& *final(self) == (TextBoxText {
                    is_visible: ramp_complete(
                        old(self).spawn_time_ms,
                        old(self).appearance_time_ms,
                        now_ms,
                    ),
                    ..*old(self)
                })
            },
    {
        if self.is_visible {
            return None;
        }
        if ramp_done(self.spawn_time_ms, self.appearance_time_ms, now_ms) {
            self.is_visible = true;
            return Some(self.visible_color);
        }
        let a = scaled_ramp(CHANNEL_FULL, self.spawn_time_ms, self.appearance_time_ms, now_ms);
        Some(self.visible_color.with_alpha(a))
    }
}

/// Whether the ramp that started at `spawn_ms` has run for its full
/// `duration_ms` at clock time `now_ms`.
fn ramp_done(spawn_ms: u64, duration_ms: u64, now_ms: u64) -> (r: bool)
    ensures
        r == ramp_complete(spawn_ms, duration_ms, now_ms),
{
    let elapsed: u64 = if now_ms <= spawn_ms {
        0
    } else {
        now_ms - spawn_ms
    };
    elapsed >= duration_ms
}

/// `target` scaled by how far the ramp has run, in exact agreement with
/// `ramp_value`.
fn scaled_ramp(target: u32, spawn_ms: u64, duration_ms: u64, now_ms: u64) -> (r: u32)
    requires
        target <= CHANNEL_FULL,
    ensures
        r == ramp_value(target, spawn_ms, duration_ms, now_ms),
        r <= target,
{
    proof {
        lemma_ramp_le_target(target, spawn_ms, duration_ms, now_ms);
    }
    let elapsed: u64 = if now_ms <= spawn_ms {
        0
    } else {
        now_ms - spawn_ms
    };
    if elapsed >= duration_ms {
        target
    } else {
        proof {
            assert((target as int) * (elapsed as int) <= (CHANNEL_FULL as int) * (u64::MAX as int))
                by (nonlinear_arith)
                requires
                    target <= CHANNEL_FULL,
                    0 <= elapsed <= u64::MAX,
            ;
        }
        (((target as u128) * (elapsed as u128)) / (duration_ms as u128)) as u32
    }
}

} // verus!
