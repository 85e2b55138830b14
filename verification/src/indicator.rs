//! The advance indicator: a triangle that bobs just below the textbox's
//! lower edge and sweeps its hue as it wobbles. The oscillation phase is the
//! sine of the clock scaled by the wobble speed; the host samples that wave
//! and hands its value in here in thousandths, and everything derived from
//! it is pure integer arithmetic.

use vstd::prelude::*;

use crate::color::CHANNEL_FULL;
use crate::mesh::Geometry;
use crate::mesh::TEXTBOX_HEIGHT;
use crate::mesh::TRIANGLE_INDICATOR_HEIGHT;
use crate::mesh::TRIANGLE_INDICATOR_WIDTH;
use crate::mesh::get_colored_triangle_mesh;
use crate::mesh::triangle_indices;
use crate::mesh::triangle_vertices;

verus! {

/// Vertical position of the textbox center relative to the screen center,
/// in pixels.
pub const TEXTBOX_OFFSET_FROM_CENTER_Y: i32 = -150;

/// Angular speed of the indicator wobble, in radians per second of clock
/// time; the oscillation phase is `sin(seconds * TRIANGLE_WOBBLE_SPEED)`,
/// so the wobble has period two pi over this speed.
pub const TRIANGLE_WOBBLE_SPEED: u32 = 4;

/// Amplitude of the indicator's vertical bob, in pixels.
pub const TRIANGLE_WOBBLE_OFFSET: u32 = 3;

/// The indicator's resting vertical position in pixels: the textbox's lower
/// edge.
pub open spec fn indicator_base_y() -> int {
    TEXTBOX_OFFSET_FROM_CENTER_Y - (TEXTBOX_HEIGHT / 2) as int
}

/// The indicator's vertical position in thousandths of a pixel at
/// oscillation phase `phase` (the sine value in thousandths): the resting
/// position displaced by the phase times the wobble amplitude.
pub open spec fn indicator_y_milli(phase: i32) -> int {
    indicator_base_y() * 1000 + phase * (TRIANGLE_WOBBLE_OFFSET as int)
}

/// The indicator's vertical position at oscillation phase `phase`, in
/// thousandths of a pixel. For any phase of the wave the result stays
/// within one wobble amplitude of the resting position.
pub fn get_indicator_y(phase: i32) -> (y: i64)
    requires
        -(CHANNEL_FULL as int) <= phase <= CHANNEL_FULL,
    ensures
        y == indicator_y_milli(phase),
        (indicator_base_y() - TRIANGLE_WOBBLE_OFFSET) * 1000 <= y <= (indicator_base_y()
            + TRIANGLE_WOBBLE_OFFSET) * 1000,
{
    proof {
        assert(-3000 <= (phase as int) * (TRIANGLE_WOBBLE_OFFSET as int) <= 3000)
            by (nonlinear_arith)
            requires
                -1000 <= phase <= 1000,
                TRIANGLE_WOBBLE_OFFSET == 3,
        ;
    }
    let base: i64 = (TEXTBOX_OFFSET_FROM_CENTER_Y as i64) - ((TEXTBOX_HEIGHT / 2) as i64);
    base * 1000 + (phase as i64) * (TRIANGLE_WOBBLE_OFFSET as i64)
}

/// The vertical offset never leaves the band one wobble amplitude on either
/// side of the resting position, whatever value the sine wave takes.
pub proof fn lemma_indicator_y_bounded(phase: i32)
    requires
        -(CHANNEL_FULL as int) <= phase <= CHANNEL_FULL,
    ensures
        (indicator_base_y() - TRIANGLE_WOBBLE_OFFSET) * 1000 <= indicator_y_milli(phase),
        indicator_y_milli(phase) <= (indicator_base_y() + TRIANGLE_WOBBLE_OFFSET) * 1000,
{
}

/// The indicator depends on the clock only through the oscillation phase:
/// two instants whose sine values agree (as the wave does one full period
/// apart) put the indicator at the same height with the same colors.
pub proof fn lemma_indicator_pose_periodic(phase1: i32, phase2: i32)
    requires
        phase1 == phase2,
    ensures
        indicator_y_milli(phase1) == indicator_y_milli(phase2),
        triangle_vertices(TRIANGLE_INDICATOR_HEIGHT, TRIANGLE_INDICATOR_WIDTH, phase1)
            == triangle_vertices(TRIANGLE_INDICATOR_HEIGHT, TRIANGLE_INDICATOR_WIDTH, phase2),
{
}

/// One frame of the indicator animation at oscillation phase `phase`: the
/// vertical position in thousandths of a pixel, and the freshly blended
/// triangle mesh at the indicator's fixed dimensions.
pub fn indicator_pose(phase: i32) -> (r: (i64, Geometry))
    requires
        -(CHANNEL_FULL as int) <= phase <= CHANNEL_FULL,
    ensures
        r.0 == indicator_y_milli(phase),
        r.1.vertices@ == triangle_vertices(TRIANGLE_INDICATOR_HEIGHT, TRIANGLE_INDICATOR_WIDTH, phase),
        r.1.indices@ == triangle_indices(),
        r.1.wf(),
{
    let y = get_indicator_y(phase);
    let mesh = get_colored_triangle_mesh(TRIANGLE_INDICATOR_HEIGHT, TRIANGLE_INDICATOR_WIDTH, phase);
    (y, mesh)
}

} // verus!
