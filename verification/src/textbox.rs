//! Construction of a textbox and of one dialogue line: the sequencer state,
//! the two background layers (drop shadow and cutout frame) with their
//! reveal timers and initial still-invisible geometry, and the two text
//! layers (shadow and face) of a line. Attaching the pieces to a scene and
//! destroying them on teardown is the host's side of the boundary.

use vstd::prelude::*;

use crate::color::Rgba;
use crate::dialogue::TextBox;
use crate::fade::TextBoxMesh;
use crate::fade::TextBoxText;
use crate::mesh::Geometry;
use crate::mesh::get_text_box_mesh;
use crate::mesh::quad_indices;
use crate::mesh::quad_vertices;

verus! {

/// Alpha (in thousandths) the main background layer fades up to.
pub const TEXTBOX_BG_ALPHA: u32 = 1000;

/// Alpha (in thousandths) the background drop shadow fades up to.
pub const TEXTBOX_BG_SHADOW_ALPHA: u32 = 200;

/// How far the background drop shadow sits from the main layer, in pixels.
pub const TEXTBOX_BG_SHADOW_OFFSET: u32 = 8;

/// How long a freshly spawned element takes to fade in, in milliseconds.
pub const TEXTBOX_FADE_IN_TIME_MS: u64 = 125;

/// How far the text shadow sits from the text face, in pixels.
pub const TEXT_SHADOW_OFFSET: u32 = 2;

/// Font size of the dialogue text, in pixels.
pub const TEXT_FONT_SIZE: u32 = 25;

/// Depth of the main background layer, in thousandths.
pub const BOX_BG_Z_MILLI: u32 = 1000;

/// Depth of the background drop shadow, in thousandths.
pub const BOX_BG_SHADOW_Z_MILLI: u32 = 900;

/// Depth of the text shadow layer, in thousandths.
pub const TEXT_SHADOW_Z_MILLI: u32 = 1100;

/// Depth of the text face layer, in thousandths.
pub const TEXT_Z_MILLI: u32 = 1200;

/// Depth of the indicator triangle, in thousandths.
pub const TRIANGLE_MESH_Z_MILLI: u32 = 1300;

/// The color of a line's shadow layer: black.
pub open spec fn text_shadow_color() -> Rgba {
    Rgba { r: 0, g: 0, b: 0, a: 1000 }
}

/// The color of a line's face layer: the ghost-white tone.
pub open spec fn text_face_color() -> Rgba {
    Rgba { r: 973, g: 973, b: 1000, a: 1000 }
}

/// A freshly built textbox: the sequencer state and the two background
/// layers, each a still-invisible mesh paired with its reveal timer.
pub struct TextBoxView {
    /// The sequencer state to be ticked every frame.
    pub state: TextBox,
    /// The drop-shadow quad, generated at zero alpha.
    pub bg_shadow_mesh: Geometry,
    /// The drop-shadow layer's reveal timer.
    pub bg_shadow: TextBoxMesh,
    /// The main cutout-frame quad, generated at zero alpha.
    pub main_bg_mesh: Geometry,
    /// The main layer's reveal timer.
    pub main_bg: TextBoxMesh,
}

/// Builds a textbox over the given lines, opened at clock time
/// `spawn_time_ms`: a fresh sequencer state, and the two background layers
/// at zero alpha with reveal timers that start at the spawn instant — the
/// drop shadow fading up to its dim alpha on the plain quad, the main layer
/// fading up to full alpha on the cutout frame.
pub fn text_box(text_strings: Vec<String>, spawn_time_ms: u64) -> (v: TextBoxView)
    ensures
        v.state == (TextBox {
            text_strings,
            current_text_index: 0usize,
            last_text_index_displayed: None::<usize>,
            time_since_last_text_displayed_ms: 0u64,
            indicator_visible: false,
        }),
        v.state.wf(),
        v.bg_shadow_mesh.vertices@ == quad_vertices(false, 0),
        v.bg_shadow_mesh.indices@ == quad_indices(false),
        v.bg_shadow == TextBoxMesh::spec_new(
            TEXTBOX_FADE_IN_TIME_MS,
            spawn_time_ms,
            TEXTBOX_BG_SHADOW_ALPHA,
            false,
        ),
        v.main_bg_mesh.vertices@ == quad_vertices(true, 0),
        v.main_bg_mesh.indices@ == quad_indices(true),
        v.main_bg == TextBoxMesh::spec_new(
            TEXTBOX_FADE_IN_TIME_MS,
            spawn_time_ms,
            TEXTBOX_BG_ALPHA,
            true,
        ),
{
    let main_bg_mesh = get_text_box_mesh(true, 0);
    let bg_shadow_mesh = get_text_box_mesh(false, 0);
    let bg_shadow = TextBoxMesh::new(
        TEXTBOX_FADE_IN_TIME_MS,
        spawn_time_ms,
        TEXTBOX_BG_SHADOW_ALPHA,
        false,
    );
    let main_bg = TextBoxMesh::new(TEXTBOX_FADE_IN_TIME_MS, spawn_time_ms, TEXTBOX_BG_ALPHA, true);
    let state = TextBox::new(text_strings);
    TextBoxView { state, bg_shadow_mesh, bg_shadow, main_bg_mesh, main_bg }
}

/// One freshly spawned dialogue line: the text and its two layers, a black
/// shadow behind a ghost-white face, each with its own reveal timer so they
/// fade independently while sharing the spawn instant.
pub struct TextLineView {
    /// The line's text.
    pub text: String,
    /// The black shadow layer's reveal timer.
    pub shadow: TextBoxText,
    /// The ghost-white face layer's reveal timer.
    pub face: TextBoxText,
}

/// Builds the visual pieces of one dialogue line spawned at clock time
/// `spawn_time_ms`: both layers start invisible and fade in over the
/// standard fade-in time from the shared spawn instant.
pub fn text_line(text: String, spawn_time_ms: u64) -> (v: TextLineView)
    ensures
        v.text@ == text@,
        v.shadow == TextBoxText::spec_new(
            TEXTBOX_FADE_IN_TIME_MS,
            spawn_time_ms,
            text_shadow_color(),
        ),
        v.face == TextBoxText::spec_new(TEXTBOX_FADE_IN_TIME_MS, spawn_time_ms, text_face_color()),
{
    let shadow = TextBoxText::new(TEXTBOX_FADE_IN_TIME_MS, spawn_time_ms, Rgba::new(0, 0, 0, 1000));
    let face = TextBoxText::new(
        TEXTBOX_FADE_IN_TIME_MS,
        spawn_time_ms,
        Rgba::new(973, 973, 1000, 1000),
    );
    TextLineView { text, shadow, face }
}

} // verus!
