//! Procedural geometry for the textbox visuals: a filled quad, a quad with
//! an inset cutout (a rectangular frame for the border look), and the
//! indicator triangle, each with explicit per-vertex colors. These are
//! stateless: the same inputs always produce the same geometry.

use vstd::prelude::*;

use crate::color::CHANNEL_FULL;
use crate::color::Rgba;
use crate::color::mixed;

verus! {

/// Textbox width in pixels.
pub const TEXTBOX_WIDTH: u32 = 700;

/// Textbox height in pixels.
pub const TEXTBOX_HEIGHT: u32 = 200;

/// Thickness in pixels of the frame left standing by the cutout quad.
pub const LINE_THICKNESS: u32 = 10;

/// Width in pixels of the advance-indicator triangle.
pub const TRIANGLE_INDICATOR_WIDTH: u32 = 34;

/// Height in pixels of the advance-indicator triangle.
pub const TRIANGLE_INDICATOR_HEIGHT: u32 = 28;

/// One mesh vertex: a position in whole pixels (the z coordinate is always
/// zero and is left to the renderer) and a baked-in color.
#[derive(Clone, Copy, Debug, PartialEq, Eq, Structural)]
pub struct Vertex {
    pub x: i32,
    pub y: i32,
    pub color: Rgba,
}

/// A triangle-list mesh: vertices plus indices, three indices per triangle.
#[derive(Clone, Debug)]
pub struct Geometry {
    pub vertices: Vec<Vertex>,
    pub indices: Vec<u32>,
}

impl Geometry {
    /// Every vertex color is in range, every index points at an existing
    /// vertex, and the indices form whole triangles.
    pub open spec fn wf(self) -> bool {
        &&& forall|i: int|
            0 <= i < self.vertices@.len() ==> (#[trigger] self.vertices@[i]).color.wf()
        &&& forall|i: int|
            0 <= i < self.indices@.len() ==> (#[trigger] self.indices@[i]) < self.vertices@.len()
        &&& self.indices@.len() % 3 == 0
    }
}

/// The reddish tone baked into corner `i` of the textbox quad (the inset
/// corners repeat the outer tones), with the given alpha.
pub open spec fn quad_corner_color(i: int, alpha: u32) -> Rgba {
    if i % 4 == 0 {
        Rgba { r: 950, g: 50, b: 200, a: alpha }
    } else if i % 4 == 1 {
        Rgba { r: 970, g: 0, b: 170, a: alpha }
    } else if i % 4 == 2 {
        Rgba { r: 980, g: 0, b: 100, a: alpha }
    } else {
        Rgba { r: 920, g: 100, b: 100, a: alpha }
    }
}

/// The vertices of the textbox quad: the four outer corners, and with a
/// cutout also the four corners inset by the frame thickness. Corners run
/// top-left, top-right, bottom-right, bottom-left.
pub open spec fn quad_vertices(with_cutout: bool, alpha: u32) -> Seq<Vertex> {
    let outer = seq![
        Vertex { x: -350i32, y: 100, color: quad_corner_color(0, alpha) },
        Vertex { x: 350, y: 100, color: quad_corner_color(1, alpha) },
        Vertex { x: 350, y: -100i32, color: quad_corner_color(2, alpha) },
        Vertex { x: -350i32, y: -100i32, color: quad_corner_color(3, alpha) },
    ];
    if with_cutout {
        outer + seq![
            Vertex { x: -340i32, y: 90, color: quad_corner_color(4, alpha) },
            Vertex { x: 340, y: 90, color: quad_corner_color(5, alpha) },
            Vertex { x: 340, y: -90i32, color: quad_corner_color(6, alpha) },
            Vertex { x: -340i32, y: -90i32, color: quad_corner_color(7, alpha) },
        ]
    } else {
        outer
    }
}

/// The triangulation of the textbox quad: eight triangles covering the ring
/// between the outer and inner rectangles for the cutout look, or the two
/// triangles of a filled rectangle.
pub open spec fn quad_indices(with_cutout: bool) -> Seq<u32> {
    if with_cutout {
        seq![
            0u32, 1, 4, 4, 1, 5, 5, 1, 2, 6, 5, 2, 3, 7, 6, 2, 3, 6, 3, 4, 7, 4, 3, 0,
        ]
    } else {
        seq![0u32, 1, 2, 3, 0, 2]
    }
}

/// The textbox background quad. Without a cutout: 4 vertices and 2 triangles
/// (6 indices) forming a filled rectangle. With a cutout: 8 vertices and
/// 8 triangles (24 indices) forming a rectangular frame. Every vertex
/// carries its corner's reddish tone with the given alpha (in thousandths).
pub fn get_text_box_mesh(with_cutout: bool, alpha: u32) -> (g: Geometry)
    requires
        alpha <= CHANNEL_FULL,
    ensures
        g.vertices@ == quad_vertices(with_cutout, alpha),
        g.indices@ == quad_indices(with_cutout),
        g.vertices@.len() == if with_cutout { 8int } else { 4int },
        g.indices@.len() == if with_cutout { 24int } else { 6int },
        g.wf(),
{
    let half_width: i32 = (TEXTBOX_WIDTH / 2) as i32;
    let half_height: i32 = (TEXTBOX_HEIGHT / 2) as i32;
    let inner_width: i32 = half_width - LINE_THICKNESS as i32;
    let inner_height: i32 = half_height - LINE_THICKNESS as i32;

    let mut vertices: Vec<Vertex> = Vec::new();
    vertices.push(Vertex { x: -half_width, y: half_height, color: Rgba::new(950, 50, 200, alpha) });
    vertices.push(Vertex { x: half_width, y: half_height, color: Rgba::new(970, 0, 170, alpha) });
    vertices.push(Vertex { x: half_width, y: -half_height, color: Rgba::new(980, 0, 100, alpha) });
    vertices.push(Vertex { x: -half_width, y: -half_height, color: Rgba::new(920, 100, 100, alpha) });
    if with_cutout {
        vertices.push(Vertex { x: -inner_width, y: inner_height, color: Rgba::new(950, 50, 200, alpha) });
        vertices.push(Vertex { x: inner_width, y: inner_height, color: Rgba::new(970, 0, 170, alpha) });
        vertices.push(Vertex { x: inner_width, y: -inner_height, color: Rgba::new(980, 0, 100, alpha) });
        vertices.push(Vertex { x: -inner_width, y: -inner_height, color: Rgba::new(920, 100, 100, alpha) });
    }

    let indices: Vec<u32> = if with_cutout {
        vec![0, 1, 4, 4, 1, 5, 5, 1, 2, 6, 5, 2, 3, 7, 6, 2, 3, 6, 3, 4, 7, 4, 3, 0]
    } else {
        vec![0, 1, 2, 3, 0, 2]
    };

    proof {
        assert(vertices@ =~= quad_vertices(with_cutout, alpha));
        assert(indices@ =~= quad_indices(with_cutout));
    }
    Geometry { vertices, indices }
}

/// The bluish tone of triangle vertex `i` at rest (zero blend).
pub open spec fn triangle_base_color(i: int) -> Rgba {
    if i == 0 {
        Rgba { r: 50, g: 200, b: 950, a: 1000 }
    } else if i == 1 {
        Rgba { r: 0, g: 170, b: 970, a: 1000 }
    } else {
        Rgba { r: 0, g: 100, b: 980, a: 1000 }
    }
}

/// The greenish tone triangle vertex `i` blends toward on a non-negative
/// blend factor.
pub open spec fn triangle_pos_color(i: int) -> Rgba {
    if i == 0 {
        Rgba { r: 50, g: 950, b: 200, a: 1000 }
    } else if i == 1 {
        Rgba { r: 0, g: 970, b: 170, a: 1000 }
    } else {
        Rgba { r: 0, g: 980, b: 100, a: 1000 }
    }
}

/// The yellowish tone triangle vertex `i` blends toward on a negative blend
/// factor.
pub open spec fn triangle_neg_color(i: int) -> Rgba {
    if i == 0 {
        Rgba { r: 950, g: 900, b: 200, a: 1000 }
    } else if i == 1 {
        Rgba { r: 970, g: 950, b: 170, a: 1000 }
    } else {
        Rgba { r: 980, g: 970, b: 300, a: 1000 }
    }
}

/// The color of triangle vertex `i` at blend factor `phase` (in thousandths,
/// negative through positive): the base blue tone blended toward the green
/// tone by `phase` when `phase` is non-negative, and toward the yellow tone
/// by `-phase` when it is negative.
pub open spec fn triangle_vertex_color(i: int, phase: i32) -> Rgba {
    if phase >= 0 {
        mixed(triangle_base_color(i), triangle_pos_color(i), phase as u32)
    } else {
        mixed(triangle_base_color(i), triangle_neg_color(i), (-phase) as u32)
    }
}

/// The vertices of the indicator triangle: two top corners and the bottom
/// tip, each with its blended color.
pub open spec fn triangle_vertices(height: u32, width: u32, phase: i32) -> Seq<Vertex> {
    let half_height = (height / 2) as i32;
    let half_width = (width / 2) as i32;
    seq![
        Vertex {
            x: (-((width / 2) as int)) as i32,
            y: half_height,
            color: triangle_vertex_color(0, phase),
        },
        Vertex { x: half_width, y: half_height, color: triangle_vertex_color(1, phase) },
        Vertex { x: 0, y: (-((height / 2) as int)) as i32, color: triangle_vertex_color(2, phase) },
    ]
}

/// The single triangle of the indicator mesh.
pub open spec fn triangle_indices() -> Seq<u32> {
    seq![0u32, 1, 2]
}

/// The advance-indicator triangle: always exactly 3 vertices and 1 triangle
/// (3 indices), with per-vertex colors driven by the blend factor `phase`
/// (in thousandths, negative values selecting the yellow pair and
/// non-negative the green pair).
pub fn get_colored_triangle_mesh(height: u32, width: u32, phase: i32) -> (g: Geometry)
    requires
        -(CHANNEL_FULL as int) <= phase <= CHANNEL_FULL,
    ensures
        g.vertices@ == triangle_vertices(height, width, phase),
        g.indices@ == triangle_indices(),
        g.vertices@.len() == 3,
        g.indices@.len() == 3,
        g.wf(),
{
    let half_height: i32 = (height / 2) as i32;
    let half_width: i32 = (width / 2) as i32;

    let color1 = blend_triangle_color(
        Rgba::new(50, 200, 950, 1000),
        Rgba::new(50, 950, 200, 1000),
        Rgba::new(950, 900, 200, 1000),
        phase,
    );
    let color2 = blend_triangle_color(
        Rgba::new(0, 170, 970, 1000),
        Rgba::new(0, 970, 170, 1000),
        Rgba::new(970, 950, 170, 1000),
        phase,
    );
    let color3 = blend_triangle_color(
        Rgba::new(0, 100, 980, 1000),
        Rgba::new(0, 980, 100, 1000),
        Rgba::new(980, 970, 300, 1000),
        phase,
    );

    let mut vertices: Vec<Vertex> = Vec::new();
    vertices.push(Vertex { x: -half_width, y: half_height, color: color1 });
    vertices.push(Vertex { x: half_width, y: half_height, color: color2 });
    vertices.push(Vertex { x: 0, y: -half_height, color: color3 });
    let indices: Vec<u32> = vec![0, 1, 2];

    proof {
        assert(vertices@ =~= triangle_vertices(height, width, phase));
        assert(indices@ =~= triangle_indices());
    }
    Geometry { vertices, indices }
}

/// Identical inputs always yield identical triangle geometry and vertex
/// colors: any two meshes that meet the triangle contract for the same
/// height, width and blend factor are equal, vertex for vertex and index
/// for index.
pub proof fn lemma_triangle_mesh_deterministic(
    g1: Geometry,
    g2: Geometry,
    height: u32,
    width: u32,
    phase: i32,
)
    requires
        g1.vertices@ == triangle_vertices(height, width, phase),
        g1.indices@ == triangle_indices(),
        g2.vertices@ == triangle_vertices(height, width, phase),
        g2.indices@ == triangle_indices(),
    ensures
        g1.vertices@ == g2.vertices@,
        g1.indices@ == g2.indices@,
{
}

/// The quad generator is just as deterministic: any two meshes that meet
/// the quad contract for the same cutout flag and alpha are equal.
pub proof fn lemma_quad_mesh_deterministic(
    g1: Geometry,
    g2: Geometry,
    with_cutout: bool,
    alpha: u32,
)
    requires
        g1.vertices@ == quad_vertices(with_cutout, alpha),
        g1.indices@ == quad_indices(with_cutout),
        g2.vertices@ == quad_vertices(with_cutout, alpha),
        g2.indices@ == quad_indices(with_cutout),
    ensures
        g1.vertices@ == g2.vertices@,
        g1.indices@ == g2.indices@,
{
}

/// Blends one triangle vertex between its rest tone and the pair selected
/// by the sign of `phase`, in exact agreement with `triangle_vertex_color`.
fn blend_triangle_color(base: Rgba, pos: Rgba, neg: Rgba, phase: i32) -> (c: Rgba)
    requires
        base.wf(),
        pos.wf(),
        neg.wf(),
        -(CHANNEL_FULL as int) <= phase <= CHANNEL_FULL,
    ensures
        phase >= 0 ==> c == mixed(base, pos, phase as u32),
        phase < 0 ==> c == mixed(base, neg, (-phase) as u32),
        c.wf(),
{
    if phase >= 0 {
        base.mix(&pos, phase as u32)
    } else {
        base.mix(&neg, (-phase) as u32)
    }
}

} // verus!
