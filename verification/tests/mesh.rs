use text_boxes::Rgba;
use text_boxes::Vertex;
use text_boxes::mesh::get_colored_triangle_mesh;
use text_boxes::mesh::get_text_box_mesh;

#[test]
fn quad_plain_has_four_vertices_two_triangles() {
    let g = get_text_box_mesh(false, 300);
    assert_eq!(g.vertices.len(), 4);
    assert_eq!(g.indices.len(), 6);
    assert_eq!(g.indices, vec![0, 1, 2, 3, 0, 2]);
}

#[test]
fn quad_plain_exact_vertices() {
    let g = get_text_box_mesh(false, 300);
    assert_eq!(
        g.vertices,
        vec![
            Vertex { x: -350, y: 100, color: Rgba::new(950, 50, 200, 300) },
            Vertex { x: 350, y: 100, color: Rgba::new(970, 0, 170, 300) },
            Vertex { x: 350, y: -100, color: Rgba::new(980, 0, 100, 300) },
            Vertex { x: -350, y: -100, color: Rgba::new(920, 100, 100, 300) },
        ]
    );
}

#[test]
fn quad_cutout_has_eight_vertices_eight_triangles() {
    let g = get_text_box_mesh(true, 1000);
    assert_eq!(g.vertices.len(), 8);
    assert_eq!(g.indices.len(), 24);
    assert_eq!(
        g.indices,
        vec![0, 1, 4, 4, 1, 5, 5, 1, 2, 6, 5, 2, 3, 7, 6, 2, 3, 6, 3, 4, 7, 4, 3, 0]
    );
}

#[test]
fn quad_cutout_inset_corners_repeat_tones() {
    let g = get_text_box_mesh(true, 1000);
    assert_eq!(g.vertices[4], Vertex { x: -340, y: 90, color: Rgba::new(950, 50, 200, 1000) });
    assert_eq!(g.vertices[5], Vertex { x: 340, y: 90, color: Rgba::new(970, 0, 170, 1000) });
    assert_eq!(g.vertices[6], Vertex { x: 340, y: -90, color: Rgba::new(980, 0, 100, 1000) });
    assert_eq!(g.vertices[7], Vertex { x: -340, y: -90, color: Rgba::new(920, 100, 100, 1000) });
}

#[test]
fn quad_alpha_baked_into_every_vertex() {
    let g = get_text_box_mesh(true, 42);
    for v in &g.vertices {
        assert_eq!(v.color.a, 42);
    }
    let zero = get_text_box_mesh(false, 0);
    for v in &zero.vertices {
        assert_eq!(v.color.a, 0);
    }
}

#[test]
fn triangle_has_three_vertices_one_triangle() {
    let g = get_colored_triangle_mesh(28, 34, 0);
    assert_eq!(g.vertices.len(), 3);
    assert_eq!(g.indices, vec![0, 1, 2]);
    assert_eq!(g.vertices[0].x, -17);
    assert_eq!(g.vertices[0].y, 14);
    assert_eq!(g.vertices[1].x, 17);
    assert_eq!(g.vertices[1].y, 14);
    assert_eq!(g.vertices[2].x, 0);
    assert_eq!(g.vertices[2].y, -14);
}

#[test]
fn triangle_rest_colors_are_blue() {
    let g = get_colored_triangle_mesh(28, 34, 0);
    assert_eq!(g.vertices[0].color, Rgba::new(50, 200, 950, 1000));
    assert_eq!(g.vertices[1].color, Rgba::new(0, 170, 970, 1000));
    assert_eq!(g.vertices[2].color, Rgba::new(0, 100, 980, 1000));
}

#[test]
fn triangle_full_positive_blend_is_green() {
    let g = get_colored_triangle_mesh(28, 34, 1000);
    assert_eq!(g.vertices[0].color, Rgba::new(50, 950, 200, 1000));
    assert_eq!(g.vertices[1].color, Rgba::new(0, 970, 170, 1000));
    assert_eq!(g.vertices[2].color, Rgba::new(0, 980, 100, 1000));
}

#[test]
fn triangle_full_negative_blend_is_yellow() {
    let g = get_colored_triangle_mesh(28, 34, -1000);
    assert_eq!(g.vertices[0].color, Rgba::new(950, 900, 200, 1000));
    assert_eq!(g.vertices[1].color, Rgba::new(970, 950, 170, 1000));
    assert_eq!(g.vertices[2].color, Rgba::new(980, 970, 300, 1000));
}

#[test]
fn triangle_half_blend_exact() {
    // Each channel is the average of the blue and green tones at t = 500.
    let g = get_colored_triangle_mesh(28, 34, 500);
    assert_eq!(g.vertices[0].color, Rgba::new(50, 575, 575, 1000));
}

#[test]
fn triangle_mesh_deterministic() {
    for phase in [-1000, -333, 0, 250, 1000] {
        let g1 = get_colored_triangle_mesh(28, 34, phase);
        let g2 = get_colored_triangle_mesh(28, 34, phase);
        assert_eq!(g1.vertices, g2.vertices);
        assert_eq!(g1.indices, g2.indices);
    }
}

#[test]
fn quad_mesh_deterministic() {
    for alpha in [0, 17, 500, 1000] {
        let g1 = get_text_box_mesh(true, alpha);
        let g2 = get_text_box_mesh(true, alpha);
        assert_eq!(g1.vertices, g2.vertices);
        assert_eq!(g1.indices, g2.indices);
    }
}
