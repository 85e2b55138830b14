use text_boxes::Rgba;
use text_boxes::TextBoxMesh;
use text_boxes::TextBoxText;

#[test]
fn mesh_reveal_starts_at_zero() {
    let mut m = TextBoxMesh::new(100, 0, 1000, false);
    assert_eq!(m.step(0), Some(0));
    assert!(!m.is_visible);
}

#[test]
fn mesh_reveal_before_spawn_is_zero() {
    let mut m = TextBoxMesh::new(100, 50, 1000, false);
    assert_eq!(m.step(10), Some(0));
    assert!(!m.is_visible);
}

#[test]
fn mesh_reveal_midway_scales_target() {
    let mut m = TextBoxMesh::new(100, 0, 1000, false);
    assert_eq!(m.step(50), Some(500));
    assert!(!m.is_visible);
}

#[test]
fn mesh_reveal_exact_fraction() {
    // 200 * 100 / 125 = 160 in integer arithmetic.
    let mut m = TextBoxMesh::new(125, 0, 200, false);
    assert_eq!(m.step(100), Some(160));
    assert!(!m.is_visible);
}

#[test]
fn mesh_reveal_completes_at_duration() {
    let mut m = TextBoxMesh::new(100, 0, 1000, false);
    assert_eq!(m.step(100), Some(1000));
    assert!(m.is_visible);
}

#[test]
fn mesh_reveal_completes_past_duration() {
    let mut m = TextBoxMesh::new(100, 30, 700, true);
    assert_eq!(m.step(500), Some(700));
    assert!(m.is_visible);
}

#[test]
fn mesh_reveal_latches_and_freezes() {
    let mut m = TextBoxMesh::new(100, 0, 1000, false);
    assert_eq!(m.step(200), Some(1000));
    assert!(m.is_visible);
    // Once visible the element is frozen: no value is recomputed again.
    assert_eq!(m.step(250), None);
    assert_eq!(m.step(0), None);
    assert!(m.is_visible);
}

#[test]
fn mesh_reveal_zero_duration_is_immediate() {
    let mut m = TextBoxMesh::new(0, 10, 200, true);
    assert_eq!(m.step(10), Some(200));
    assert!(m.is_visible);
    let mut early = TextBoxMesh::new(0, 10, 200, true);
    assert_eq!(early.step(0), Some(200));
    assert!(early.is_visible);
}

#[test]
fn mesh_reveal_monotonic_samples() {
    let mut last = 0u32;
    for now in 0..130u64 {
        let mut m = TextBoxMesh::new(100, 0, 1000, false);
        let a = m.step(now).unwrap_or(1000);
        assert!(a >= last);
        last = a;
    }
}

#[test]
fn text_reveal_ramps_alpha_channel() {
    let white = Rgba::new(973, 973, 1000, 1000);
    let mut t = TextBoxText::new(100, 0, white);
    let c = t.step(50).unwrap();
    assert_eq!(c, Rgba::new(973, 973, 1000, 500));
    assert!(!t.is_visible);
}

#[test]
fn text_reveal_completes_with_target_color() {
    let white = Rgba::new(973, 973, 1000, 1000);
    let mut t = TextBoxText::new(100, 0, white);
    assert_eq!(t.step(100), Some(white));
    assert!(t.is_visible);
    assert_eq!(t.step(150), None);
}

#[test]
fn mesh_reveal_at_the_far_end_of_the_clock() {
    let mut m = TextBoxMesh::new(u64::MAX, 0, 1000, false);
    // One tick short of the full duration the ramp is still scaling.
    assert_eq!(m.step(u64::MAX - 1), Some(999));
    assert!(!m.is_visible);
    assert_eq!(m.step(u64::MAX), Some(1000));
    assert!(m.is_visible);
}

#[test]
fn text_reveal_zero_duration_is_immediate() {
    let black = Rgba::new(0, 0, 0, 1000);
    let mut t = TextBoxText::new(0, 40, black);
    assert_eq!(t.step(40), Some(black));
    assert!(t.is_visible);
}
