use text_boxes::Rgba;
use text_boxes::textbox::TEXTBOX_FADE_IN_TIME_MS;
use text_boxes::textbox::text_box;
use text_boxes::textbox::text_line;

#[test]
fn text_box_builds_blank_state_and_invisible_layers() {
    let v = text_box(vec!["yo".to_string()], 2500);
    assert_eq!(v.state.text_strings, vec!["yo".to_string()]);
    assert_eq!(v.state.last_text_index_displayed, None);
    assert_eq!(v.state.time_since_last_text_displayed_ms, 0);
    assert!(!v.state.indicator_visible);

    // The drop shadow is the plain quad, the main layer the cutout frame,
    // both generated fully transparent.
    assert_eq!(v.bg_shadow_mesh.vertices.len(), 4);
    assert_eq!(v.main_bg_mesh.vertices.len(), 8);
    for vx in v.bg_shadow_mesh.vertices.iter().chain(v.main_bg_mesh.vertices.iter()) {
        assert_eq!(vx.color.a, 0);
    }

    assert!(!v.bg_shadow.is_visible);
    assert_eq!(v.bg_shadow.visible_alpha, 200);
    assert_eq!(v.bg_shadow.appearance_time_ms, TEXTBOX_FADE_IN_TIME_MS);
    assert_eq!(v.bg_shadow.spawn_time_ms, 2500);
    assert!(!v.bg_shadow.with_cutout);

    assert!(!v.main_bg.is_visible);
    assert_eq!(v.main_bg.visible_alpha, 1000);
    assert_eq!(v.main_bg.appearance_time_ms, TEXTBOX_FADE_IN_TIME_MS);
    assert_eq!(v.main_bg.spawn_time_ms, 2500);
    assert!(v.main_bg.with_cutout);
}

#[test]
fn text_line_layers_share_the_spawn_instant() {
    let v = text_line("hello".to_string(), 1234);
    assert_eq!(v.text, "hello");
    assert_eq!(v.shadow.spawn_time_ms, 1234);
    assert_eq!(v.face.spawn_time_ms, 1234);
    assert_eq!(v.shadow.appearance_time_ms, TEXTBOX_FADE_IN_TIME_MS);
    assert_eq!(v.face.appearance_time_ms, TEXTBOX_FADE_IN_TIME_MS);
    assert!(!v.shadow.is_visible);
    assert!(!v.face.is_visible);
    assert_eq!(v.shadow.visible_color, Rgba::new(0, 0, 0, 1000));
    assert_eq!(v.face.visible_color, Rgba::new(973, 973, 1000, 1000));
}

#[test]
fn freshly_built_layers_fade_in_from_the_spawn_frame() {
    // A layer spawned this frame starts its ramp at the current clock, so
    // stepping it at the spawn instant yields zero alpha, and a full
    // fade-in time later it is fully revealed.
    let mut v = text_box(vec!["yo".to_string()], 1000);
    assert_eq!(v.main_bg.step(1000), Some(0));
    assert_eq!(v.main_bg.step(1000 + TEXTBOX_FADE_IN_TIME_MS), Some(1000));
    assert!(v.main_bg.is_visible);
    assert_eq!(v.bg_shadow.step(1000 + TEXTBOX_FADE_IN_TIME_MS), Some(200));
}
