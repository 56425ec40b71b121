use cube3d::{
    about_title, banner, blank_pixels, face_color, help_text, pixel_count, triangle_indices,
    FrameCounter, Rgb, NANOS_PER_SECOND,
};

#[test]
fn frames_counted_until_a_second_passes() {
    let mut c = FrameCounter::new();
    assert_eq!(c.frames(), 0);
    assert_eq!(c.record_frame(10), None);
    assert_eq!(c.record_frame(500_000_000), None);
    assert_eq!(c.frames(), 2);
    assert_eq!(c.record_frame(NANOS_PER_SECOND - 1), None);
    assert_eq!(c.record_frame(NANOS_PER_SECOND), Some(4));
    assert_eq!(c.frames(), 0);
    assert_eq!(c.record_frame(3 * NANOS_PER_SECOND), Some(1));
    assert_eq!(c.frames(), 0);
}

#[test]
fn triangles_are_picked_in_order() {
    let counts = vec![3, 4, 3, 0, 5, 3];
    assert_eq!(triangle_indices(&counts), vec![0, 2, 5]);
    assert_eq!(triangle_indices(&vec![]), Vec::<usize>::new());
    assert_eq!(triangle_indices(&vec![4, 4]), Vec::<usize>::new());
}

#[test]
fn buffer_sizes() {
    assert_eq!(pixel_count(640, 480), 307_200);
    let px = blank_pixels(3, 2);
    assert_eq!(px.len(), 24);
    assert!(px.iter().all(|b| *b == 0));
    assert_eq!(blank_pixels(0, 100).len(), 0);
}

#[test]
fn palette() {
    assert_eq!(face_color(0), Rgb { r: 255, g: 0, b: 0 });
    assert_eq!(face_color(1), Rgb { r: 0, g: 255, b: 0 });
    assert_eq!(face_color(2), Rgb { r: 0, g: 0, b: 255 });
    assert_eq!(face_color(3), Rgb { r: 255, g: 255, b: 0 });
    assert_eq!(face_color(4), Rgb { r: 255, g: 0, b: 255 });
    assert_eq!(face_color(5), Rgb { r: 0, g: 255, b: 255 });
}

const CONTROLS: &str = "Controls:\n - H: Open this help window\n - Q: Quit the application\n - D: Toggle debug mode\n - P: Pause/unpause rotation\n - W: Toggle wireframe mode\n - R: Reset cube\n - Mouse Left Drag: Rotate cube\n - Mouse Right Drag: Translate cube\n - Mouse Wheel: Zoom in/out\n\n";

#[test]
fn help_text_with_authors() {
    let t = help_text("Ann <ann@example.org>", "0.3.1");
    assert_eq!(t, format!("{}Author(s): Ann <ann@example.org>\nVersion: 0.3.1\n", CONTROLS));
}

#[test]
fn help_text_without_authors() {
    let t = help_text("", "1.0.0");
    assert_eq!(t, format!("{}Version: 1.0.0\n", CONTROLS));
}

#[test]
fn about_title_names_program() {
    assert_eq!(about_title("cube3d"), "About cube3d");
}

#[test]
fn banner_joins_name_and_version() {
    assert_eq!(banner("cube3d", "0.2.0"), "cube3d 0.2.0");
    assert_eq!(banner("", ""), " ");
}
