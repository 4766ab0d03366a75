//! End-to-end tests of the gloss library: geometry, colors, rendering and
//! event translation, exercised on concrete values.

use gloss::event::{Event, HostAction, HostEvent, HostKey, host_event_to_gloss};
use gloss::extrude_thickline::{extrude_thickline, get_miter, get_normal, normalize};
use gloss::picture::{Color, Picture, Point, color_to_rgba, point};
use gloss::render::{CIRCLE_POINTS, DeviceOp, Renderer, circle_to_polygon};

fn bits(x: f32) -> u32 {
    x.to_bits()
}

fn val(u: u32) -> f32 {
    f32::from_bits(u)
}

fn pt(x: f32, y: f32) -> Point {
    point(bits(x), bits(y))
}

fn assert_close(u: u32, expected: f32, tol: f32) {
    let got = val(u);
    assert!(
        (got - expected).abs() <= tol,
        "expected {} within {}, got {}",
        expected,
        tol,
        got
    );
}

fn white() -> (u32, u32, u32, u32) {
    (bits(1.0), bits(1.0), bits(1.0), bits(1.0))
}

#[test]
fn normalize_zero_vector_unchanged() {
    let zero = pt(0.0, 0.0);
    let r = normalize(zero);
    assert_eq!(r, zero);
    // The sign of a zero coordinate passes through untouched as well.
    let neg_zero = pt(-0.0, 0.0);
    let r2 = normalize(neg_zero);
    assert_eq!(r2, neg_zero);
}

#[test]
fn normalize_scales_to_unit_length() {
    let r = normalize(pt(3.0, 4.0));
    assert_close(r.x, 0.6, 1e-6);
    assert_close(r.y, 0.8, 1e-6);
}

#[test]
fn get_normal_is_left_perpendicular() {
    // Tangent from (2,0) toward (0,0) is (-1,0); its left-hand
    // perpendicular is (0,-1).
    let n = get_normal(pt(0.0, 0.0), pt(2.0, 0.0));
    assert_close(n.x, 0.0, 1e-6);
    assert_close(n.y, -1.0, 1e-6);
}

#[test]
fn miter_at_right_angle_bisects_with_sqrt2_length() {
    // Right angle at the origin: tangents (0,1) and (1,0); the miter is
    // their bisector scaled by 1/sin(45 degrees), i.e. length sqrt(2).
    let m = get_miter(pt(0.0, 1.0), pt(0.0, 0.0), pt(1.0, 0.0));
    assert_close(m.x, -1.0, 1e-5);
    assert_close(m.y, -1.0, 1e-5);
    let len = (val(m.x) * val(m.x) + val(m.y) * val(m.y)).sqrt();
    assert_close(bits(len), std::f32::consts::SQRT_2, 1e-5);
}

#[test]
fn extrude_returns_two_points_per_vertex() {
    let path = vec![pt(0.0, 0.0), pt(1.0, 0.0), pt(1.0, 1.0), pt(2.0, 1.0)];
    let out = extrude_thickline(&path, bits(0.5));
    assert_eq!(out.len(), 8);

    let two = vec![pt(0.0, 0.0), pt(2.0, 0.0)];
    assert_eq!(extrude_thickline(&two, bits(1.0)).len(), 4);
}

#[test]
fn extrude_zero_thickness_collapses_to_path() {
    let path = vec![pt(0.0, 0.0), pt(1.0, 0.0), pt(1.0, 1.0)];
    let out = extrude_thickline(&path, bits(0.0));
    assert_eq!(out.len(), 6);
    for i in 0..path.len() {
        for j in [2 * i, 2 * i + 1] {
            assert_close(out[j].x, val(path[i].x), 1e-6);
            assert_close(out[j].y, val(path[i].y), 1e-6);
        }
    }
}

#[test]
fn extrude_two_point_line_uses_endpoint_rule_on_both_ends() {
    // Horizontal segment, thickness 1: both vertices extrude by the
    // endpoint normal (0,-1) scaled by 1/2.
    let line = vec![pt(0.0, 0.0), pt(2.0, 0.0)];
    let out = extrude_thickline(&line, bits(1.0));
    let expected = [
        (0.0, -0.5),
        (0.0, 0.5),
        (2.0, -0.5),
        (2.0, 0.5),
    ];
    assert_eq!(out.len(), 4);
    for (got, want) in out.iter().zip(expected.iter()) {
        assert_close(got.x, want.0, 1e-6);
        assert_close(got.y, want.1, 1e-6);
    }
}

#[test]
fn circle_to_polygon_shape() {
    let radius: f32 = 2.0;
    let n: usize = 8;
    let pts = circle_to_polygon(bits(radius), n);

    // Always n + 2 points, the first being the center (0,0) exactly.
    assert_eq!(pts.len(), n + 2);
    assert_eq!(pts[0], pt(0.0, 0.0));

    // The first and last rim points coincide, closing the fan.
    assert_close(pts[1].x, val(pts[n + 1].x), 1e-4);
    assert_close(pts[1].y, val(pts[n + 1].y), 1e-4);

    // Every rim point lies on the circle of the given radius.
    for p in &pts[1..] {
        let d = (val(p.x) * val(p.x) + val(p.y) * val(p.y)).sqrt();
        assert_close(bits(d), radius, 1e-4);
    }

    // The walk starts at angle zero and runs counter-clockwise.
    assert_close(pts[1].x, radius, 1e-5);
    assert_close(pts[1].y, 0.0, 1e-5);
    assert!(val(pts[2].y) > 0.0);
}

#[test]
fn color_to_rgba_numeric_channels_pass_through_exactly() {
    let (r, g, b, a) = color_to_rgba(Color::RGB(bits(0.2), bits(0.4), bits(0.6)));
    assert_eq!(val(r), 0.2);
    assert_eq!(val(g), 0.4);
    assert_eq!(val(b), 0.6);
    assert_eq!(val(a), 1.0);

    let (r, g, b, a) = color_to_rgba(Color::Black);
    assert_eq!((val(r), val(g), val(b), val(a)), (0.0, 0.0, 0.0, 1.0));

    let q = color_to_rgba(Color::RGBA(bits(0.1), bits(0.3), bits(0.5), bits(0.7)));
    assert_eq!((val(q.0), val(q.1), val(q.2), val(q.3)), (0.1, 0.3, 0.5, 0.7));
}

#[test]
fn color_to_rgba_presets() {
    let one = bits(1.0);
    assert_eq!(color_to_rgba(Color::Blue), (0, 0, one, one));
    assert_eq!(color_to_rgba(Color::Green), (0, one, 0, one));
    assert_eq!(color_to_rgba(Color::Red), (one, 0, 0, one));
    assert_eq!(color_to_rgba(Color::White), (one, one, one, one));
}

/// Walk a command list as the device would, returning the ambient draw
/// color in effect when each draw call (fan or strip) is issued, and the
/// ambient color left at the end.
fn ambient_at_draw_calls(
    ops: &[DeviceOp],
    start: (u32, u32, u32, u32),
) -> (Vec<(u32, u32, u32, u32)>, (u32, u32, u32, u32)) {
    let mut current = start;
    let mut at_draws = Vec::new();
    for op in ops {
        match op {
            DeviceOp::SetUniformColor(r, g, b, a) => current = (*r, *g, *b, *a),
            DeviceOp::DrawTriangleFan(_) | DeviceOp::DrawLineStrip(_) => at_draws.push(current),
            _ => {}
        }
    }
    (at_draws, current)
}

#[test]
fn colored_sibling_does_not_leak_color() {
    // Device starts at White. The first child paints nothing in Red; the
    // sibling triangle must still be drawn with White, and the frame must
    // leave the ambient color at White.
    let triangle = vec![pt(0.0, 0.0), pt(1.0, 0.0), pt(0.0, 1.0)];
    let picture = Picture::Pictures(vec![
        Picture::Colored(Color::Red, Box::new(Picture::Blank)),
        Picture::Polygon(triangle),
    ]);
    let renderer = Renderer::new(Color::Black);
    let ops = renderer.draw(&picture);

    let (at_draws, end) = ambient_at_draw_calls(&ops, white());
    assert_eq!(at_draws, vec![white()]);
    assert_eq!(end, white());
}

#[test]
fn nested_colored_restores_outer_color() {
    // Colored(Red, Colored(Blue, Polygon)) then a sibling polygon: the
    // inner polygon is drawn with Blue, the sibling with White, and the
    // ambient color ends as it began.
    let pts1 = vec![pt(0.0, 0.0), pt(1.0, 0.0), pt(0.0, 1.0)];
    let pts2 = vec![pt(0.0, 0.0), pt(-1.0, 0.0), pt(0.0, -1.0)];
    let picture = Picture::Pictures(vec![
        Picture::Colored(
            Color::Red,
            Box::new(Picture::Colored(Color::Blue, Box::new(Picture::Polygon(pts1)))),
        ),
        Picture::Polygon(pts2),
    ]);
    let renderer = Renderer::new(Color::Black);
    let ops = renderer.draw(&picture);

    let blue = color_to_rgba(Color::Blue);
    let (at_draws, end) = ambient_at_draw_calls(&ops, white());
    assert_eq!(at_draws, vec![blue, white()]);
    assert_eq!(end, white());
}

#[test]
fn blank_issues_zero_draw_calls() {
    let renderer = Renderer::new(Color::Black);
    let ops = renderer.draw(&Picture::Blank);
    // A frame around a blank picture is just clear and present.
    assert_eq!(ops.len(), 3);
    assert!(matches!(ops[0], DeviceOp::SetClearColor(..)));
    assert!(matches!(ops[1], DeviceOp::Clear));
    assert!(matches!(ops[2], DeviceOp::Present));
}

#[test]
fn polygon_uploads_its_points_and_draws_a_fan() {
    let pts = vec![pt(0.0, 0.0), pt(1.0, 0.0), pt(0.0, 1.0)];
    let renderer = Renderer::new(Color::White);
    let ops = renderer.draw(&Picture::Polygon(pts.clone()));
    assert_eq!(ops.len(), 5);
    match &ops[2] {
        DeviceOp::UploadVertices(v) => assert_eq!(v, &pts),
        other => panic!("expected an upload, got {:?}", describe(other)),
    }
    assert!(matches!(ops[3], DeviceOp::DrawTriangleFan(3)));
}

#[test]
fn line_uploads_its_points_and_draws_a_strip() {
    let pts = vec![pt(-1.0, -1.0), pt(1.0, 1.0)];
    let renderer = Renderer::new(Color::Black);
    let ops = renderer.draw(&Picture::Line(pts.clone()));
    assert_eq!(ops.len(), 5);
    match &ops[2] {
        DeviceOp::UploadVertices(v) => assert_eq!(v, &pts),
        other => panic!("expected an upload, got {:?}", describe(other)),
    }
    assert!(matches!(ops[3], DeviceOp::DrawLineStrip(2)));
}

#[test]
fn circle_node_uploads_a_tessellated_fan() {
    let renderer = Renderer::new(Color::Black);
    let ops = renderer.draw(&Picture::Circle(bits(200.0)));
    assert_eq!(ops.len(), 5);
    match &ops[2] {
        DeviceOp::UploadVertices(v) => {
            assert_eq!(v.len(), CIRCLE_POINTS + 2);
            assert_eq!(v[0], pt(0.0, 0.0));
        }
        other => panic!("expected an upload, got {:?}", describe(other)),
    }
    assert!(matches!(ops[3], DeviceOp::DrawTriangleFan(n) if n == CIRCLE_POINTS + 2));
}

#[test]
fn unimplemented_variants_signal_unsupported() {
    let renderer = Renderer::new(Color::Black);
    for picture in [
        Picture::Text(String::from("hello")),
        Picture::ThickCircle(bits(1.0), bits(2.0)),
        Picture::Arc(bits(0.0), bits(90.0), bits(1.0)),
        Picture::ThickArc(bits(1.0), bits(0.0), bits(90.0), bits(1.0)),
        Picture::Translate(bits(1.0), bits(2.0), Box::new(Picture::Blank)),
        Picture::Rotate(bits(45.0), Box::new(Picture::Blank)),
        Picture::Scale(bits(2.0), bits(2.0), Box::new(Picture::Blank)),
        Picture::Bitmap(4, 4, false, true),
    ] {
        let ops = renderer.draw(&picture);
        let unsupported = ops
            .iter()
            .filter(|op| matches!(op, DeviceOp::Unsupported))
            .count();
        assert_eq!(unsupported, 1);
    }
}

#[test]
fn clear_color_follows_background() {
    let renderer = Renderer::new(Color::RGB(bits(0.0), bits(0.6), bits(0.8)));
    let ops = renderer.draw(&Picture::Blank);
    match ops[0] {
        DeviceOp::SetClearColor(r, g, b, a) => {
            assert_eq!((val(r), val(g), val(b), val(a)), (0.0, 0.6, 0.8, 1.0));
        }
        _ => panic!("first command must set the clear color"),
    }
}

fn describe(op: &DeviceOp) -> &'static str {
    match op {
        DeviceOp::SetClearColor(..) => "SetClearColor",
        DeviceOp::Clear => "Clear",
        DeviceOp::UploadVertices(_) => "UploadVertices",
        DeviceOp::DrawTriangleFan(_) => "DrawTriangleFan",
        DeviceOp::DrawLineStrip(_) => "DrawLineStrip",
        DeviceOp::SetUniformColor(..) => "SetUniformColor",
        DeviceOp::Present => "Present",
        DeviceOp::Unsupported => "Unsupported",
    }
}

#[test]
fn escape_press_is_a_key_press() {
    assert_eq!(
        host_event_to_gloss(HostEvent::Key(HostKey::Escape, HostAction::Press)),
        Event::KeyPress
    );
}

#[test]
fn every_other_host_event_is_a_mouse_press() {
    // Known over-coarse current behavior, asserted as such: everything
    // except an escape key press collapses to MousePress.
    let others = [
        HostEvent::Key(HostKey::Escape, HostAction::Release),
        HostEvent::Key(HostKey::Escape, HostAction::Repeat),
        HostEvent::Key(HostKey::Other, HostAction::Press),
        HostEvent::Key(HostKey::Other, HostAction::Release),
        HostEvent::MouseButton(HostAction::Press),
        HostEvent::CursorPos,
        HostEvent::Size,
        HostEvent::Other,
    ];
    for e in others {
        assert_eq!(host_event_to_gloss(e), Event::MousePress);
    }
}
