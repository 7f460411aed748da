use solstice_backend::backend::{Config, SolsticeBackend, DEFAULT_CAPACITY};
use solstice_backend::color::{color_into, Color, EngineColor, ALPHA_OPAQUE};
use solstice_backend::errors::{DrawError, EngineError};
use solstice_backend::records::{DrawRecord, FontId, RectGeom};
use solstice_backend::style::{
    FontTransform, HPos, LayoutBox, LayoutError, LayoutService, Style, TextStyle, VPos,
};

fn fresh(width: u32, height: u32) -> SolsticeBackend {
    SolsticeBackend::new(width, height, FontId { id: 0 }, Config::default())
}

fn opaque(r: u8, g: u8, b: u8) -> Color {
    Color { r, g, b, alpha: ALPHA_OPAQUE }
}

/// A layout collaborator that must never be consulted.
struct PanicLayout;

impl LayoutService for PanicLayout {
    fn layout_box(&self, _text: &str, _style: &TextStyle) -> Result<LayoutBox, LayoutError> {
        panic!("the layout service must not be consulted");
    }
}

/// A layout collaborator that measures every text to the same box.
struct FixedLayout {
    layout: LayoutBox,
}

impl LayoutService for FixedLayout {
    fn layout_box(&self, _text: &str, _style: &TextStyle) -> Result<LayoutBox, LayoutError> {
        Ok(self.layout)
    }
}

/// A layout collaborator that cannot measure anything.
struct FailingLayout;

impl LayoutService for FailingLayout {
    fn layout_box(&self, _text: &str, _style: &TextStyle) -> Result<LayoutBox, LayoutError> {
        Err(LayoutError { message: String::from("unmeasurable") })
    }
}

#[test]
fn it_works() {
    let result = 2 + 2;
    assert_eq!(result, 4);
}

#[test]
fn convert_is_exact() {
    let converted = color_into(opaque(255, 0, 0));
    assert_eq!(
        converted,
        EngineColor { red_num: 255, green_num: 0, blue_num: 0, alpha: ALPHA_OPAQUE }
    );
    let converted = color_into(Color { r: 10, g: 20, b: 30, alpha: 123 });
    assert_eq!(converted, EngineColor { red_num: 10, green_num: 20, blue_num: 30, alpha: 123 });
}

#[test]
fn pixel_out_of_bounds_appends_nothing() {
    let mut backend = fresh(100, 80);
    for point in [(-1, 0), (0, -1), (100, 0), (0, 80), (i32::MIN, i32::MAX)] {
        assert!(backend.draw_pixel(point, opaque(1, 2, 3)).is_ok());
    }
    assert_eq!(backend.present().len(), 0);
}

#[test]
fn pixel_in_bounds_appends_one_filled_unit_rect() {
    let mut backend = fresh(100, 80);
    assert!(backend.draw_pixel((3, 4), opaque(255, 0, 0)).is_ok());
    let frame = backend.present();
    assert_eq!(
        frame,
        vec![DrawRecord::FillRect {
            rect: RectGeom { x: 3, y: 4, width: 1, height: 1 },
            color: EngineColor { red_num: 255, green_num: 0, blue_num: 0, alpha: ALPHA_OPAQUE },
        }]
    );
}

#[test]
fn pixel_on_edge_is_clipped_exactly() {
    let mut backend = fresh(100, 80);
    assert!(backend.draw_pixel((99, 79), opaque(0, 0, 0)).is_ok());
    assert!(backend.draw_pixel((99, 80), opaque(0, 0, 0)).is_ok());
    assert_eq!(backend.present().len(), 1);
}

#[test]
fn zero_alpha_text_skips_layout_and_appends_nothing() {
    let mut backend = fresh(100, 80);
    let style = TextStyle {
        size: 12,
        color: Color { r: 9, g: 9, b: 9, alpha: 0 },
        h_pos: HPos::Left,
        v_pos: VPos::Top,
        transform: FontTransform::Identity,
    };
    let outcome = backend.draw_text("invisible", &style, (5, 5), &PanicLayout);
    assert!(outcome.is_ok());
    assert_eq!(backend.present().len(), 0);
}

#[test]
fn center_center_places_at_minus_half_extents() {
    let mut backend = fresh(1024, 768);
    let style = TextStyle {
        size: 12,
        color: opaque(0, 0, 0),
        h_pos: HPos::Center,
        v_pos: VPos::Center,
        transform: FontTransform::Identity,
    };
    let layout = FixedLayout { layout: LayoutBox { min_x: 0, min_y: 0, max_x: 10, max_y: 6 } };
    assert!(backend.draw_text("hi", &style, (100, 50), &layout).is_ok());
    let frame = backend.present();
    match &frame[..] {
        [DrawRecord::Text { bounds, .. }] => {
            assert_eq!((bounds.x, bounds.y), (95, 47));
            assert_eq!((bounds.width, bounds.height), (1024, 768));
        }
        other => panic!("expected one text record, got {:?}", other),
    }
}

#[test]
fn right_bottom_anchor_offsets_by_full_extents() {
    let mut backend = fresh(1024, 768);
    let style = TextStyle {
        size: 12,
        color: opaque(0, 0, 0),
        h_pos: HPos::Right,
        v_pos: VPos::Bottom,
        transform: FontTransform::Identity,
    };
    let layout = FixedLayout { layout: LayoutBox { min_x: 2, min_y: 1, max_x: 12, max_y: 7 } };
    assert!(backend.draw_text("hi", &style, (100, 50), &layout).is_ok());
    let frame = backend.present();
    match &frame[..] {
        [DrawRecord::Text { bounds, .. }] => assert_eq!((bounds.x, bounds.y), (88, 43)),
        other => panic!("expected one text record, got {:?}", other),
    }
}

#[test]
fn rotated_text_transforms_the_placed_origin() {
    let mut backend = fresh(1024, 768);
    let style = TextStyle {
        size: 12,
        color: opaque(0, 0, 0),
        h_pos: HPos::Left,
        v_pos: VPos::Top,
        transform: FontTransform::Rotate90,
    };
    let layout = FixedLayout { layout: LayoutBox { min_x: 0, min_y: 0, max_x: 4, max_y: 4 } };
    assert!(backend.draw_text("up", &style, (7, 9), &layout).is_ok());
    let frame = backend.present();
    match &frame[..] {
        [DrawRecord::Text { bounds, .. }] => assert_eq!((bounds.x, bounds.y), (-9, 7)),
        other => panic!("expected one text record, got {:?}", other),
    }
}

#[test]
fn text_record_carries_content_font_scale_and_color() {
    let mut backend =
        SolsticeBackend::new(640, 480, FontId { id: 7 }, Config::default());
    let style = TextStyle {
        size: 24,
        color: Color { r: 1, g: 2, b: 3, alpha: 500_000 },
        h_pos: HPos::Left,
        v_pos: VPos::Top,
        transform: FontTransform::Identity,
    };
    let layout = FixedLayout { layout: LayoutBox { min_x: 0, min_y: 0, max_x: 30, max_y: 10 } };
    assert!(backend.draw_text("label", &style, (0, 0), &layout).is_ok());
    let frame = backend.present();
    assert_eq!(
        frame,
        vec![DrawRecord::Text {
            content: String::from("label"),
            font: FontId { id: 7 },
            scale: 24,
            bounds: RectGeom { x: 0, y: 0, width: 640, height: 480 },
            color: EngineColor { red_num: 1, green_num: 2, blue_num: 3, alpha: 500_000 },
        }]
    );
}

#[test]
fn failed_layout_surfaces_font_error_and_appends_nothing() {
    let mut backend = fresh(100, 80);
    let style = TextStyle {
        size: 12,
        color: opaque(0, 0, 0),
        h_pos: HPos::Left,
        v_pos: VPos::Top,
        transform: FontTransform::Identity,
    };
    let outcome = backend.draw_text("bad", &style, (5, 5), &FailingLayout);
    match outcome {
        Err(DrawError::FontLayout(e)) => assert_eq!(e.message, "unmeasurable"),
        other => panic!("expected a font layout error, got {:?}", other),
    }
    assert_eq!(backend.present().len(), 0);
}

#[test]
fn engine_submission_variant_wraps_engine_failures() {
    let error = DrawError::EngineSubmission(EngineError { message: String::from("lost context") });
    assert!(matches!(error, DrawError::EngineSubmission(_)));
}

#[test]
fn present_always_leaves_the_list_empty() {
    let mut backend = fresh(100, 80);
    let style = Style { stroke_width: 1, color: opaque(0, 0, 0) };
    assert!(backend.draw_line((0, 0), (10, 10), &style).is_ok());
    assert_eq!(backend.present().len(), 1);
    assert_eq!(backend.present().len(), 0);
    assert!(backend.draw_line((0, 0), (1, 1), &style).is_ok());
    assert_eq!(backend.present().len(), 1);
}

#[test]
fn two_lines_then_present_submits_both_in_call_order() {
    let mut backend = fresh(100, 80);
    let style = Style { stroke_width: 3, color: opaque(10, 20, 30) };
    assert!(backend.draw_line((0, 0), (10, 10), &style).is_ok());
    assert!(backend.draw_line((20, 20), (30, 5), &style).is_ok());
    let frame = backend.present();
    assert_eq!(frame.len(), 2);
    match &frame[..] {
        [DrawRecord::Lines { vertices: first }, DrawRecord::Lines { vertices: second }] => {
            assert_eq!((first[0].x, first[0].y), (0, 0));
            assert_eq!((first[1].x, first[1].y), (10, 10));
            assert_eq!((second[0].x, second[0].y), (20, 20));
            assert_eq!((second[1].x, second[1].y), (30, 5));
        }
        other => panic!("expected two line records, got {:?}", other),
    }
}

#[test]
fn line_vertices_carry_width_and_converted_color() {
    let mut backend = fresh(100, 80);
    let style = Style { stroke_width: 5, color: Color { r: 1, g: 2, b: 3, alpha: 42 } };
    assert!(backend.draw_line((-5, 0), (200, 300), &style).is_ok());
    let frame = backend.present();
    match &frame[..] {
        [DrawRecord::Lines { vertices }] => {
            assert_eq!(vertices.len(), 2);
            for vertex in vertices {
                assert_eq!(vertex.width, 5);
                assert_eq!(
                    vertex.color,
                    EngineColor { red_num: 1, green_num: 2, blue_num: 3, alpha: 42 }
                );
            }
        }
        other => panic!("expected one line record, got {:?}", other),
    }
}

#[test]
fn resize_then_get_size_reports_the_new_size() {
    let mut backend = fresh(100, 80);
    backend.resize(640, 480);
    assert_eq!(backend.get_size(), (640, 480));
}

#[test]
fn resize_keeps_the_pending_frame() {
    let mut backend = fresh(100, 80);
    assert!(backend.draw_pixel((1, 1), opaque(0, 0, 0)).is_ok());
    backend.resize(640, 480);
    assert_eq!(backend.present().len(), 1);
}

#[test]
fn filled_rect_scenario() {
    let mut backend = fresh(1024, 768);
    let style = Style { stroke_width: 1, color: opaque(255, 0, 0) };
    assert!(backend.draw_rect((10, 10), (50, 30), &style, true).is_ok());
    let frame = backend.present();
    assert_eq!(
        frame,
        vec![DrawRecord::FillRect {
            rect: RectGeom { x: 10, y: 10, width: 40, height: 20 },
            color: EngineColor { red_num: 255, green_num: 0, blue_num: 0, alpha: ALPHA_OPAQUE },
        }]
    );
}

#[test]
fn stroked_rect_keeps_signed_extents_and_stroke_width() {
    let mut backend = fresh(1024, 768);
    let style = Style { stroke_width: 4, color: opaque(0, 255, 0) };
    assert!(backend.draw_rect((50, 30), (10, 10), &style, false).is_ok());
    let frame = backend.present();
    assert_eq!(
        frame,
        vec![DrawRecord::StrokeRect {
            rect: RectGeom { x: 50, y: 30, width: -40, height: -20 },
            line_width: 4,
            color: EngineColor { red_num: 0, green_num: 255, blue_num: 0, alpha: ALPHA_OPAQUE },
        }]
    );
}

#[test]
fn small_circle_scenario_floors_at_ten_segments() {
    let mut backend = fresh(1024, 768);
    let style = Style { stroke_width: 1, color: opaque(0, 0, 0) };
    assert!(backend.draw_circle((0, 0), 3, &style, false).is_ok());
    let frame = backend.present();
    match &frame[..] {
        [DrawRecord::StrokeCircle { circle, line_width, .. }] => {
            assert_eq!((circle.x, circle.y), (0, 0));
            assert_eq!(circle.radius, 3);
            assert_eq!(circle.segments, 10);
            assert_eq!(*line_width, 1);
        }
        other => panic!("expected one stroked circle, got {:?}", other),
    }
}

#[test]
fn large_circle_segments_scale_with_radius() {
    let mut backend = fresh(1024, 768);
    let style = Style { stroke_width: 2, color: opaque(0, 0, 0) };
    assert!(backend.draw_circle((12, -7), 25, &style, true).is_ok());
    let frame = backend.present();
    match &frame[..] {
        [DrawRecord::FillCircle { circle, .. }] => {
            assert_eq!(circle.segments, 25);
            assert_eq!(circle.radius, 25);
        }
        other => panic!("expected one filled circle, got {:?}", other),
    }
}

#[test]
fn empty_path_appends_an_empty_strip() {
    let mut backend = fresh(100, 80);
    let style = Style { stroke_width: 1, color: opaque(0, 0, 0) };
    assert!(backend.draw_path(&vec![], &style).is_ok());
    let frame = backend.present();
    match &frame[..] {
        [DrawRecord::Lines { vertices }] => assert_eq!(vertices.len(), 0),
        other => panic!("expected one empty line record, got {:?}", other),
    }
}

#[test]
fn path_keeps_one_vertex_per_point_in_order() {
    let mut backend = fresh(100, 80);
    let style = Style { stroke_width: 2, color: opaque(7, 8, 9) };
    let points = vec![(0, 0), (5, -3), (10, 40)];
    assert!(backend.draw_path(&points, &style).is_ok());
    let frame = backend.present();
    match &frame[..] {
        [DrawRecord::Lines { vertices }] => {
            assert_eq!(vertices.len(), 3);
            for (vertex, point) in vertices.iter().zip(points.iter()) {
                assert_eq!((vertex.x, vertex.y), (point.0 as i64, point.1 as i64));
                assert_eq!(vertex.width, 2);
            }
        }
        other => panic!("expected one line record, got {:?}", other),
    }
}

#[test]
fn ensure_prepared_is_a_noop() {
    let mut backend = fresh(100, 80);
    assert!(backend.ensure_prepared().is_ok());
    assert_eq!(backend.present().len(), 0);
}

#[test]
fn config_defaults_both_capacities() {
    let config = Config::default();
    assert_eq!(config.line_capacity, DEFAULT_CAPACITY);
    assert_eq!(config.mesh_capacity, DEFAULT_CAPACITY);
}
