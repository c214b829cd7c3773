use explain::events::{Event, Keycode, MouseButton};
use explain::gl_vertices::DrawCall;
use explain::line::{Line, SavedLine, StrokeState};
use explain::util::{P2, V2};

fn motion(x: i32, y: i32) -> Event {
    Event::MouseMotion { x, y, xrel: 0, yrel: 0 }
}

fn stroke_through(points: &[(i32, i32)]) -> Line<f64> {
    let mut line = Line::new(1.0);
    for (x, y) in points {
        assert!(line.process_event(&motion(*x, *y)).consumed);
    }
    line
}

fn p(x: i32, y: i32) -> P2 {
    P2::new(x, y)
}

fn v(x: i64, y: i64) -> V2 {
    V2::new(x, y)
}

#[test]
fn towards_is_the_difference() {
    assert_eq!(p(3, 4).towards(p(10, 1)), v(7, -3));
    assert_eq!(p(3, 4).towards(p(3, 4)), v(0, 0));
    assert_eq!(p(i32::MIN, i32::MAX).towards(p(i32::MAX, i32::MIN)), v(4294967295, -4294967295));
}

#[test]
fn quarter_turns() {
    assert_eq!(v(1, 0).rotate_up(), v(0, -1));
    assert_eq!(v(1, 0).rotate_down(), v(0, 1));
    assert_eq!(v(0, 1).rotate_up(), v(1, 0));
    assert_eq!(v(3, -5).rotate_up(), v(-5, -3));
    assert_eq!(v(3, -5).rotate_down(), v(5, 3));
    assert_eq!(v(3, -5).rotate_up().rotate_down(), v(3, -5));
}

#[test]
fn new_stroke_is_empty() {
    let line: Line<f64> = Line::new(2.5);
    assert_eq!(line.gl_vertices().data_len(), 0);
    assert!(line.gl_vertices().indices().is_empty());
    assert_eq!(line.last_point(), None);
    assert_eq!(line.zoom_transform(), 2.5);
    assert_eq!(line.segments(), 0);
    assert_eq!(line.gl_vertices().stride(), 16);
}

#[test]
fn first_point_is_recorded_without_geometry() {
    let mut line: Line<f64> = Line::new(1.0);
    let h = line.process_event(&motion(5, 7));
    assert!(h.consumed);
    assert!(h.update.is_none());
    assert_eq!(line.gl_vertices().data_len(), 0);
    assert_eq!(line.last_point(), Some(p(5, 7)));
}

#[test]
fn one_segment_is_one_quad() {
    let mut line: Line<f64> = Line::new(1.0);
    line.process_event(&motion(0, 0));
    let h = line.process_event(&motion(10, 0));
    assert!(h.consumed);
    let update = h.update.unwrap();
    assert_eq!(update.storage_type, gl::DYNAMIC_DRAW);
    assert_eq!(update.pointers.len(), 2);
    assert_eq!(
        line.gl_vertices().data(),
        &vec![
            (p(0, 0), v(0, -10)),
            (p(0, 0), v(0, 10)),
            (p(10, 0), v(0, -10)),
            (p(10, 0), v(0, 10)),
        ]
    );
    assert_eq!(line.gl_vertices().indices(), &vec![0, 1, 3, 0, 2, 3]);
    assert_eq!(line.last_point(), Some(p(10, 0)));
    assert_eq!(line.segments(), 1);
}

#[test]
fn normals_are_perpendicular_to_the_segment() {
    let line = stroke_through(&[(2, 3), (9, -4)]);
    let d = p(2, 3).towards(p(9, -4));
    let data = line.gl_vertices().data();
    let up = data[2].1;
    let down = data[3].1;
    assert_eq!(up, v(-7, -7));
    assert_eq!(down, v(7, 7));
    assert_eq!(up.x * d.x + up.y * d.y, 0);
    assert_eq!(up.x + down.x, 0);
    assert_eq!(up.y + down.y, 0);
}

#[test]
fn stroke_degenerate_input() {
    let mut line = stroke_through(&[(0, 0), (10, 0)]);
    let before_vertices = line.gl_vertices().data().clone();
    let before_indices = line.gl_vertices().indices().clone();
    let h = line.process_event(&motion(10, 0));
    assert!(h.consumed);
    assert!(h.update.is_none());
    assert_eq!(line.gl_vertices().data_len(), 4);
    assert_eq!(line.gl_vertices().data(), &before_vertices);
    assert_eq!(line.gl_vertices().indices(), &before_indices);
    assert_eq!(line.last_point(), Some(p(10, 0)));
}

#[test]
fn repeated_first_point_adds_nothing() {
    let line = stroke_through(&[(4, 4), (4, 4), (4, 4)]);
    assert_eq!(line.gl_vertices().data_len(), 0);
    assert_eq!(line.last_point(), Some(p(4, 4)));
}

#[test]
fn stroke_join_continuity() {
    let line = stroke_through(&[(0, 0), (10, 0), (10, 10)]);
    let data = line.gl_vertices().data();
    assert_eq!(data.len(), 8);
    assert_eq!(line.gl_vertices().indices().len(), 12);
    assert_eq!(line.gl_vertices().indices(), &vec![0, 1, 3, 0, 2, 3, 4, 5, 7, 4, 6, 7]);
    assert_eq!(data[4], data[2]);
    assert_eq!(data[5], data[3]);
    assert_eq!(data[4].1, v(0, -10));
    assert_eq!(data[5].1, v(0, 10));
    assert_eq!(data[6], (p(10, 10), v(10, 0)));
    assert_eq!(data[7], (p(10, 10), v(-10, 0)));
    assert_eq!(line.segments(), 2);
}

#[test]
fn other_events_are_left_alone() {
    let mut line = stroke_through(&[(0, 0), (10, 0)]);
    let events = vec![
        Event::Quit,
        Event::KeyDown { keycode: Some(Keycode::T) },
        Event::KeyDown { keycode: None },
        Event::TextInput { text: String::from("a") },
        Event::MouseButtonDown { mouse_btn: MouseButton::Left },
        Event::MouseButtonUp { mouse_btn: MouseButton::Left },
        Event::MouseWheel { y: 3 },
        Event::WindowResized { width: 1, height: 2 },
        Event::Other,
    ];
    for e in events.iter() {
        let h = line.process_event(e);
        assert!(!h.consumed);
        assert!(h.update.is_none());
    }
    assert_eq!(line.gl_vertices().data_len(), 4);
    assert_eq!(line.last_point(), Some(p(10, 0)));
}

#[test]
fn set_transform_only_places_the_stroke() {
    let mut line = stroke_through(&[(0, 0), (10, 0)]);
    line.set_transform(0.25);
    assert_eq!(line.zoom_transform(), 0.25);
    assert_eq!(line.gl_vertices().data_len(), 4);
    assert_eq!(line.last_point(), Some(p(10, 0)));
}

#[test]
fn empty_stroke_is_not_drawn() {
    let none: Line<f64> = Line::new(1.0);
    assert!(none.draw(3.0).is_none());
    let one = stroke_through(&[(1, 1)]);
    assert!(one.draw(3.0).is_none());
    let repeated = stroke_through(&[(1, 1), (1, 1)]);
    assert!(repeated.draw(3.0).is_none());
}

#[test]
fn stroke_is_drawn_under_the_camera() {
    let mut line = stroke_through(&[(0, 0), (10, 0), (10, 10)]);
    line.set_transform(0.5);
    let call: DrawCall<f64> = line.draw(4.0).unwrap();
    assert_eq!(call.object, 0.5);
    assert_eq!(call.camera, 4.0);
    assert_eq!(call.count, 12);
}

#[test]
fn saved_points_of_a_stroke() {
    let line = stroke_through(&[(0, 0), (10, 0), (10, 0), (10, 10), (-3, 8)]);
    let saved = SavedLine::from_line(&line);
    assert_eq!(saved.points(), &vec![p(0, 0), p(10, 0), p(10, 10), p(-3, 8)]);
    assert_eq!(saved.transform(), 1.0);
}

#[test]
fn stroke_without_ribbon_saves_no_points() {
    let none: Line<f64> = Line::new(1.0);
    assert!(SavedLine::from_line(&none).points().is_empty());
    let one = stroke_through(&[(7, 7)]);
    assert!(SavedLine::from_line(&one).points().is_empty());
}

#[test]
fn saved_stroke_comes_back_the_same() {
    let mut line = stroke_through(&[(0, 0), (10, 0), (10, 10), (3, 4), (3, 5)]);
    line.set_transform(8.0);
    let saved = SavedLine::from_line(&line);
    let back = saved.into_line();
    assert_eq!(back.gl_vertices().data(), line.gl_vertices().data());
    assert_eq!(back.gl_vertices().indices(), line.gl_vertices().indices());
    assert_eq!(back.last_point(), line.last_point());
    assert_eq!(back.zoom_transform(), 8.0);
    assert_eq!(SavedLine::from_line(&back).points(), saved.points());
}

#[test]
fn into_line_feeds_the_points_in_order() {
    let saved = SavedLine::new(vec![p(0, 0), p(0, 0), p(0, 5), p(0, 5), p(2, 5)], 1.5);
    let line = saved.into_line();
    let by_events = stroke_through(&[(0, 0), (0, 0), (0, 5), (0, 5), (2, 5)]);
    assert_eq!(line.gl_vertices().data(), by_events.gl_vertices().data());
    assert_eq!(line.gl_vertices().indices(), by_events.gl_vertices().indices());
    assert_eq!(line.gl_vertices().data_len(), 8);
    assert_eq!(line.last_point(), Some(p(2, 5)));
    assert_eq!(line.zoom_transform(), 1.5);
}

#[test]
fn into_line_of_few_points() {
    let none: SavedLine<f64> = SavedLine::new(vec![], 1.0);
    let line = none.into_line();
    assert_eq!(line.gl_vertices().data_len(), 0);
    assert_eq!(line.last_point(), None);
    let one: SavedLine<f64> = SavedLine::new(vec![p(3, 3)], 1.0);
    let line = one.into_line();
    assert_eq!(line.gl_vertices().data_len(), 0);
    assert_eq!(line.last_point(), Some(p(3, 3)));
}

#[test]
fn states_follow_the_points() {
    let mut line: Line<f64> = Line::new(1.0);
    assert_eq!(line.state(), StrokeState::Empty);
    line.process_event(&Event::Quit);
    assert_eq!(line.state(), StrokeState::Empty);
    line.process_event(&motion(1, 1));
    assert_eq!(line.state(), StrokeState::HasLastPoint);
    line.process_event(&motion(1, 1));
    assert_eq!(line.state(), StrokeState::HasLastPoint);
    line.process_event(&motion(1, 2));
    assert_eq!(line.state(), StrokeState::Extending);
    line.process_event(&motion(1, 2));
    assert_eq!(line.state(), StrokeState::Extending);
    assert_eq!(line.segments(), 1);
    line.process_event(&motion(5, 2));
    assert_eq!(line.state(), StrokeState::Extending);
    assert_eq!(line.segments(), 2);
}
