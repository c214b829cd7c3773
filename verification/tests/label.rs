use explain::events::{Event, Keycode, MouseButton};
use explain::text::{layout_glyph, Glyph, SavedText, Text, TextError};
use explain::util::P2;

fn font() -> String {
    let mut s = String::new();
    s.push_str("{\"name\": \"Arial\", \"size\": 32, \"width\": 512, \"height\": 256,");
    s.push_str(" \"characters\": {");
    s.push_str("\"A\": {\"x\": 5, \"y\": 6, \"width\": 10, \"height\": 20,");
    s.push_str(" \"originX\": 1, \"originY\": 18, \"advance\": 11},");
    s.push_str("\"b\": {\"x\": 40, \"y\": 0, \"width\": 8, \"height\": 21,");
    s.push_str(" \"originX\": -1, \"originY\": 19, \"advance\": 9},");
    s.push_str("\"ab\": {\"x\": 70, \"y\": 0, \"width\": 16, \"height\": 21,");
    s.push_str(" \"originX\": 0, \"originY\": 19, \"advance\": 17},");
    s.push_str("\"half\": {\"x\": 1, \"y\": 2, \"width\": 3},");
    s.push_str("\"real\": {\"x\": 1.5, \"y\": 2, \"width\": 3, \"height\": 4,");
    s.push_str(" \"originX\": 0, \"originY\": 0, \"advance\": 1},");
    s.push_str("\"far\": {\"x\": 0, \"y\": 0, \"width\": 4294967296, \"height\": 1,");
    s.push_str(" \"originX\": 0, \"originY\": 0, \"advance\": 1},");
    s.push_str("\"flat\": 7");
    s.push_str("}}");
    s
}

fn label_at(x: i32, y: i32) -> Text<f64> {
    Text::new(P2::new(x, y), &font(), (512, 256), 1.0).unwrap()
}

fn typed(text: &str) -> Event {
    Event::TextInput { text: String::from(text) }
}

fn pp(x: i32, y: i32, u: i32, w: i32) -> (P2, P2) {
    (P2::new(x, y), P2::new(u, w))
}

#[test]
fn label_needs_a_json_table() {
    let r: Result<Text<f64>, TextError> = Text::new(P2::new(0, 0), "{\"size\": ", (1, 1), 1.0);
    assert!(matches!(r, Err(TextError::Syntax)));
    let r: Result<Text<f64>, TextError> = Text::new(P2::new(0, 0), "", (1, 1), 1.0);
    assert!(matches!(r, Err(TextError::Syntax)));
}

#[test]
fn label_needs_an_object() {
    let r: Result<Text<f64>, TextError> = Text::new(P2::new(0, 0), "[1, 2]", (1, 1), 1.0);
    assert!(matches!(r, Err(TextError::NotAnObject)));
    let r: Result<Text<f64>, TextError> = Text::new(P2::new(0, 0), "32", (1, 1), 1.0);
    assert!(matches!(r, Err(TextError::NotAnObject)));
}

#[test]
fn new_label_is_empty() {
    let label = label_at(100, 200);
    assert_eq!(label.gl_vertices().data_len(), 0);
    assert!(label.gl_vertices().indices().is_empty());
    assert_eq!(label.gl_vertices().stride(), 16);
    assert_eq!(label.origin(), P2::new(100, 200));
    assert_eq!(label.size(), (512, 256));
    assert_eq!(label.width_offset(), 0);
    assert_eq!(label.text(), "");
    assert_eq!(label.zoom_transform(), 1.0);
}

#[test]
fn typed_glyph_becomes_a_quad() {
    let mut label = label_at(100, 200);
    let h = label.process_event(&typed("A"));
    assert!(h.consumed);
    let update = h.update.unwrap();
    assert_eq!(update.storage_type, gl::DYNAMIC_DRAW);
    assert_eq!(
        label.gl_vertices().data(),
        &vec![
            pp(99, 214, 5, 6),
            pp(109, 214, 15, 6),
            pp(109, 234, 15, 26),
            pp(99, 234, 5, 26),
        ]
    );
    assert_eq!(label.gl_vertices().indices(), &vec![0, 1, 2, 0, 3, 2]);
    assert_eq!(label.width_offset(), 11);
    assert_eq!(label.text(), "A");
}

#[test]
fn second_glyph_starts_at_the_cursor() {
    let mut label = label_at(100, 200);
    label.process_event(&typed("A"));
    let h = label.process_event(&typed("b"));
    assert!(h.consumed);
    let data = label.gl_vertices().data();
    assert_eq!(data.len(), 8);
    assert_eq!(data[4], pp(112, 213, 40, 0));
    assert_eq!(data[5], pp(120, 213, 48, 0));
    assert_eq!(data[6], pp(120, 234, 48, 21));
    assert_eq!(data[7], pp(112, 234, 40, 21));
    assert_eq!(label.gl_vertices().indices(), &vec![0, 1, 2, 0, 3, 2, 4, 5, 6, 4, 7, 6]);
    assert_eq!(label.width_offset(), 20);
    assert_eq!(label.text(), "Ab");
}

#[test]
fn whole_input_selects_the_glyph() {
    let mut label = label_at(0, 0);
    let h = label.process_event(&typed("ab"));
    assert!(h.consumed);
    assert_eq!(label.gl_vertices().data_len(), 4);
    assert_eq!(label.gl_vertices().data()[0], pp(0, 13, 70, 0));
    assert_eq!(label.width_offset(), 17);
    assert_eq!(label.text(), "ab");
}

#[test]
fn input_without_glyph_is_left_alone() {
    let mut label = label_at(0, 0);
    for key in ["z", "", "half", "real", "far", "flat", "characters", "size"] {
        let h = label.process_event(&typed(key));
        assert!(!h.consumed);
        assert!(h.update.is_none());
    }
    assert_eq!(label.gl_vertices().data_len(), 0);
    assert_eq!(label.width_offset(), 0);
    assert_eq!(label.text(), "");
}

#[test]
fn table_without_line_height_adds_nothing() {
    let table = "{\"characters\": {\"A\": {\"x\": 5, \"y\": 6, \"width\": 10, \"height\": 20, \
                 \"originX\": 1, \"originY\": 18, \"advance\": 11}}}";
    let mut label: Text<f64> = Text::new(P2::new(0, 0), table, (1, 1), 1.0).unwrap();
    assert!(!label.process_event(&typed("A")).consumed);
    assert_eq!(label.gl_vertices().data_len(), 0);
    let table = "{\"size\": 32}";
    let mut label: Text<f64> = Text::new(P2::new(0, 0), table, (1, 1), 1.0).unwrap();
    assert!(!label.process_event(&typed("A")).consumed);
}

#[test]
fn return_ends_the_label() {
    let mut label = label_at(0, 0);
    label.process_event(&typed("A"));
    let h = label.process_event(&Event::KeyDown { keycode: Some(Keycode::Return) });
    assert!(!h.consumed);
    assert!(h.update.is_none());
    assert_eq!(label.gl_vertices().data_len(), 4);
}

#[test]
fn other_keys_are_consumed() {
    let mut label = label_at(0, 0);
    for keycode in [
        Some(Keycode::T),
        Some(Keycode::Escape),
        Some(Keycode::E),
        Some(Keycode::Q),
        Some(Keycode::Z),
        Some(Keycode::Other),
        None,
    ] {
        let h = label.process_event(&Event::KeyDown { keycode });
        assert!(h.consumed);
        assert!(h.update.is_none());
    }
    assert_eq!(label.gl_vertices().data_len(), 0);
}

#[test]
fn label_leaves_pointer_events_alone() {
    let mut label = label_at(0, 0);
    let events = vec![
        Event::Quit,
        Event::MouseMotion { x: 1, y: 2, xrel: 0, yrel: 0 },
        Event::MouseButtonDown { mouse_btn: MouseButton::Left },
        Event::MouseWheel { y: 1 },
        Event::Other,
    ];
    for e in events.iter() {
        assert!(!label.process_event(e).consumed);
    }
    assert_eq!(label.gl_vertices().data_len(), 0);
}

#[test]
fn layout_of_one_glyph() {
    let g = Glyph { x: 5, y: 6, width: 10, height: 20, origin_x: 1, origin_y: 18, advance: 11 };
    let quad = layout_glyph(P2::new(100, 200), 30, 32, &g).unwrap();
    assert_eq!(
        quad,
        vec![
            pp(129, 214, 5, 6),
            pp(139, 214, 15, 6),
            pp(139, 234, 15, 26),
            pp(129, 234, 5, 26),
        ]
    );
}

#[test]
fn layout_refuses_what_does_not_fit() {
    let g = Glyph { x: 0, y: 0, width: 1, height: 1, origin_x: 0, origin_y: 0, advance: 1 };
    assert!(layout_glyph(P2::new(0, 0), 0, 0, &g).is_some());
    assert!(layout_glyph(P2::new(0, 0), 2147483646, 0, &g).is_some());
    assert!(layout_glyph(P2::new(0, 0), 2147483647, 0, &g).is_none());
    assert!(layout_glyph(P2::new(0, 0), i64::MAX, 0, &g).is_none());
    assert!(layout_glyph(P2::new(i32::MAX, 0), 0, 0, &g).is_none());
    assert!(layout_glyph(P2::new(0, 0), 0, i64::MIN, &g).is_none());
    let wide = Glyph { width: 2147483648, ..g };
    assert!(layout_glyph(P2::new(0, 0), 0, 0, &wide).is_none());
    let low = Glyph { y: 2147483647, ..g };
    assert!(layout_glyph(P2::new(0, 0), 0, 0, &low).is_none());
    let back = Glyph { advance: i64::MIN, ..g };
    assert!(layout_glyph(P2::new(0, 0), -1, 0, &back).is_none());
    assert!(layout_glyph(P2::new(0, 0), 0, 0, &back).is_some());
}

#[test]
fn empty_label_is_not_drawn() {
    let mut label = label_at(0, 0);
    assert!(label.draw(2.0).is_none());
    label.process_event(&typed("z"));
    assert!(label.draw(2.0).is_none());
}

#[test]
fn label_is_drawn_under_the_camera() {
    let mut label = label_at(0, 0);
    label.process_event(&typed("A"));
    label.process_event(&typed("b"));
    label.set_transform(0.5);
    let call = label.draw(2.0).unwrap();
    assert_eq!(call.object, 0.5);
    assert_eq!(call.camera, 2.0);
    assert_eq!(call.count, 12);
    assert_eq!(label.text(), "Ab");
    assert_eq!(label.origin(), P2::new(0, 0));
}

#[test]
fn saved_label_comes_back_the_same() {
    let mut label = label_at(100, 200);
    for key in ["A", "b", "z", "b", "A"] {
        label.process_event(&typed(key));
    }
    label.set_transform(3.0);
    let saved = SavedText::from_text(&label);
    assert_eq!(saved.origin(), P2::new(100, 200));
    assert_eq!(saved.text(), "AbbA");
    assert_eq!(saved.transform(), 3.0);
    let back = saved.into_text(&font(), (512, 256)).unwrap();
    assert_eq!(back.gl_vertices().data(), label.gl_vertices().data());
    assert_eq!(back.gl_vertices().indices(), label.gl_vertices().indices());
    assert_eq!(back.width_offset(), label.width_offset());
    assert_eq!(back.text(), "AbbA");
    assert_eq!(back.zoom_transform(), 3.0);
    assert_eq!(back.size(), (512, 256));
}

#[test]
fn saved_text_is_typed_character_by_character() {
    let saved: SavedText<f64> = SavedText::new(P2::new(0, 0), String::from("A?b"), 1.0);
    let back = saved.into_text(&font(), (512, 256)).unwrap();
    assert_eq!(back.gl_vertices().data_len(), 8);
    assert_eq!(back.text(), "Ab");
    assert_eq!(back.width_offset(), 20);
}

#[test]
fn saved_label_needs_a_table() {
    let saved: SavedText<f64> = SavedText::new(P2::new(0, 0), String::from("A"), 1.0);
    assert!(matches!(saved.into_text("{", (1, 1)), Err(TextError::Syntax)));
    assert!(matches!(saved.into_text("null", (1, 1)), Err(TextError::NotAnObject)));
}
