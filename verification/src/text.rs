//! Text labels: a row of glyph quads, cut out of a glyph atlas as a table of
//! glyph metrics says.
//!
//! The table is a JSON object. Its member `size` is the height of a line.
//! Its member `characters` holds, by the text that selects a glyph, where
//! the glyph lies in the atlas (`x`, `y`, `width`, `height`), where its
//! origin lies inside it (`originX`, `originY`) and how far the cursor
//! moves after it (`advance`); all in pixels.
//!
//! Positions and atlas coordinates are kept in whole pixels. What the GPU
//! receives as a texture coordinate is the atlas coordinate divided by the
//! atlas size.

use vstd::prelude::*;
use vstd::string::StringExecFns;
use vstd::string::StrSliceExecFns;
use crate::events::{Event, Handled, Keycode};
use crate::gl_vertices::vertex_attribs::point2;
use crate::gl_vertices::{
    lemma_quad_list_step, quad_list_indices, rebase, GpuUpdate, VertexAttrib, VertexData, FLOAT,
    MAX_QUADS,
};
use crate::json::{json_members, json_parsed, json_value, map_get, parse_json, value_as_i64,
    value_as_object, Json};
use crate::util::P2;

verus! {

/// The most glyphs that a label can hold.
pub const MAX_GLYPHS: usize = MAX_QUADS;

/// Why a label could not be made.
#[derive(Clone, Copy, Debug, PartialEq, Eq, Structural)]
pub enum TextError {
    /// The glyph table is no JSON text.
    Syntax,
    /// The glyph table is JSON, but no object.
    NotAnObject,
}

/// The metrics of one glyph, in pixels.
#[derive(Clone, Copy, Debug, PartialEq, Eq, Structural)]
pub struct Glyph {
    pub x: i64,
    pub y: i64,
    pub width: i64,
    pub height: i64,
    pub origin_x: i64,
    pub origin_y: i64,
    pub advance: i64,
}

/// The member `key` of an object, if it is a whole number.
pub open spec fn int_member(m: Map<Seq<char>, Json>, key: Seq<char>) -> Option<i64> {
    if m.contains_key(key) {
        match m[key] {
            Json::Int(i) => Some(i),
            _ => None,
        }
    } else {
        None
    }
}

/// The member `key` of an object, if it is an object.
pub open spec fn object_member(m: Map<Seq<char>, Json>, key: Seq<char>) -> Option<
    Map<Seq<char>, Json>,
> {
    if m.contains_key(key) {
        match m[key] {
            Json::Object(o) => Some(o),
            _ => None,
        }
    } else {
        None
    }
}

/// The glyph that an entry of the table describes, if the entry has all
/// seven metrics.
pub open spec fn glyph_of(rect: Map<Seq<char>, Json>) -> Option<Glyph> {
    if int_member(rect, "x"@) is Some && int_member(rect, "y"@) is Some && int_member(
        rect,
        "width"@,
    ) is Some && int_member(rect, "height"@) is Some && int_member(rect, "originX"@) is Some
        && int_member(rect, "originY"@) is Some && int_member(rect, "advance"@) is Some {
        Some(
            Glyph {
                x: int_member(rect, "x"@)->0,
                y: int_member(rect, "y"@)->0,
                width: int_member(rect, "width"@)->0,
                height: int_member(rect, "height"@)->0,
                origin_x: int_member(rect, "originX"@)->0,
                origin_y: int_member(rect, "originY"@)->0,
                advance: int_member(rect, "advance"@)->0,
            },
        )
    } else {
        None
    }
}

/// The glyph that the table has for `key`.
pub open spec fn find_glyph(table: Map<Seq<char>, Json>, key: Seq<char>) -> Option<Glyph> {
    match object_member(table, "characters"@) {
        Some(characters) => match object_member(characters, key) {
            Some(rect) => glyph_of(rect),
            None => None,
        },
        None => None,
    }
}

/// The height of a line, as the table gives it.
pub open spec fn line_height(table: Map<Seq<char>, Json>) -> Option<i64> {
    int_member(table, "size"@)
}

/// The two triangles of a glyph quad, over the quad's own four vertices.
pub open spec fn glyph_indices() -> Seq<u32> {
    seq![0u32, 1u32, 2u32, 0u32, 3u32, 2u32]
}

/// The left edge of a glyph's quad on the canvas.
pub open spec fn quad_left(origin: P2, cursor: int, g: Glyph) -> int {
    cursor - g.origin_x + origin.x
}

/// The top edge of a glyph's quad on the canvas.
pub open spec fn quad_top(origin: P2, size: int, g: Glyph) -> int {
    size - g.origin_y + origin.y
}

/// The quad of a glyph fits: its corners on the canvas and in the atlas are
/// whole pixels within `i32`, and the cursor after it is within `i64`.
pub open spec fn quad_fits(origin: P2, cursor: int, size: int, g: Glyph) -> bool {
    let left = quad_left(origin, cursor, g);
    let top = quad_top(origin, size, g);
    &&& i32::MIN <= left <= i32::MAX
    &&& i32::MIN <= left + g.width <= i32::MAX
    &&& i32::MIN <= top <= i32::MAX
    &&& i32::MIN <= top + g.height <= i32::MAX
    &&& i32::MIN <= g.x <= i32::MAX
    &&& i32::MIN <= g.x + g.width <= i32::MAX
    &&& i32::MIN <= g.y <= i32::MAX
    &&& i32::MIN <= g.y + g.height <= i32::MAX
    &&& i64::MIN <= cursor + g.advance <= i64::MAX
}

/// The four vertices of a glyph's quad, each a position on the canvas and
/// the place in the atlas that is shown there: upper left, upper right,
/// lower right, lower left.
pub open spec fn glyph_quad(origin: P2, cursor: int, size: int, g: Glyph) -> Seq<(P2, P2)> {
    let left = quad_left(origin, cursor, g);
    let right = left + g.width;
    let top = quad_top(origin, size, g);
    let bottom = top + g.height;
    seq![
        (P2 { x: left as i32, y: top as i32 }, P2 { x: g.x as i32, y: g.y as i32 }),
        (P2 { x: right as i32, y: top as i32 }, P2 { x: (g.x + g.width) as i32, y: g.y as i32 }),
        (
            P2 { x: right as i32, y: bottom as i32 },
            P2 { x: (g.x + g.width) as i32, y: (g.y + g.height) as i32 },
        ),
        (P2 { x: left as i32, y: bottom as i32 }, P2 { x: g.x as i32, y: (g.y + g.height) as i32 }),
    ]
}

/// A label as the layout sees it: the quads so far, where the next glyph
/// starts, and the text that was typed.
pub struct Label {
    pub vertices: Seq<(P2, P2)>,
    pub indices: Seq<u32>,
    pub cursor: int,
    pub text: Seq<char>,
}

pub open spec fn empty_label() -> Label {
    Label { vertices: Seq::empty(), indices: Seq::empty(), cursor: 0, text: Seq::empty() }
}

/// The label after the glyph `g`, selected by `key`, was added to it.
pub open spec fn with_glyph(l: Label, origin: P2, size: int, g: Glyph, key: Seq<char>) -> Label {
    Label {
        vertices: l.vertices + glyph_quad(origin, l.cursor, size, g),
        indices: l.indices + rebase(glyph_indices(), l.vertices.len() as int),
        cursor: l.cursor + g.advance,
        text: l.text + key,
    }
}

/// The label after `key` was typed, or `None` where the key adds nothing:
/// the table has no line height, or no glyph with all its metrics for the
/// key, or the glyph's quad does not fit.
pub open spec fn type_key(l: Label, origin: P2, table: Map<Seq<char>, Json>, key: Seq<char>)
    -> Option<Label> {
    match (line_height(table), find_glyph(table, key)) {
        (Some(size), Some(g)) => if quad_fits(origin, l.cursor, size as int, g) {
            Some(with_glyph(l, origin, size as int, g, key))
        } else {
            None
        },
        _ => None,
    }
}

/// The label after each character of `text` was typed, one after the other;
/// a character that adds nothing is passed over.
pub open spec fn type_all(l: Label, origin: P2, table: Map<Seq<char>, Json>, text: Seq<char>)
    -> Label
    decreases text.len(),
{
    if text.len() == 0 {
        l
    } else {
        let before = type_all(l, origin, table, text.drop_last());
        match type_key(before, origin, table, seq![text.last()]) {
            Some(after) => after,
            None => before,
        }
    }
}

/// The invariant of a label's mesh: it is a list of quads within the
/// machine's limits, with the indices of such a list.
pub open spec fn label_wf(l: Label) -> bool {
    &&& l.vertices.len() % 4 == 0
    &&& l.vertices.len() / 4 <= MAX_GLYPHS
    &&& l.indices == quad_list_indices(glyph_indices(), l.vertices.len() as int / 4)
    &&& i64::MIN <= l.cursor <= i64::MAX
}

/// Adding a glyph that fits to a well-formed label with room for it leaves
/// the label well-formed.
pub proof fn lemma_with_glyph_wf(l: Label, origin: P2, size: int, g: Glyph, key: Seq<char>)
    requires
        label_wf(l),
        l.vertices.len() / 4 < MAX_GLYPHS,
        quad_fits(origin, l.cursor, size, g),
    ensures
        label_wf(with_glyph(l, origin, size, g, key)),
{
    lemma_quad_list_step(glyph_indices(), l.vertices.len() as int / 4);
}

/// The layout of a label's vertices: a position of two components and an
/// atlas coordinate of two components.
pub open spec fn text_layout(layout: Seq<VertexAttrib>) -> bool {
    &&& layout.len() == 2
    &&& forall|i: int|
        0 <= i < 2 ==> (#[trigger] layout[i]).spec_gl_type() == FLOAT && layout[i].spec_size() == 8
            && layout[i].spec_components() == 2
}

/// The whole-number member `key` of a JSON object.
fn get_int(m: &serde_json::Map<String, serde_json::Value>, key: &str) -> (r: Option<i64>)
    ensures
        r == int_member(json_members(*m), key@),
{
    match map_get(m, key) {
        Some(v) => value_as_i64(v),
        None => None,
    }
}

/// The member `key` of a JSON object that is an object itself.
fn get_object<'a>(m: &'a serde_json::Map<String, serde_json::Value>, key: &str) -> (r: Option<
    &'a serde_json::Map<String, serde_json::Value>,
>)
    ensures
        match r {
            Some(o) => object_member(json_members(*m), key@) == Some(json_members(*o)),
            None => object_member(json_members(*m), key@) is None,
        },
{
    match map_get(m, key) {
        Some(v) => value_as_object(v),
        None => None,
    }
}

/// The glyph that an entry of the table describes.
fn read_glyph(rect: &serde_json::Map<String, serde_json::Value>) -> (r: Option<Glyph>)
    ensures
        r == glyph_of(json_members(*rect)),
{
    let x = get_int(rect, "x");
    let y = get_int(rect, "y");
    let width = get_int(rect, "width");
    let height = get_int(rect, "height");
    let origin_x = get_int(rect, "originX");
    let origin_y = get_int(rect, "originY");
    let advance = get_int(rect, "advance");
    match (x, y, width, height, origin_x, origin_y, advance) {
        (Some(x), Some(y), Some(width), Some(height), Some(origin_x), Some(origin_y), Some(advance)) => {
            Some(Glyph { x, y, width, height, origin_x, origin_y, advance })
        },
        _ => None,
    }
}

/// The glyph that the table has for `key`.
fn lookup_glyph(table: &serde_json::Map<String, serde_json::Value>, key: &str) -> (r: Option<Glyph>)
    ensures
        r == find_glyph(json_members(*table), key@),
{
    match get_object(table, "characters") {
        Some(characters) => match get_object(characters, key) {
            Some(rect) => read_glyph(rect),
            None => None,
        },
        None => None,
    }
}

/// Whether `v` is within `i32`.
fn fits_i32(v: i128) -> (b: bool)
    ensures
        b == (i32::MIN <= v <= i32::MAX),
{
    -2147483648 <= v && v <= 2147483647
}

/// The quad of the glyph `g` for a label at `origin` whose cursor stands at
/// `cursor`, where lines are `size` high; `None` where the quad does not
/// fit.
pub fn layout_glyph(origin: P2, cursor: i64, size: i64, g: &Glyph) -> (r: Option<Vec<(P2, P2)>>)
    ensures
        quad_fits(origin, cursor as int, size as int, *g) ==> r is Some && r->0@ == glyph_quad(
            origin,
            cursor as int,
            size as int,
            *g,
        ),
        !quad_fits(origin, cursor as int, size as int, *g) ==> r is None,
{
    let left: i128 = cursor as i128 - g.origin_x as i128 + origin.x as i128;
    let right: i128 = left + g.width as i128;
    let top: i128 = size as i128 - g.origin_y as i128 + origin.y as i128;
    let bottom: i128 = top + g.height as i128;
    let atlas_right: i128 = g.x as i128 + g.width as i128;
    let atlas_bottom: i128 = g.y as i128 + g.height as i128;
    let next: i128 = cursor as i128 + g.advance as i128;
    if fits_i32(left) && fits_i32(right) && fits_i32(top) && fits_i32(bottom) && fits_i32(
        g.x as i128,
    ) && fits_i32(atlas_right) && fits_i32(g.y as i128) && fits_i32(atlas_bottom)
        && -9223372036854775808 <= next && next <= 9223372036854775807 {
        let mut new_vertices: Vec<(P2, P2)> = Vec::new();
        new_vertices.push((P2::new(left as i32, top as i32), P2::new(g.x as i32, g.y as i32)));
        new_vertices.push(
            (P2::new(right as i32, top as i32), P2::new(atlas_right as i32, g.y as i32)),
        );
        new_vertices.push(
            (P2::new(right as i32, bottom as i32), P2::new(atlas_right as i32, atlas_bottom as i32)),
        );
        new_vertices.push(
            (P2::new(left as i32, bottom as i32), P2::new(g.x as i32, atlas_bottom as i32)),
        );
        assert(new_vertices@ =~= glyph_quad(origin, cursor as int, size as int, *g));
        Some(new_vertices)
    } else {
        None
    }
}

/// A text label. `X` is the type of the transform that places the label on
/// the canvas; the label only carries it.
pub struct Text<X> {
    gl_vertices: VertexData<(P2, P2)>,
    character_map: serde_json::Value,
    size: (u64, u64),
    origin: P2,
    width_offset: i64,
    text: String,
    zoom_transform: X,
}

impl<X: Copy> Text<X> {
    /// The label's mesh buffer.
    pub closed spec fn buffer(&self) -> VertexData<(P2, P2)> {
        self.gl_vertices
    }

    /// The label's glyph table.
    pub closed spec fn table(&self) -> Json {
        json_value(self.character_map)
    }

    /// The size of the glyph atlas, in pixels.
    pub closed spec fn atlas_size(&self) -> (u64, u64) {
        self.size
    }

    /// Where the label starts on the canvas.
    pub closed spec fn spec_origin(&self) -> P2 {
        self.origin
    }

    /// The transform that places the label on the canvas.
    pub closed spec fn transform(&self) -> X {
        self.zoom_transform
    }

    pub closed spec fn spec_cursor(&self) -> int {
        self.width_offset as int
    }

    pub closed spec fn spec_text(&self) -> Seq<char> {
        self.text@
    }

    /// The label as the layout sees it.
    pub open spec fn label(&self) -> Label {
        Label {
            vertices: self.buffer()@.vertices,
            indices: self.buffer()@.indices,
            cursor: self.spec_cursor(),
            text: self.spec_text(),
        }
    }

    pub open spec fn wf(&self) -> bool {
        &&& self.buffer().wf()
        &&& text_layout(self.buffer().layout())
        &&& self.table() is Object
        &&& label_wf(self.label())
    }

    /// The number of glyphs of the label.
    pub open spec fn spec_glyphs(&self) -> int {
        self.label().vertices.len() as int / 4
    }

    /// An empty label at `origin`, placed by `transform`, for the glyph
    /// table that `character_map` holds as JSON text and an atlas of `size`
    /// pixels.
    pub fn new(origin: P2, character_map: &str, size: (u64, u64), transform: X) -> (r: Result<
        Text<X>,
        TextError,
    >)
        ensures
            match json_parsed(character_map@) {
                None => r is Err && r->Err_0 == TextError::Syntax,
                Some(table) => if table is Object {
                    &&& r is Ok
                    &&& r->Ok_0.wf()
                    &&& r->Ok_0.table() == table
                    &&& r->Ok_0.label() == empty_label()
                    &&& r->Ok_0.spec_origin() == origin
                    &&& r->Ok_0.atlas_size() == size
                    &&& r->Ok_0.transform() == transform
                } else {
                    r is Err && r->Err_0 == TextError::NotAnObject
                },
            },
    {
        let character_map = match parse_json(character_map) {
            Ok(v) => v,
            Err(_) => {
                return Err(TextError::Syntax);
            },
        };
        if value_as_object(&character_map).is_none() {
            return Err(TextError::NotAnObject);
        }
        let mut attributes: Vec<VertexAttrib> = Vec::new();
        attributes.push(point2());
        attributes.push(point2());
        proof {
            let a = attributes@;
            assert(a.drop_last().drop_last() =~= Seq::<VertexAttrib>::empty());
            reveal_with_fuel(crate::gl_vertices::stride_of, 3);
            assert(crate::gl_vertices::stride_of(a) == 16);
        }
        let t = Text {
            gl_vertices: VertexData::new(attributes),
            character_map,
            size,
            origin,
            width_offset: 0,
            text: String::new(),
            zoom_transform: transform,
        };
        proof {
            assert(t.label().vertices =~= Seq::<(P2, P2)>::empty());
            assert(t.label().indices =~= quad_list_indices(glyph_indices(), 0));
            assert(t.label().indices =~= Seq::<u32>::empty());
            assert(t.label().text =~= Seq::<char>::empty());
        }
        Ok(t)
    }

    /// The mesh buffer, for the upload and the draw.
    pub fn gl_vertices(&self) -> (b: &VertexData<(P2, P2)>)
        ensures
            *b == self.buffer(),
    {
        &self.gl_vertices
    }

    pub fn origin(&self) -> (p: P2)
        ensures
            p == self.spec_origin(),
    {
        self.origin
    }

    pub fn size(&self) -> (s: (u64, u64))
        ensures
            s == self.atlas_size(),
    {
        self.size
    }

    pub fn width_offset(&self) -> (c: i64)
        ensures
            c == self.spec_cursor(),
    {
        self.width_offset
    }

    pub fn text(&self) -> (t: &String)
        ensures
            t@ == self.spec_text(),
    {
        &self.text
    }

    pub fn zoom_transform(&self) -> (z: X)
        ensures
            z == self.transform(),
    {
        self.zoom_transform
    }

    /// Places the label on the canvas by `z`.
    pub fn set_transform(&mut self, z: X)
        ensures
            final(self).transform() == z,
            final(self).buffer() == old(self).buffer(),
            final(self).table() == old(self).table(),
            final(self).label() == old(self).label(),
            final(self).spec_origin() == old(self).spec_origin(),
            final(self).atlas_size() == old(self).atlas_size(),
    {
        self.zoom_transform = z;
    }

    /// Types `key`: adds the quad of the glyph that the table has for it and
    /// moves the cursor on. Says which upload is due, or `None` where the
    /// key adds nothing.
    fn type_text(&mut self, key: &str) -> (update: Option<GpuUpdate>)
        requires
            old(self).wf(),
            old(self).spec_glyphs() < MAX_GLYPHS,
        ensures
            final(self).wf(),
            final(self).table() == old(self).table(),
            final(self).spec_origin() == old(self).spec_origin(),
            final(self).atlas_size() == old(self).atlas_size(),
            final(self).transform() == old(self).transform(),
            final(self).buffer().layout() == old(self).buffer().layout(),
            match type_key(
                old(self).label(),
                old(self).spec_origin(),
                old(self).table()->Object_0,
                key@,
            ) {
                Some(l) => final(self).label() == l && update is Some && update->0.is_for(
                    old(self).buffer().layout(),
                    false,
                ),
                None => final(self).label() == old(self).label() && update is None,
            },
    {
        let table = match value_as_object(&self.character_map) {
            Some(table) => table,
            None => {
                return None;
            },
        };
        let size: i64 = match get_int(table, "size") {
            Some(size) => size,
            None => {
                return None;
            },
        };
        let glyph: Glyph = match lookup_glyph(table, key) {
            Some(glyph) => glyph,
            None => {
                return None;
            },
        };
        let mut new_vertices = match layout_glyph(self.origin, self.width_offset, size, &glyph) {
            Some(new_vertices) => new_vertices,
            None => {
                return None;
            },
        };
        let mut new_indices: Vec<u32> = Vec::new();
        new_indices.push(0);
        new_indices.push(1);
        new_indices.push(2);
        new_indices.push(0);
        new_indices.push(3);
        new_indices.push(2);
        proof {
            assert(new_indices@ =~= glyph_indices());
            lemma_with_glyph_wf(
                old(self).label(),
                self.origin,
                size as int,
                glyph,
                key@,
            );
        }
        let r = self.gl_vertices.append(&mut new_vertices, &mut new_indices, false);
        self.width_offset = self.width_offset + glyph.advance;
        self.text.append(key);
        match r {
            Ok(update) => Some(update),
            Err(_) => None,
        }
    }

    /// The draw of the label under `camera`, or nothing for a label without
    /// glyphs.
    pub fn draw(&self, camera: X) -> (call: Option<crate::gl_vertices::DrawCall<X>>)
        requires
            self.wf(),
        ensures
            self.label().vertices.len() == 0 ==> call is None,
            self.label().vertices.len() > 0 ==> call == Some(
                crate::gl_vertices::DrawCall {
                    object: self.transform(),
                    camera,
                    count: self.label().indices.len() as i32,
                },
            ),
    {
        if self.gl_vertices.data_len() == 0 {
            return None;
        }
        Some(
            crate::gl_vertices::DrawCall {
                object: self.zoom_transform,
                camera,
                count: self.gl_vertices.draw(),
            },
        )
    }

    /// What [`Text::process_event`] makes of an event: `before` is the
    /// label that the event came to, `after` the label that it left, and
    /// `h` the answer.
    pub open spec fn handles(before: Self, e: Event, after: Self, h: Handled) -> bool {
        &&& after.table() == before.table()
        &&& after.spec_origin() == before.spec_origin()
        &&& after.atlas_size() == before.atlas_size()
        &&& after.transform() == before.transform()
        &&& after.buffer().layout() == before.buffer().layout()
        &&& match e {
            Event::KeyDown { keycode } => {
                &&& h.consumed == (keycode != Some(Keycode::Return))
                &&& h.update is None
                &&& after.label() == before.label()
            },
            Event::TextInput { text } => match type_key(
                before.label(),
                before.spec_origin(),
                before.table()->Object_0,
                text@,
            ) {
                Some(l) => h.consumed && after.label() == l && h.update is Some
                    && h.update->0.is_for(before.buffer().layout(), false),
                None => !h.consumed && after.label() == before.label() && h.update is None,
            },
            _ => !h.consumed && h.update is None && after.label() == before.label(),
        }
    }

    /// Feeds the label an event.
    ///
    /// A key press is consumed unless the key is Return, which ends the
    /// label; a press whose key the window system could not name is
    /// consumed too. Typed text is consumed where it adds a glyph. Any other event
    /// is left alone. Only typed text that is consumed changes the label.
    pub fn process_event(&mut self, e: &Event) -> (h: Handled)
        requires
            old(self).wf(),
            e is TextInput ==> old(self).spec_glyphs() < MAX_GLYPHS,
        ensures
            final(self).wf(),
            Text::handles(*old(self), *e, *final(self), h),
    {
        match e {
            Event::KeyDown { keycode } => {
                let consumed = match keycode {
                    Some(Keycode::Return) => false,
                    _ => true,
                };
                Handled { consumed, update: None }
            },
            Event::TextInput { text } => {
                let update = self.type_text(text.as_str());
                Handled { consumed: update.is_some(), update }
            },
            _ => Handled { consumed: false, update: None },
        }
    }
}

/// Typing the characters of a text into a well-formed label leaves it
/// well-formed, and adds no more glyphs than the text has characters.
pub proof fn lemma_type_all_wf(l: Label, origin: P2, table: Map<Seq<char>, Json>, text: Seq<char>)
    requires
        label_wf(l),
        l.vertices.len() / 4 + text.len() <= MAX_GLYPHS,
    ensures
        label_wf(type_all(l, origin, table, text)),
        type_all(l, origin, table, text).vertices.len() / 4 <= l.vertices.len() / 4 + text.len(),
    decreases text.len(),
{
    if text.len() > 0 {
        lemma_type_all_wf(l, origin, table, text.drop_last());
        let before = type_all(l, origin, table, text.drop_last());
        match (line_height(table), find_glyph(table, seq![text.last()])) {
            (Some(size), Some(g)) => {
                if quad_fits(origin, before.cursor, size as int, g) {
                    lemma_with_glyph_wf(before, origin, size as int, g, seq![text.last()]);
                }
            },
            _ => {},
        }
    }
}

/// What is kept of a label when the canvas is saved: where it starts, the
/// text that was typed into it, and the transform that places it.
pub struct SavedText<X> {
    origin: P2,
    text: String,
    transform: X,
}

impl<X: Copy> SavedText<X> {
    pub closed spec fn spec_origin(&self) -> P2 {
        self.origin
    }

    pub closed spec fn spec_text(&self) -> Seq<char> {
        self.text@
    }

    pub closed spec fn spec_transform(&self) -> X {
        self.transform
    }

    pub fn new(origin: P2, text: String, transform: X) -> (s: Self)
        ensures
            s.spec_origin() == origin,
            s.spec_text() == text@,
            s.spec_transform() == transform,
    {
        SavedText { origin, text, transform }
    }

    pub fn origin(&self) -> (p: P2)
        ensures
            p == self.spec_origin(),
    {
        self.origin
    }

    pub fn text(&self) -> (t: &String)
        ensures
            t@ == self.spec_text(),
    {
        &self.text
    }

    pub fn transform(&self) -> (z: X)
        ensures
            z == self.spec_transform(),
    {
        self.transform
    }

    /// What is to be saved of `t`.
    pub fn from_text(t: &Text<X>) -> (s: Self)
        ensures
            s.spec_origin() == t.spec_origin(),
            s.spec_text() == t.spec_text(),
            s.spec_transform() == t.transform(),
    {
        SavedText { origin: t.origin, text: t.text.clone(), transform: t.zoom_transform }
    }

    /// The label that the saved text gives, typed character by character
    /// into a new label at the saved origin, for the glyph table that
    /// `character_map` holds as JSON text and an atlas of `size` pixels.
    pub fn into_text(&self, character_map: &str, size: (u64, u64)) -> (r: Result<
        Text<X>,
        TextError,
    >)
        requires
            self.spec_text().len() <= MAX_GLYPHS,
        ensures
            match json_parsed(character_map@) {
                None => r is Err && r->Err_0 == TextError::Syntax,
                Some(table) => if table is Object {
                    &&& r is Ok
                    &&& r->Ok_0.wf()
                    &&& r->Ok_0.table() == table
                    &&& r->Ok_0.label() == type_all(
                        empty_label(),
                        self.spec_origin(),
                        table->Object_0,
                        self.spec_text(),
                    )
                    &&& r->Ok_0.spec_origin() == self.spec_origin()
                    &&& r->Ok_0.atlas_size() == size
                    &&& r->Ok_0.transform() == self.spec_transform()
                } else {
                    r is Err && r->Err_0 == TextError::NotAnObject
                },
            },
    {
        let mut to_return = match Text::new(self.origin, character_map, size, self.transform) {
            Ok(t) => t,
            Err(e) => {
                return Err(e);
            },
        };
        let ghost table = to_return.table()->Object_0;
        let text: &str = self.text.as_str();
        let n: usize = text.unicode_len();
        let mut i: usize = 0;
        while i < n
            invariant
                i <= n,
                n == text@.len(),
                n <= MAX_GLYPHS,
                text@ == self.spec_text(),
                to_return.wf(),
                to_return.table() == Json::Object(table),
                to_return.label() == type_all(
                    empty_label(),
                    self.spec_origin(),
                    table,
                    text@.take(i as int),
                ),
                to_return.spec_origin() == self.spec_origin(),
                to_return.atlas_size() == size,
                to_return.transform() == self.spec_transform(),
            decreases n - i,
        {
            proof {
                assert(empty_label().indices =~= quad_list_indices(glyph_indices(), 0));
                lemma_type_all_wf(empty_label(), self.spec_origin(), table, text@.take(i as int));
                assert(text@.take(i + 1).drop_last() =~= text@.take(i as int));
                assert(text@.subrange(i as int, i + 1) =~= seq![text@.take(i + 1).last()]);
            }
            let key: &str = text.substring_char(i, i + 1);
            to_return.type_text(key);
            i += 1;
        }
        assert(text@.take(i as int) =~= text@);
        Ok(to_return)
    }
}

} // verus!
