//! The scene: the camera and the committed objects, and what is kept of
//! them when the scene is saved.

use vstd::prelude::*;
use crate::gl_vertices::DrawCall;
use crate::line::{authored_points, lemma_round_trip, replay, Line, SavedLine, MAX_SEGMENTS};
use crate::object::TypedExplainObject;
use crate::text::{empty_label, type_all, SavedText, Text, TextError, MAX_GLYPHS};
use crate::json::json_parsed;

verus! {

/// The kind of an object of the scene.
#[derive(Clone, Copy, Debug, PartialEq, Eq, Structural)]
pub enum ObjectKind {
    Line,
    Text,
}

/// One draw of the scene's draw pass: which object is drawn, by its kind and
/// its place among the objects of that kind, and how.
#[derive(Debug)]
pub struct Draw<X> {
    pub kind: ObjectKind,
    pub index: usize,
    pub call: DrawCall<X>,
}

/// The scene: a camera and the committed objects, strokes and labels each in
/// the order in which they were committed. `X` is the type of the
/// transforms.
pub struct World<X> {
    pub camera: X,
    pub lines: Vec<Line<X>>,
    pub texts: Vec<Text<X>>,
}

/// What the draw pass reads of an object: how large its mesh is and how the
/// object is placed.
pub struct Drawable<X> {
    pub vertices: nat,
    pub indices: nat,
    pub transform: X,
}

/// What the draw pass reads of each stroke.
pub open spec fn drawable_lines<X: Copy>(lines: Seq<Line<X>>) -> Seq<Drawable<X>> {
    Seq::new(
        lines.len(),
        |i: int|
            Drawable {
                vertices: lines[i].stroke().vertices.len(),
                indices: lines[i].stroke().indices.len(),
                transform: lines[i].transform(),
            },
    )
}

/// What the draw pass reads of each label.
pub open spec fn drawable_texts<X: Copy>(texts: Seq<Text<X>>) -> Seq<Drawable<X>> {
    Seq::new(
        texts.len(),
        |i: int|
            Drawable {
                vertices: texts[i].label().vertices.len(),
                indices: texts[i].label().indices.len(),
                transform: texts[i].transform(),
            },
    )
}

/// The draws of the first `n` objects of one kind: one for each object whose
/// mesh is not empty, in order, under the camera.
pub open spec fn draws_of<X>(kind: ObjectKind, objects: Seq<Drawable<X>>, camera: X, n: int) -> Seq<
    Draw<X>,
>
    decreases n,
{
    if n <= 0 {
        Seq::empty()
    } else {
        let before = draws_of(kind, objects, camera, n - 1);
        let o = objects[n - 1];
        if o.vertices > 0 {
            before.push(
                Draw {
                    kind,
                    index: (n - 1) as usize,
                    call: DrawCall { object: o.transform, camera, count: o.indices as i32 },
                },
            )
        } else {
            before
        }
    }
}

/// The draw pass over a scene: the strokes in order, then the labels in
/// order.
pub open spec fn draw_pass<X: Copy>(w: World<X>) -> Seq<Draw<X>> {
    draws_of(ObjectKind::Line, drawable_lines(w.lines@), w.camera, w.lines@.len() as int)
        + draws_of(ObjectKind::Text, drawable_texts(w.texts@), w.camera, w.texts@.len() as int)
}

/// Among the draws of the first `n` objects of one kind, object `i` is
/// drawn exactly if its mesh is not empty: an object with an empty mesh is
/// passed over. Every draw is of one of the `n` objects and of that kind.
pub proof fn lemma_drawn_iff_mesh<X>(
    kind: ObjectKind,
    objects: Seq<Drawable<X>>,
    camera: X,
    n: int,
    i: int,
)
    requires
        0 <= i < n <= objects.len(),
        n <= usize::MAX,
    ensures
        (exists|j: int|
            0 <= j < draws_of(kind, objects, camera, n).len() && #[trigger] draws_of(
                kind,
                objects,
                camera,
                n,
            )[j].index == i) <==> objects[i].vertices > 0,
        forall|j: int|
            0 <= j < draws_of(kind, objects, camera, n).len() ==> (#[trigger] draws_of(
                kind,
                objects,
                camera,
                n,
            )[j]).index < n && draws_of(kind, objects, camera, n)[j].kind == kind,
    decreases n,
{
    let draws = draws_of(kind, objects, camera, n);
    let before = draws_of(kind, objects, camera, n - 1);
    if n - 1 > 0 {
        let k = if i < n - 1 {
            i
        } else {
            0
        };
        lemma_drawn_iff_mesh(kind, objects, camera, n - 1, k);
    }
    assert forall|j: int| 0 <= j < draws.len() implies (#[trigger] draws[j]).index < n
        && draws[j].kind == kind by {
        if j < before.len() {
            assert(draws[j] == before[j]);
        }
    }
    let drawn = exists|j: int| 0 <= j < draws.len() && #[trigger] draws[j].index == i;
    if i == n - 1 {
        if objects[i].vertices > 0 {
            assert(draws[draws.len() - 1].index == i);
        } else {
            assert(draws == before);
            if drawn {
                let j = choose|j: int| 0 <= j < draws.len() && #[trigger] draws[j].index == i;
                assert(before[j].index < n - 1);
            }
        }
    } else {
        let drawn_before = exists|j: int|
            0 <= j < before.len() && #[trigger] before[j].index == i;
        if drawn_before {
            let j = choose|j: int| 0 <= j < before.len() && #[trigger] before[j].index == i;
            assert(draws[j] == before[j]);
        }
        if drawn {
            let j = choose|j: int| 0 <= j < draws.len() && #[trigger] draws[j].index == i;
            if j < before.len() {
                assert(draws[j] == before[j]);
            }
        }
    }
}

/// A committed stroke is drawn by the draw pass exactly if it has a ribbon:
/// a stroke that no segment was drawn for is passed over.
pub proof fn lemma_stroke_drawn_iff_ribbon<X: Copy>(w: World<X>, i: int)
    requires
        0 <= i < w.lines@.len(),
    ensures
        (exists|j: int|
            0 <= j < draw_pass(w).len() && (#[trigger] draw_pass(w)[j]).kind == ObjectKind::Line
                && draw_pass(w)[j].index == i) <==> w.lines@[i].stroke().vertices.len() > 0,
{
    let n = w.lines@.len() as int;
    let lines = draws_of(ObjectKind::Line, drawable_lines(w.lines@), w.camera, n);
    let texts = draws_of(
        ObjectKind::Text,
        drawable_texts(w.texts@),
        w.camera,
        w.texts@.len() as int,
    );
    let pass = draw_pass(w);
    vstd::std_specs::vec::axiom_spec_len(&w.lines);
    vstd::std_specs::vec::axiom_spec_len(&w.texts);
    lemma_drawn_iff_mesh(ObjectKind::Line, drawable_lines(w.lines@), w.camera, n, i);
    if w.texts@.len() > 0 {
        lemma_drawn_iff_mesh(
            ObjectKind::Text,
            drawable_texts(w.texts@),
            w.camera,
            w.texts@.len() as int,
            0,
        );
    }
    let in_lines = exists|j: int| 0 <= j < lines.len() && #[trigger] lines[j].index == i;
    let in_pass = exists|j: int|
        0 <= j < pass.len() && (#[trigger] pass[j]).kind == ObjectKind::Line && pass[j].index
            == i;
    if in_lines {
        let j = choose|j: int| 0 <= j < lines.len() && #[trigger] lines[j].index == i;
        assert(pass[j] == lines[j]);
    }
    if in_pass {
        let j = choose|j: int|
            0 <= j < pass.len() && (#[trigger] pass[j]).kind == ObjectKind::Line
                && pass[j].index == i;
        if j < lines.len() {
            assert(pass[j] == lines[j]);
        } else {
            assert(pass[j] == texts[j - lines.len()]);
        }
    }
}

impl<X: Copy> World<X> {
    /// Every object of the scene is well-formed.
    pub open spec fn wf(&self) -> bool {
        &&& forall|i: int| 0 <= i < self.lines@.len() ==> (#[trigger] self.lines@[i]).wf()
        &&& forall|i: int| 0 <= i < self.texts@.len() ==> (#[trigger] self.texts@[i]).wf()
    }

    /// A scene without objects, seen through `camera`.
    pub fn new(camera: X) -> (w: World<X>)
        ensures
            w.wf(),
            w.camera == camera,
            w.lines@.len() == 0,
            w.texts@.len() == 0,
    {
        World { camera, lines: Vec::new(), texts: Vec::new() }
    }

    /// Commits the object that was being made, if there is one: it becomes
    /// the last of the scene's objects of its kind. Says whether the scene
    /// has changed and is to be saved.
    pub fn push_object_if_there(&mut self, object: Option<TypedExplainObject<X>>) -> (pushed: bool)
        requires
            old(self).wf(),
            object matches Some(o) ==> o.wf(),
        ensures
            final(self).wf(),
            final(self).camera == old(self).camera,
            pushed == (object is Some),
            match object {
                None => final(self).lines@ == old(self).lines@ && final(self).texts@ == old(
                    self,
                ).texts@,
                Some(TypedExplainObject::Line(l)) => final(self).lines@ == old(self).lines@.push(l)
                    && final(self).texts@ == old(self).texts@,
                Some(TypedExplainObject::Text(t)) => final(self).texts@ == old(self).texts@.push(t)
                    && final(self).lines@ == old(self).lines@,
            },
    {
        match object {
            None => false,
            Some(TypedExplainObject::Line(l)) => {
                self.lines.push(l);
                true
            },
            Some(TypedExplainObject::Text(t)) => {
                self.texts.push(t);
                true
            },
        }
    }

    /// The draw pass over the committed objects: the strokes in order, then
    /// the labels in order, each under the scene's camera. An object with an
    /// empty mesh is passed over.
    pub fn draw(&self) -> (draws: Vec<Draw<X>>)
        requires
            self.wf(),
        ensures
            draws@ == draw_pass(*self),
    {
        let mut draws: Vec<Draw<X>> = Vec::new();
        let mut i: usize = 0;
        while i < self.lines.len()
            invariant
                self.wf(),
                i <= self.lines.len(),
                draws@ == draws_of(
                    ObjectKind::Line,
                    drawable_lines(self.lines@),
                    self.camera,
                    i as int,
                ),
            decreases self.lines.len() - i,
        {
            if let Some(call) = self.lines[i].draw(self.camera) {
                draws.push(Draw { kind: ObjectKind::Line, index: i, call });
            }
            i += 1;
        }
        let ghost line_part = draws@;
        let mut k: usize = 0;
        while k < self.texts.len()
            invariant
                self.wf(),
                k <= self.texts.len(),
                draws@ == line_part + draws_of(
                    ObjectKind::Text,
                    drawable_texts(self.texts@),
                    self.camera,
                    k as int,
                ),
            decreases self.texts.len() - k,
        {
            if let Some(call) = self.texts[k].draw(self.camera) {
                draws.push(Draw { kind: ObjectKind::Text, index: k, call });
            }
            k += 1;
        }
        draws
    }
}

/// What is kept of a scene when it is saved.
pub struct SavedWorld<X> {
    camera: X,
    lines: Vec<SavedLine<X>>,
    texts: Vec<SavedText<X>>,
}

/// `s` is what is saved of `w`.
pub open spec fn saved_of<X: Copy>(w: World<X>, s: SavedWorld<X>) -> bool {
    &&& s.spec_camera() == w.camera
    &&& s.spec_lines().len() == w.lines@.len()
    &&& forall|i: int|
        0 <= i < w.lines@.len() ==> {
            &&& (#[trigger] s.spec_lines()[i]).spec_points() == authored_points(
                w.lines@[i].stroke().vertices,
            )
            &&& s.spec_lines()[i].spec_transform() == w.lines@[i].transform()
        }
    &&& s.spec_texts().len() == w.texts@.len()
    &&& forall|i: int|
        0 <= i < w.texts@.len() ==> {
            &&& (#[trigger] s.spec_texts()[i]).spec_origin() == w.texts@[i].spec_origin()
            &&& s.spec_texts()[i].spec_text() == w.texts@[i].spec_text()
            &&& s.spec_texts()[i].spec_transform() == w.texts@[i].transform()
        }
}

/// `w` is the scene that `s` brings back, with labels laid out by `table`
/// for an atlas of `size` pixels.
pub open spec fn restored_from<X: Copy>(
    s: SavedWorld<X>,
    table: Map<Seq<char>, crate::json::Json>,
    size: (u64, u64),
    w: World<X>,
) -> bool {
    &&& w.wf()
    &&& w.camera == s.spec_camera()
    &&& w.lines@.len() == s.spec_lines().len()
    &&& forall|i: int|
        0 <= i < w.lines@.len() ==> {
            &&& (#[trigger] w.lines@[i]).stroke() == replay(s.spec_lines()[i].spec_points())
            &&& w.lines@[i].transform() == s.spec_lines()[i].spec_transform()
        }
    &&& w.texts@.len() == s.spec_texts().len()
    &&& forall|i: int|
        0 <= i < w.texts@.len() ==> {
            &&& (#[trigger] w.texts@[i]).label() == type_all(
                empty_label(),
                s.spec_texts()[i].spec_origin(),
                table,
                s.spec_texts()[i].spec_text(),
            )
            &&& w.texts@[i].table() == crate::json::Json::Object(table)
            &&& w.texts@[i].spec_origin() == s.spec_texts()[i].spec_origin()
            &&& w.texts@[i].atlas_size() == size
            &&& w.texts@[i].transform() == s.spec_texts()[i].spec_transform()
        }
}

/// A scene that is saved and brought back has the camera it had and as many
/// strokes as it had, and each stroke has the transform, the authored
/// points, the vertices and the indices that it had.
pub proof fn lemma_world_round_trip<X: Copy>(
    w: World<X>,
    s: SavedWorld<X>,
    table: Map<Seq<char>, crate::json::Json>,
    size: (u64, u64),
    back: World<X>,
)
    requires
        w.wf(),
        saved_of(w, s),
        restored_from(s, table, size, back),
    ensures
        back.camera == w.camera,
        back.lines@.len() == w.lines@.len(),
        back.texts@.len() == w.texts@.len(),
        forall|i: int|
            0 <= i < w.lines@.len() ==> {
                &&& (#[trigger] back.lines@[i]).transform() == w.lines@[i].transform()
                &&& back.lines@[i].stroke().vertices == w.lines@[i].stroke().vertices
                &&& back.lines@[i].stroke().indices == w.lines@[i].stroke().indices
                &&& authored_points(back.lines@[i].stroke().vertices) == authored_points(
                    w.lines@[i].stroke().vertices,
                )
            },
{
    assert forall|i: int| 0 <= i < w.lines@.len() implies {
        &&& (#[trigger] back.lines@[i]).transform() == w.lines@[i].transform()
        &&& back.lines@[i].stroke().vertices == w.lines@[i].stroke().vertices
        &&& back.lines@[i].stroke().indices == w.lines@[i].stroke().indices
        &&& authored_points(back.lines@[i].stroke().vertices) == authored_points(
            w.lines@[i].stroke().vertices,
        )
    } by {
        assert(w.lines@[i].wf());
        assert(s.spec_lines()[i].spec_points() == authored_points(w.lines@[i].stroke().vertices));
        lemma_round_trip(w.lines@[i].stroke());
    }
}

impl<X: Copy> SavedWorld<X> {
    pub closed spec fn spec_camera(&self) -> X {
        self.camera
    }

    pub closed spec fn spec_lines(&self) -> Seq<SavedLine<X>> {
        self.lines@
    }

    pub closed spec fn spec_texts(&self) -> Seq<SavedText<X>> {
        self.texts@
    }

    /// Every saved stroke and every saved label is short enough to be
    /// brought back.
    pub open spec fn restorable(&self) -> bool {
        &&& forall|i: int|
            0 <= i < self.spec_lines().len() ==> (#[trigger] self.spec_lines()[i]).spec_points().len()
                <= MAX_SEGMENTS
        &&& forall|i: int|
            0 <= i < self.spec_texts().len() ==> (#[trigger] self.spec_texts()[i]).spec_text().len()
                <= MAX_GLYPHS
    }

    pub fn new(camera: X, lines: Vec<SavedLine<X>>, texts: Vec<SavedText<X>>) -> (s: Self)
        ensures
            s.spec_camera() == camera,
            s.spec_lines() == lines@,
            s.spec_texts() == texts@,
    {
        SavedWorld { camera, lines, texts }
    }

    pub fn camera(&self) -> (c: X)
        ensures
            c == self.spec_camera(),
    {
        self.camera
    }

    pub fn lines(&self) -> (l: &Vec<SavedLine<X>>)
        ensures
            l@ == self.spec_lines(),
    {
        &self.lines
    }

    pub fn texts(&self) -> (t: &Vec<SavedText<X>>)
        ensures
            t@ == self.spec_texts(),
    {
        &self.texts
    }

    /// What is to be saved of `w`: its camera, and of each object what is
    /// to be saved of it.
    pub fn from_world(w: &World<X>) -> (s: Self)
        requires
            w.wf(),
        ensures
            saved_of(*w, s),
    {
        let mut lines: Vec<SavedLine<X>> = Vec::new();
        let mut texts: Vec<SavedText<X>> = Vec::new();
        let mut i: usize = 0;
        while i < w.lines.len()
            invariant
                w.wf(),
                i <= w.lines.len(),
                lines@.len() == i,
                forall|j: int|
                    0 <= j < i ==> {
                        &&& (#[trigger] lines@[j]).spec_points() == authored_points(
                            w.lines@[j].stroke().vertices,
                        )
                        &&& lines@[j].spec_transform() == w.lines@[j].transform()
                    },
            decreases w.lines.len() - i,
        {
            lines.push(SavedLine::from_line(&w.lines[i]));
            i += 1;
        }
        let mut k: usize = 0;
        while k < w.texts.len()
            invariant
                k <= w.texts.len(),
                texts@.len() == k,
                forall|j: int|
                    0 <= j < k ==> {
                        &&& (#[trigger] texts@[j]).spec_origin() == w.texts@[j].spec_origin()
                        &&& texts@[j].spec_text() == w.texts@[j].spec_text()
                        &&& texts@[j].spec_transform() == w.texts@[j].transform()
                    },
            decreases w.texts.len() - k,
        {
            texts.push(SavedText::from_text(&w.texts[k]));
            k += 1;
        }
        SavedWorld { lines, texts, camera: w.camera }
    }

    /// The scene that the saved one brings back: each stroke drawn again
    /// through its points, each label typed again, with labels laid out by
    /// the glyph table that `character_map` holds as JSON text, for an atlas
    /// of `size` pixels.
    ///
    /// A scene without labels comes back whatever the glyph table holds.
    /// With labels, a table that is no JSON object is the error.
    pub fn into_world(&self, character_map: &str, size: (u64, u64)) -> (r: Result<
        World<X>,
        TextError,
    >)
        requires
            self.restorable(),
        ensures
            self.spec_texts().len() == 0 ==> r is Ok && r->Ok_0.texts@.len() == 0 && forall|
                table: Map<Seq<char>, crate::json::Json>,
            | restored_from(*self, table, size, r->Ok_0),
            self.spec_texts().len() > 0 ==> match json_parsed(character_map@) {
                None => r is Err && r->Err_0 == TextError::Syntax,
                Some(table) => if table is Object {
                    r is Ok && restored_from(*self, table->Object_0, size, r->Ok_0)
                } else {
                    r is Err && r->Err_0 == TextError::NotAnObject
                },
            },
    {
        let mut lines: Vec<Line<X>> = Vec::new();
        let mut texts: Vec<Text<X>> = Vec::new();
        let mut i: usize = 0;
        while i < self.lines.len()
            invariant
                self.restorable(),
                i <= self.lines.len(),
                lines@.len() == i,
                forall|j: int|
                    0 <= j < i ==> {
                        &&& (#[trigger] lines@[j]).wf()
                        &&& lines@[j].stroke() == replay(self.spec_lines()[j].spec_points())
                        &&& lines@[j].transform() == self.spec_lines()[j].spec_transform()
                    },
            decreases self.lines.len() - i,
        {
            lines.push(self.lines[i].into_line());
            i += 1;
        }
        let mut k: usize = 0;
        while k < self.texts.len()
            invariant
                self.restorable(),
                k <= self.texts.len(),
                texts@.len() == k,
                k > 0 ==> json_parsed(character_map@) is Some && json_parsed(
                    character_map@,
                )->0 is Object,
                forall|j: int|
                    0 <= j < k ==> {
                        &&& (#[trigger] texts@[j]).wf()
                        &&& texts@[j].label() == type_all(
                            empty_label(),
                            self.spec_texts()[j].spec_origin(),
                            json_parsed(character_map@)->0->Object_0,
                            self.spec_texts()[j].spec_text(),
                        )
                        &&& texts@[j].table() == json_parsed(character_map@)->0
                        &&& texts@[j].spec_origin() == self.spec_texts()[j].spec_origin()
                        &&& texts@[j].atlas_size() == size
                        &&& texts@[j].transform() == self.spec_texts()[j].spec_transform()
                    },
            decreases self.texts.len() - k,
        {
            match self.texts[k].into_text(character_map, size) {
                Ok(t) => {
                    texts.push(t);
                },
                Err(e) => {
                    return Err(e);
                },
            }
            k += 1;
        }
        Ok(World { lines, texts, camera: self.camera })
    }
}

} // verus!
