//! Freehand strokes: a polyline that is turned, one segment at a time, into
//! a ribbon of two triangles per segment.

use vstd::prelude::*;
use crate::events::{Event, Handled};
use crate::gl_vertices::vertex_attribs::{point2, vector2};
use crate::gl_vertices::{
    lemma_quad_list_step, quad_list_indices, rebase, DrawCall, GpuUpdate, VertexAttrib, VertexData,
    FLOAT, MAX_QUADS,
};
use crate::util::{down_normal, up_normal, P2, V2};

verus! {

/// The most segments that a stroke can hold.
pub const MAX_SEGMENTS: usize = MAX_QUADS;

/// A stroke as the tessellator sees it: the ribbon so far, and the point
/// that the next segment starts from.
pub struct Stroke {
    pub vertices: Seq<(P2, V2)>,
    pub indices: Seq<u32>,
    pub last_point: Option<P2>,
}

/// The stroke that no point was given to.
pub open spec fn empty_stroke() -> Stroke {
    Stroke { vertices: Seq::empty(), indices: Seq::empty(), last_point: None }
}

/// The two triangles of a ribbon quad, over the quad's own four vertices.
pub open spec fn quad_indices() -> Seq<u32> {
    seq![0u32, 1u32, 3u32, 0u32, 2u32, 3u32]
}

/// The normals at the near edge of the next segment: those of the far edge
/// of the segment before, where there is one, so that the two segments meet
/// in the same two vertices; the segment's own normals otherwise.
pub open spec fn near_normals(vertices: Seq<(P2, V2)>, last: P2, new: P2) -> (V2, V2) {
    if vertices.len() >= 2 {
        (vertices[vertices.len() - 2].1, vertices[vertices.len() - 1].1)
    } else {
        (up_normal(last, new), down_normal(last, new))
    }
}

/// The four vertices of the ribbon quad from `last` to `new`.
pub open spec fn quad(vertices: Seq<(P2, V2)>, last: P2, new: P2) -> Seq<(P2, V2)> {
    seq![
        (last, near_normals(vertices, last, new).0),
        (last, near_normals(vertices, last, new).1),
        (new, up_normal(last, new)),
        (new, down_normal(last, new)),
    ]
}

/// How far a stroke has come.
#[derive(Clone, Copy, Debug, PartialEq, Eq, Structural)]
pub enum StrokeState {
    /// No point yet.
    Empty,
    /// One point is recorded, no segment is drawn yet.
    HasLastPoint,
    /// At least one segment is drawn.
    Extending,
}

/// The state that a stroke is in.
pub open spec fn state_of(s: Stroke) -> StrokeState {
    if s.vertices.len() > 0 {
        StrokeState::Extending
    } else if s.last_point is Some {
        StrokeState::HasLastPoint
    } else {
        StrokeState::Empty
    }
}

/// The stroke after one more point.
///
/// The first point is only recorded. A point that repeats the last one
/// changes nothing. Any other point adds the quad from the last point to it
/// and becomes the last point.
pub open spec fn extend(s: Stroke, p: P2) -> Stroke {
    match s.last_point {
        None => Stroke { last_point: Some(p), ..s },
        Some(last) => if last == p {
            s
        } else {
            Stroke {
                vertices: s.vertices + quad(s.vertices, last, p),
                indices: s.indices + rebase(quad_indices(), s.vertices.len() as int),
                last_point: Some(p),
            }
        },
    }
}

/// The stroke that the points give, fed one after the other.
pub open spec fn replay(points: Seq<P2>) -> Stroke
    decreases points.len(),
{
    if points.len() == 0 {
        empty_stroke()
    } else {
        extend(replay(points.drop_last()), points.last())
    }
}

/// The indices of a ribbon of `segments` quads.
pub open spec fn ribbon_indices(segments: int) -> Seq<u32> {
    quad_list_indices(quad_indices(), segments)
}

/// Segment `k` of the ribbon is a well-formed quad that continues the
/// segment before it.
pub open spec fn segment_ok(v: Seq<(P2, V2)>, k: int) -> bool {
    let near = v[4 * k].0;
    let far = v[4 * k + 2].0;
    &&& v[4 * k + 1].0 == near
    &&& v[4 * k + 3].0 == far
    &&& near != far
    &&& v[4 * k + 2].1 == up_normal(near, far)
    &&& v[4 * k + 3].1 == down_normal(near, far)
    &&& if k == 0 {
        v[0].1 == up_normal(near, far) && v[1].1 == down_normal(near, far)
    } else {
        &&& near == v[4 * k - 1].0
        &&& v[4 * k].1 == v[4 * k - 2].1
        &&& v[4 * k + 1].1 == v[4 * k - 1].1
    }
}

/// The invariant of a stroke: its ribbon is a chain of well-formed quads
/// that fits the machine's limits, its indices are those of the ribbon, and
/// once there is a ribbon the last point is where the ribbon ends.
pub open spec fn stroke_wf(s: Stroke) -> bool {
    &&& s.vertices.len() % 4 == 0
    &&& s.vertices.len() / 4 <= MAX_SEGMENTS
    &&& s.indices == ribbon_indices(s.vertices.len() as int / 4)
    &&& forall|k: int| 0 <= k < s.vertices.len() / 4 ==> #[trigger] segment_ok(s.vertices, k)
    &&& s.vertices.len() > 0 ==> s.last_point == Some(s.vertices[s.vertices.len() - 1].0)
}

/// The points that a ribbon was drawn through: where its first segment
/// starts, then where each segment ends. A stroke without a ribbon has none.
pub open spec fn authored_points(v: Seq<(P2, V2)>) -> Seq<P2> {
    if v.len() == 0 {
        Seq::empty()
    } else {
        Seq::new(
            (v.len() / 4 + 1) as nat,
            |j: int|
                if j == 0 {
                    v[0].0
                } else {
                    v[4 * j - 1].0
                },
        )
    }
}

/// A freehand stroke. `X` is the type of the transform that places the
/// stroke on the canvas; the stroke only carries it.
pub struct Line<X> {
    gl_vertices: VertexData<(P2, V2)>,
    last_point: Option<P2>,
    zoom_transform: X,
}

/// The layout of a stroke's vertices: a position of two components and a
/// normal of two components.
pub open spec fn line_layout(layout: Seq<VertexAttrib>) -> bool {
    &&& layout.len() == 2
    &&& forall|i: int|
        0 <= i < 2 ==> (#[trigger] layout[i]).spec_gl_type() == FLOAT && layout[i].spec_size() == 8
            && layout[i].spec_components() == 2
}

/// Feeding a well-formed stroke one more point leaves it well-formed.
pub proof fn lemma_extend_wf(s: Stroke, p: P2)
    requires
        stroke_wf(s),
        s.vertices.len() / 4 < MAX_SEGMENTS,
    ensures
        stroke_wf(extend(s, p)),
{
    let t = extend(s, p);
    let n = s.vertices.len() as int;
    let m = n / 4;
    match s.last_point {
        None => {},
        Some(last) => {
            if last != p {
                let q = quad(s.vertices, last, p);
                assert(t.vertices.len() == n + 4);
                assert forall|i: int| 0 <= i < n implies t.vertices[i] == s.vertices[i] by {}
                assert(t.vertices[n] == q[0]);
                assert(t.vertices[n + 1] == q[1]);
                assert(t.vertices[n + 2] == q[2]);
                assert(t.vertices[n + 3] == q[3]);
                lemma_quad_list_step(quad_indices(), m);
                assert forall|k: int| 0 <= k < m + 1 implies #[trigger] segment_ok(
                    t.vertices,
                    k,
                ) by {
                    if k < m {
                        assert(segment_ok(s.vertices, k));
                    }
                }
            }
        },
    }
}

/// A point that repeats the one before it changes nothing: the stroke keeps
/// its vertices, its indices and its last point.
pub proof fn lemma_repeated_point(s: Stroke, p: P2)
    ensures
        extend(extend(s, p), p) == extend(s, p),
        s.last_point == Some(p) ==> extend(s, p) == s,
{
}

/// The states of a stroke follow each other as points come in: the first
/// point leads from `Empty` to `HasLastPoint` and draws nothing; after that
/// a point that repeats the last one leaves the state as it is, and any
/// other point leads to `Extending` and draws one segment.
pub proof fn lemma_transitions(s: Stroke, p: P2)
    requires
        stroke_wf(s),
    ensures
        state_of(s) == StrokeState::Empty ==> state_of(extend(s, p))
            == StrokeState::HasLastPoint && extend(s, p).vertices == s.vertices,
        state_of(s) != StrokeState::Empty && s.last_point == Some(p) ==> extend(s, p) == s,
        state_of(s) != StrokeState::Empty && s.last_point != Some(p) ==> state_of(extend(s, p))
            == StrokeState::Extending && extend(s, p).vertices.len() == s.vertices.len() + 4
            && extend(s, p).indices.len() == s.indices.len() + 6,
{
}

/// A well-formed stroke of `n` segments has four vertices and six indices
/// for each of them, and every index points at a vertex.
pub proof fn lemma_ribbon_counts(s: Stroke)
    requires
        stroke_wf(s),
    ensures
        s.vertices.len() == 4 * (s.vertices.len() / 4),
        s.indices.len() == 6 * (s.vertices.len() / 4),
        forall|i: int| 0 <= i < s.indices.len() ==> (#[trigger] s.indices[i]) < s.vertices.len(),
{
    let m = s.vertices.len() as int / 4;
    assert forall|i: int| 0 <= i < s.indices.len() implies (#[trigger] s.indices[i])
        < s.vertices.len() by {
        assert(0 <= i / 6 < m);
        assert(0 <= i % 6 < 6);
        assert(quad_indices()[i % 6] <= 3);
    }
}

/// Consecutive segments of a well-formed stroke share their edge: the two
/// vertices at the near edge of segment `k` are the two vertices at the
/// far edge of the segment before it, position and normal.
pub proof fn lemma_join_continuity(s: Stroke, k: int)
    requires
        stroke_wf(s),
        1 <= k < s.vertices.len() / 4,
    ensures
        s.vertices[4 * k] == s.vertices[4 * k - 2],
        s.vertices[4 * k + 1] == s.vertices[4 * k - 1],
{
    assert(segment_ok(s.vertices, k));
    assert(segment_ok(s.vertices, k - 1));
}

/// A stroke fed any points is well-formed, and has fewer segments than it
/// was fed points.
pub proof fn lemma_replay_wf(points: Seq<P2>)
    requires
        points.len() <= MAX_SEGMENTS,
    ensures
        stroke_wf(replay(points)),
        replay(points).vertices.len() / 4 <= points.len(),
        points.len() > 0 ==> replay(points).vertices.len() / 4 < points.len(),
        points.len() > 0 ==> replay(points).last_point == Some(points.last()),
    decreases points.len(),
{
    if points.len() > 0 {
        let before = points.drop_last();
        lemma_replay_wf(before);
        lemma_extend_wf(replay(before), points.last());
    } else {
        assert(replay(points).indices =~= ribbon_indices(0));
    }
}

/// The first `k` segments of a stroke, as a stroke of their own.
pub open spec fn first_segments(s: Stroke, k: int) -> Stroke {
    Stroke {
        vertices: s.vertices.take(4 * k),
        indices: ribbon_indices(k),
        last_point: Some(authored_points(s.vertices)[k]),
    }
}

/// Feeding a stroke the first `k + 1` of the points that its ribbon was
/// drawn through gives the first `k` segments of the ribbon.
pub proof fn lemma_replay_first_segments(s: Stroke, k: int)
    requires
        stroke_wf(s),
        0 <= k <= s.vertices.len() / 4,
        s.vertices.len() > 0,
    ensures
        replay(authored_points(s.vertices).take(k + 1)) == first_segments(s, k),
    decreases k,
{
    let v = s.vertices;
    let points = authored_points(v).take(k + 1);
    if k == 0 {
        assert(points.drop_last() =~= Seq::<P2>::empty());
        assert(replay(points.drop_last()) == empty_stroke());
        assert(first_segments(s, 0).vertices =~= Seq::<(P2, V2)>::empty());
        assert(first_segments(s, 0).indices =~= Seq::<u32>::empty());
    } else {
        lemma_replay_first_segments(s, k - 1);
        assert(points.drop_last() =~= authored_points(v).take(k));
        let before = first_segments(s, k - 1);
        let near = v[4 * (k - 1)].0;
        let far = v[4 * (k - 1) + 2].0;
        assert(segment_ok(v, k - 1));
        assert(points.last() == far);
        assert(before.last_point == Some(near));
        let q = quad(before.vertices, near, far);
        assert(q =~= v.subrange(4 * (k - 1), 4 * k)) by {
            if k - 1 > 0 {
                assert(before.vertices[4 * (k - 1) - 2] == v[4 * (k - 1) - 2]);
                assert(before.vertices[4 * (k - 1) - 1] == v[4 * (k - 1) - 1]);
            }
        }
        assert(before.vertices + q =~= v.take(4 * k));
        lemma_quad_list_step(quad_indices(), k - 1);
    }
}

/// A stroke's ribbon is the one that the points it was drawn through give,
/// fed to a new stroke one after the other: what is saved of a stroke
/// brings back the same vertices and indices, and the same last point.
pub proof fn lemma_round_trip(s: Stroke)
    requires
        stroke_wf(s),
    ensures
        replay(authored_points(s.vertices)).vertices == s.vertices,
        replay(authored_points(s.vertices)).indices == s.indices,
        s.vertices.len() > 0 ==> replay(authored_points(s.vertices)) == s,
{
    let points = authored_points(s.vertices);
    if s.vertices.len() == 0 {
        assert(s.vertices =~= Seq::<(P2, V2)>::empty());
        assert(s.indices =~= Seq::<u32>::empty());
    } else {
        let m = s.vertices.len() as int / 4;
        lemma_replay_first_segments(s, m);
        assert(points.take(m + 1) =~= points);
        assert(s.vertices.take(4 * m) =~= s.vertices);
    }
}

/// No point of the list repeats the point before it.
pub open spec fn no_repeats(points: Seq<P2>) -> bool {
    forall|i: int| 0 < i < points.len() ==> #[trigger] points[i] != points[i - 1]
}

/// A stroke drawn through points of which none repeats the one before it has
/// a segment between each two neighbours, from the one to the other.
pub proof fn lemma_replay_segments(points: Seq<P2>)
    requires
        points.len() >= 1,
        no_repeats(points),
    ensures
        replay(points).vertices.len() == 4 * (points.len() - 1),
        replay(points).last_point == Some(points.last()),
        forall|k: int|
            0 <= k < points.len() - 1 ==> (#[trigger] replay(points).vertices[4 * k]).0
                == points[k] && replay(points).vertices[4 * k + 3].0 == points[k + 1],
    decreases points.len(),
{
    let before = points.drop_last();
    if points.len() == 1 {
        assert(before =~= Seq::<P2>::empty());
    } else {
        assert forall|i: int| 0 < i < before.len() implies #[trigger] before[i] != before[i
            - 1] by {
            assert(points[i] != points[i - 1]);
        }
        lemma_replay_segments(before);
        let s = replay(before);
        let last = before.last();
        let p = points.last();
        assert(points[points.len() - 1] != points[points.len() - 2]);
        let q = quad(s.vertices, last, p);
        let t = replay(points);
        let n = s.vertices.len() as int;
        assert(t.vertices == s.vertices + q);
        assert forall|k: int| 0 <= k < points.len() - 1 implies (#[trigger] t.vertices[4 * k]).0
            == points[k] && t.vertices[4 * k + 3].0 == points[k + 1] by {
            if k < points.len() - 2 {
                assert(s.vertices[4 * k].0 == before[k]);
                assert(t.vertices[4 * k] == s.vertices[4 * k]);
                assert(t.vertices[4 * k + 3] == s.vertices[4 * k + 3]);
            } else {
                assert(t.vertices[n] == q[0]);
                assert(t.vertices[n + 3] == q[3]);
            }
        }
    }
}

/// What is saved of a stroke that was drawn through two or more points, of
/// which none repeats the one before it, is those points.
pub proof fn lemma_authored_points_of_replay(points: Seq<P2>)
    requires
        points.len() >= 2,
        no_repeats(points),
    ensures
        authored_points(replay(points).vertices) == points,
{
    lemma_replay_segments(points);
    let v = replay(points).vertices;
    let a = authored_points(v);
    assert(a.len() == points.len());
    assert forall|j: int| 0 <= j < a.len() implies a[j] == points[j] by {
        if j == 0 {
            assert(v[4 * (0 as int)].0 == points[0]);
        } else {
            let k = j - 1;
            assert(v[4 * k].0 == points[k]);
            assert(v[4 * k + 3].0 == points[k + 1]);
        }
    }
    assert(a =~= points);
}

impl<X: Copy> Line<X> {
    /// The stroke's mesh buffer.
    pub closed spec fn buffer(&self) -> VertexData<(P2, V2)> {
        self.gl_vertices
    }

    /// The point that the next segment starts from.
    pub closed spec fn spec_last_point(&self) -> Option<P2> {
        self.last_point
    }

    /// The transform that places the stroke on the canvas.
    pub closed spec fn transform(&self) -> X {
        self.zoom_transform
    }

    /// The stroke as the tessellator sees it.
    pub open spec fn stroke(&self) -> Stroke {
        Stroke {
            vertices: self.buffer()@.vertices,
            indices: self.buffer()@.indices,
            last_point: self.spec_last_point(),
        }
    }

    pub open spec fn wf(&self) -> bool {
        &&& self.buffer().wf()
        &&& line_layout(self.buffer().layout())
        &&& stroke_wf(self.stroke())
    }

    /// The number of segments of the ribbon.
    pub open spec fn spec_segments(&self) -> int {
        self.stroke().vertices.len() as int / 4
    }

    /// A stroke without points, placed by `transform`.
    pub fn new(transform: X) -> (l: Line<X>)
        ensures
            l.wf(),
            l.stroke() == empty_stroke(),
            l.transform() == transform,
    {
        let mut attributes: Vec<VertexAttrib> = Vec::new();
        attributes.push(point2());
        attributes.push(vector2());
        proof {
            let a = attributes@;
            assert(a.drop_last().drop_last() =~= Seq::<VertexAttrib>::empty());
            reveal_with_fuel(crate::gl_vertices::stride_of, 3);
            assert(crate::gl_vertices::stride_of(a) == 16);
        }
        let l = Line {
            last_point: None,
            zoom_transform: transform,
            gl_vertices: VertexData::new(attributes),
        };
        proof {
            assert(l.stroke().vertices =~= Seq::<(P2, V2)>::empty());
            assert(l.stroke().indices =~= ribbon_indices(0));
            assert(l.stroke().indices =~= Seq::<u32>::empty());
        }
        l
    }

    /// The mesh buffer, for the upload and the draw.
    pub fn gl_vertices(&self) -> (b: &VertexData<(P2, V2)>)
        ensures
            *b == self.buffer(),
    {
        &self.gl_vertices
    }

    pub fn last_point(&self) -> (p: Option<P2>)
        ensures
            p == self.spec_last_point(),
    {
        self.last_point
    }

    pub fn zoom_transform(&self) -> (z: X)
        ensures
            z == self.transform(),
    {
        self.zoom_transform
    }

    /// The state that the stroke is in.
    pub fn state(&self) -> (s: StrokeState)
        ensures
            s == state_of(self.stroke()),
    {
        if self.gl_vertices.data_len() > 0 {
            StrokeState::Extending
        } else if self.last_point.is_some() {
            StrokeState::HasLastPoint
        } else {
            StrokeState::Empty
        }
    }

    /// The number of segments of the ribbon.
    pub fn segments(&self) -> (n: usize)
        requires
            self.wf(),
        ensures
            n == self.spec_segments(),
    {
        self.gl_vertices.data_len() / 4
    }

    /// Adds the ribbon quad from `last_point` to `new_point`, unless the two
    /// coincide. Says which upload is due if a quad was added.
    fn add_new_segment(&mut self, last_point: P2, new_point: P2) -> (update: Option<GpuUpdate>)
        requires
            old(self).wf(),
            old(self).spec_last_point() == Some(last_point),
            old(self).spec_segments() < MAX_SEGMENTS,
        ensures
            final(self).wf(),
            final(self).stroke() == extend(old(self).stroke(), new_point),
            final(self).transform() == old(self).transform(),
            final(self).buffer().layout() == old(self).buffer().layout(),
            last_point == new_point ==> update is None,
            last_point != new_point ==> update is Some && update->0.is_for(
                old(self).buffer().layout(),
                false,
            ),
    {
        if last_point == new_point {
            return None;
        }
        let towards_new: V2 = last_point.towards(new_point);
        let up: V2 = towards_new.rotate_up();
        let down: V2 = towards_new.rotate_down();

        // The normals of the last edge are used again, so that the ribbon
        // has no gap at the join.
        let mut last_up: V2 = up;
        let mut last_down: V2 = down;
        let n: usize = self.gl_vertices.data_len();
        if n > 0 {
            if let Ok(v) = self.gl_vertices.get_vertex(n - 2) {
                last_up = v.1;
            }
            if let Ok(v) = self.gl_vertices.get_vertex(n - 1) {
                last_down = v.1;
            }
        }
        let mut new_data: Vec<(P2, V2)> = Vec::new();
        new_data.push((last_point, last_up));
        new_data.push((last_point, last_down));
        new_data.push((new_point, up));
        new_data.push((new_point, down));
        let mut new_indices: Vec<u32> = Vec::new();
        new_indices.push(0);
        new_indices.push(1);
        new_indices.push(3);
        new_indices.push(0);
        new_indices.push(2);
        new_indices.push(3);
        proof {
            assert(new_data@ =~= quad(old(self).stroke().vertices, last_point, new_point));
            assert(new_indices@ =~= quad_indices());
            lemma_extend_wf(old(self).stroke(), new_point);
        }
        let r = self.gl_vertices.append(&mut new_data, &mut new_indices, false);
        self.last_point = Some(new_point);
        match r {
            Ok(update) => Some(update),
            Err(_) => None,
        }
    }

    /// Gives the stroke its next point: the first point is recorded, every
    /// later one adds a segment unless it repeats the point before it.
    fn push_point(&mut self, new_point: P2) -> (update: Option<GpuUpdate>)
        requires
            old(self).wf(),
            old(self).spec_segments() < MAX_SEGMENTS,
        ensures
            final(self).wf(),
            final(self).stroke() == extend(old(self).stroke(), new_point),
            final(self).transform() == old(self).transform(),
            final(self).buffer().layout() == old(self).buffer().layout(),
            update is Some <==> final(self).stroke().vertices.len() > old(
                self,
            ).stroke().vertices.len(),
            update is Some ==> update->0.is_for(old(self).buffer().layout(), false),
    {
        match self.last_point {
            None => {
                self.last_point = Some(new_point);
                None
            },
            Some(last_point) => self.add_new_segment(last_point, new_point),
        }
    }

    /// Places the stroke on the canvas by `z`.
    pub fn set_transform(&mut self, z: X)
        ensures
            final(self).transform() == z,
            final(self).buffer() == old(self).buffer(),
            final(self).spec_last_point() == old(self).spec_last_point(),
    {
        self.zoom_transform = z;
    }

    /// The draw of the stroke under `camera`, or nothing for a stroke
    /// without a ribbon.
    pub fn draw(&self, camera: X) -> (call: Option<DrawCall<X>>)
        requires
            self.wf(),
        ensures
            self.stroke().vertices.len() == 0 ==> call is None,
            self.stroke().vertices.len() > 0 ==> call == Some(
                DrawCall {
                    object: self.transform(),
                    camera,
                    count: self.stroke().indices.len() as i32,
                },
            ),
    {
        if self.gl_vertices.data_len() == 0 {
            return None;
        }
        Some(DrawCall { object: self.zoom_transform, camera, count: self.gl_vertices.draw() })
    }

    /// What [`Line::process_event`] makes of an event: `before` is the
    /// stroke that the event came to, `after` the stroke that it left, and
    /// `h` the answer.
    ///
    /// A pointer motion is consumed and gives the stroke its next point; an
    /// upload is due exactly if that added a segment. Any other event is
    /// not consumed and changes nothing.
    pub open spec fn handles(before: Self, e: Event, after: Self, h: Handled) -> bool {
        &&& after.transform() == before.transform()
        &&& after.buffer().layout() == before.buffer().layout()
        &&& match e.motion() {
            Some(p) => {
                &&& h.consumed
                &&& after.stroke() == extend(before.stroke(), p)
                &&& h.update is Some <==> after.stroke().vertices.len()
                    > before.stroke().vertices.len()
                &&& h.update is Some ==> h.update->0.is_for(before.buffer().layout(), false)
            },
            None => {
                &&& !h.consumed
                &&& h.update is None
                &&& after.stroke() == before.stroke()
            },
        }
    }

    /// Feeds the stroke an event.
    ///
    /// A pointer motion is consumed: it gives the stroke its next point. Any
    /// other event is left alone and changes nothing.
    pub fn process_event(&mut self, e: &Event) -> (h: Handled)
        requires
            old(self).wf(),
            e.motion() is Some ==> old(self).spec_segments() < MAX_SEGMENTS,
        ensures
            final(self).wf(),
            Line::handles(*old(self), *e, *final(self), h),
    {
        if let Event::MouseMotion { x, y, .. } = e {
            let update = self.push_point(P2::new(*x, *y));
            Handled { consumed: true, update }
        } else {
            Handled { consumed: false, update: None }
        }
    }
}

/// What is kept of a stroke when the canvas is saved: the points that it
/// was drawn through and the transform that places it.
pub struct SavedLine<X> {
    points: Vec<P2>,
    transform: X,
}

impl<X: Copy> SavedLine<X> {
    pub closed spec fn spec_points(&self) -> Seq<P2> {
        self.points@
    }

    pub closed spec fn spec_transform(&self) -> X {
        self.transform
    }

    pub fn new(points: Vec<P2>, transform: X) -> (s: Self)
        ensures
            s.spec_points() == points@,
            s.spec_transform() == transform,
    {
        SavedLine { points, transform }
    }

    pub fn points(&self) -> (p: &Vec<P2>)
        ensures
            p@ == self.spec_points(),
    {
        &self.points
    }

    pub fn transform(&self) -> (z: X)
        ensures
            z == self.spec_transform(),
    {
        self.transform
    }

    /// What is to be saved of `l`: the points that its ribbon was drawn
    /// through, none for a stroke without a ribbon, and its transform.
    pub fn from_line(l: &Line<X>) -> (s: Self)
        requires
            l.wf(),
        ensures
            s.spec_points() == authored_points(l.stroke().vertices),
            s.spec_transform() == l.transform(),
    {
        let mut points: Vec<P2> = Vec::new();
        let d = l.gl_vertices.data();
        if d.len() > 0 {
            points.push(d[0].0);
        }
        let mut i: usize = 3;
        while i < d.len()
            invariant
                d@ == l.stroke().vertices,
                stroke_wf(l.stroke()),
                i % 4 == 3,
                i <= d.len() + 3,
                d.len() > 0 ==> points@.len() == i / 4 + 1,
                d.len() == 0 ==> points@.len() == 0,
                forall|j: int|
                    0 <= j < points@.len() ==> points@[j] == authored_points(d@)[j],
            decreases d.len() + 3 - i,
        {
            points.push(d[i].0);
            i += 4;
        }
        assert(points@ =~= authored_points(d@));
        SavedLine { points, transform: l.zoom_transform }
    }

    /// The stroke that the saved points give, fed to a new stroke one after
    /// the other, placed by the saved transform.
    pub fn into_line(&self) -> (l: Line<X>)
        requires
            self.spec_points().len() <= MAX_SEGMENTS,
        ensures
            l.wf(),
            l.stroke() == replay(self.spec_points()),
            l.transform() == self.spec_transform(),
    {
        let mut to_return = Line::new(self.transform);
        let mut i: usize = 0;
        while i < self.points.len()
            invariant
                i <= self.points.len(),
                self.points.len() <= MAX_SEGMENTS,
                to_return.wf(),
                to_return.stroke() == replay(self.points@.take(i as int)),
                to_return.transform() == self.transform,
            decreases self.points.len() - i,
        {
            proof {
                lemma_replay_wf(self.points@.take(i as int));
                assert(self.points@.take(i + 1).drop_last() =~= self.points@.take(i as int));
            }
            to_return.push_point(self.points[i]);
            i += 1;
        }
        assert(self.points@.take(i as int) =~= self.points@);
        to_return
    }
}

} // verus!
