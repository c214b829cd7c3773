//! The objects of the canvas, as one type.

use vstd::prelude::*;
use crate::events::{Event, Handled};
use crate::gl_vertices::DrawCall;
use crate::line::{Line, MAX_SEGMENTS};
use crate::text::{Text, MAX_GLYPHS};

verus! {

/// An object of the canvas: a freehand stroke or a text label.
pub enum TypedExplainObject<X> {
    Line(Line<X>),
    Text(Text<X>),
}

impl<X: Copy> TypedExplainObject<X> {
    pub open spec fn wf(&self) -> bool {
        match *self {
            TypedExplainObject::Line(l) => l.wf(),
            TypedExplainObject::Text(t) => t.wf(),
        }
    }

    /// The transform that places the object on the canvas.
    pub open spec fn transform(&self) -> X {
        match *self {
            TypedExplainObject::Line(l) => l.transform(),
            TypedExplainObject::Text(t) => t.transform(),
        }
    }

    /// The object's mesh can take the quad that the event may add: a stroke
    /// that is fed a pointer motion has room for a segment, a label that is
    /// fed typed text has room for a glyph.
    pub open spec fn has_room_for(&self, e: Event) -> bool {
        match *self {
            TypedExplainObject::Line(l) => e.motion() is Some ==> l.spec_segments()
                < MAX_SEGMENTS,
            TypedExplainObject::Text(t) => e is TextInput ==> t.spec_glyphs() < MAX_GLYPHS,
        }
    }

    /// The number of vertices of the object's mesh.
    pub open spec fn vertex_count(&self) -> nat {
        match *self {
            TypedExplainObject::Line(l) => l.stroke().vertices.len(),
            TypedExplainObject::Text(t) => t.label().vertices.len(),
        }
    }

    /// The number of indices of the object's mesh.
    pub open spec fn index_count(&self) -> nat {
        match *self {
            TypedExplainObject::Line(l) => l.stroke().indices.len(),
            TypedExplainObject::Text(t) => t.label().indices.len(),
        }
    }

    /// Places the object on the canvas by `z`. Nothing else of it changes.
    pub fn set_transform(&mut self, z: X)
        ensures
            final(self).transform() == z,
            match (*old(self), *final(self)) {
                (TypedExplainObject::Line(before), TypedExplainObject::Line(after)) => {
                    &&& after.buffer() == before.buffer()
                    &&& after.spec_last_point() == before.spec_last_point()
                },
                (TypedExplainObject::Text(before), TypedExplainObject::Text(after)) => {
                    &&& after.buffer() == before.buffer()
                    &&& after.table() == before.table()
                    &&& after.label() == before.label()
                    &&& after.spec_origin() == before.spec_origin()
                    &&& after.atlas_size() == before.atlas_size()
                },
                _ => false,
            },
    {
        match self {
            TypedExplainObject::Line(l) => l.set_transform(z),
            TypedExplainObject::Text(t) => t.set_transform(z),
        }
    }

    /// The draw of the object under `camera`, or nothing for an object with
    /// an empty mesh.
    pub fn draw(&self, camera: X) -> (call: Option<DrawCall<X>>)
        requires
            self.wf(),
        ensures
            self.vertex_count() == 0 ==> call is None,
            self.vertex_count() > 0 ==> call == Some(
                DrawCall { object: self.transform(), camera, count: self.index_count() as i32 },
            ),
    {
        match self {
            TypedExplainObject::Line(l) => l.draw(camera),
            TypedExplainObject::Text(t) => t.draw(camera),
        }
    }

    /// Feeds the object an event, as the stroke or the label that it is.
    pub fn process_event(&mut self, e: &Event) -> (h: Handled)
        requires
            old(self).wf(),
            old(self).has_room_for(*e),
        ensures
            final(self).wf(),
            final(self).transform() == old(self).transform(),
            match (*old(self), *final(self)) {
                (TypedExplainObject::Line(before), TypedExplainObject::Line(after)) => {
                    Line::handles(before, *e, after, h)
                },
                (TypedExplainObject::Text(before), TypedExplainObject::Text(after)) => {
                    Text::handles(before, *e, after, h)
                },
                _ => false,
            },
    {
        match self {
            TypedExplainObject::Line(l) => l.process_event(e),
            TypedExplainObject::Text(t) => t.process_event(e),
        }
    }
}

} // verus!
