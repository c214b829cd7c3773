//! The vertex attributes that the objects of the canvas are made of.

use vstd::prelude::*;
use crate::gl_vertices::{float_type, VertexAttrib, FLOAT};

verus! {

/// Bytes of one single-precision component.
pub const COMPONENT_BYTES: i32 = 4;

/// A point of three single-precision components.
pub fn point3() -> (a: VertexAttrib)
    ensures
        a.spec_gl_type() == FLOAT,
        a.spec_size() == 12,
        a.spec_components() == 3,
        a.valid(),
{
    VertexAttrib::new(float_type(), 3 * COMPONENT_BYTES, 3)
}

/// A point of two single-precision components.
pub fn point2() -> (a: VertexAttrib)
    ensures
        a.spec_gl_type() == FLOAT,
        a.spec_size() == 8,
        a.spec_components() == 2,
        a.valid(),
{
    VertexAttrib::new(float_type(), 2 * COMPONENT_BYTES, 2)
}

/// A vector of two single-precision components.
pub fn vector2() -> (a: VertexAttrib)
    ensures
        a.spec_gl_type() == FLOAT,
        a.spec_size() == 8,
        a.spec_components() == 2,
        a.valid(),
{
    VertexAttrib::new(float_type(), 2 * COMPONENT_BYTES, 2)
}

} // verus!
