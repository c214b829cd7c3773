//! The kinds of shader that the canvas is drawn with.

use vstd::prelude::*;

verus! {

/// The kind "vertex shader" as the GPU names it.
pub const VERTEX_SHADER: u32 = 0x8B31;

/// The kind "fragment shader" as the GPU names it.
pub const FRAGMENT_SHADER: u32 = 0x8B30;

/// `gl::VERTEX_SHADER`, the constant that the OpenGL bindings give for the
/// kind of a vertex shader. The registry they are generated from lists it
/// as `0x8B31`.
#[verifier::external_body]
fn vertex_shader() -> (t: u32)
    ensures
        t == VERTEX_SHADER,
{
    gl::VERTEX_SHADER
}

/// `gl::FRAGMENT_SHADER`, listed by the registry as `0x8B30`.
#[verifier::external_body]
fn fragment_shader() -> (t: u32)
    ensures
        t == FRAGMENT_SHADER,
{
    gl::FRAGMENT_SHADER
}

/// The stage of the pipeline that a shader is written for.
#[derive(Clone, Copy, Debug, PartialEq, Eq, Structural)]
pub enum ShaderType {
    Vertex,
    Fragment,
}

impl ShaderType {
    /// The name of the kind, as the GPU wants it.
    pub open spec fn spec_gl_type(self) -> u32 {
        match self {
            ShaderType::Vertex => VERTEX_SHADER,
            ShaderType::Fragment => FRAGMENT_SHADER,
        }
    }

    /// The name of the kind, as the GPU wants it.
    pub fn to_gl_type(self) -> (t: u32)
        ensures
            t == self.spec_gl_type(),
    {
        match self {
            ShaderType::Vertex => vertex_shader(),
            ShaderType::Fragment => fragment_shader(),
        }
    }
}

} // verus!
