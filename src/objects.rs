//! Wrappers that each own one GL object name.
//!
//! A wrapper is made only from a nonzero name, and its type invariant keeps
//! it so. Binding is context state, not ownership: it is never recorded here.
use vstd::prelude::*;
use crate::gl::{self, GlLoaded};

verus! {

/// A vertex array object, recording attribute layout and the element buffer.
pub struct VertexArray {
    name: u32,
}

impl VertexArray {
    #[verifier::type_invariant]
    spec fn nonzero(&self) -> bool {
        self.name != 0
    }

    /// The GL name of this vertex array.
    pub closed spec fn id(&self) -> u32 {
        self.name
    }

    /// Takes ownership of a vertex array name that GL generated; `None` when it is 0.
    pub fn from_name(name: u32) -> (r: Option<VertexArray>)
        ensures
            r is Some <==> name != 0,
            r matches Some(v) ==> v.id() == name,
    {
        if name != 0 {
            Some(VertexArray { name })
        } else {
            None
        }
    }

    /// The GL name of this vertex array.
    pub fn name(&self) -> (r: u32)
        ensures
            r == self.id(),
            r != 0,
    {
        proof {
            use_type_invariant(self);
        }
        self.name
    }

    /// Makes this the current vertex array of the context.
    pub fn bind(&self, gl: &GlLoaded) {
        gl::bind_vertex_array(gl, self.name);
    }

    /// Binds no vertex array.
    pub fn clear_binding(gl: &GlLoaded) {
        gl::bind_vertex_array(gl, 0);
    }
}

/// The binding targets of a buffer object.
#[derive(Clone, Copy, Debug, PartialEq, Eq, Structural)]
pub enum BufferType {
    /// Arrays of vertex data for drawing.
    Array,
    /// Indices of the vertices to draw.
    ElementArray,
}

/// The GL value of `GL_ARRAY_BUFFER`.
pub const GL_ARRAY_BUFFER: u32 = 0x8892;

/// The GL value of `GL_ELEMENT_ARRAY_BUFFER`.
pub const GL_ELEMENT_ARRAY_BUFFER: u32 = 0x8893;

impl BufferType {
    /// The GL binding target of this buffer type.
    pub fn target(self) -> (r: u32)
        ensures
            r == (if self == BufferType::Array {
                GL_ARRAY_BUFFER
            } else {
                GL_ELEMENT_ARRAY_BUFFER
            }),
    {
        match self {
            BufferType::Array => GL_ARRAY_BUFFER,
            BufferType::ElementArray => GL_ELEMENT_ARRAY_BUFFER,
        }
    }
}

/// A buffer object: an opaque blob of bytes on the GPU.
pub struct Buffer {
    name: u32,
}

impl Buffer {
    #[verifier::type_invariant]
    spec fn nonzero(&self) -> bool {
        self.name != 0
    }

    /// The GL name of this buffer.
    pub closed spec fn id(&self) -> u32 {
        self.name
    }

    /// Takes ownership of a buffer name that GL generated; `None` when it is 0.
    pub fn from_name(name: u32) -> (r: Option<Buffer>)
        ensures
            r is Some <==> name != 0,
            r matches Some(b) ==> b.id() == name,
    {
        if name != 0 {
            Some(Buffer { name })
        } else {
            None
        }
    }

    /// The GL name of this buffer.
    pub fn name(&self) -> (r: u32)
        ensures
            r == self.id(),
            r != 0,
    {
        proof {
            use_type_invariant(self);
        }
        self.name
    }
}

/// A two-dimensional texture object.
pub struct Texture2D {
    name: u32,
}

impl Texture2D {
    #[verifier::type_invariant]
    spec fn nonzero(&self) -> bool {
        self.name != 0
    }

    /// The GL name of this texture.
    pub closed spec fn id(&self) -> u32 {
        self.name
    }

    /// Takes ownership of a texture name that GL generated; `None` when it is 0.
    pub fn from_name(name: u32) -> (r: Option<Texture2D>)
        ensures
            r is Some <==> name != 0,
            r matches Some(t) ==> t.id() == name,
    {
        if name != 0 {
            Some(Texture2D { name })
        } else {
            None
        }
    }

    /// The GL name of this texture.
    pub fn name(&self) -> (r: u32)
        ensures
            r == self.id(),
            r != 0,
    {
        proof {
            use_type_invariant(self);
        }
        self.name
    }
}

/// The stage of a shader object.
#[derive(Clone, Copy, Debug, PartialEq, Eq, Structural)]
pub enum ShaderType {
    /// Positions geometry on the screen.
    Vertex,
    /// Colors the covered fragments.
    Fragment,
}

/// The GL value of `GL_VERTEX_SHADER`.
pub const GL_VERTEX_SHADER: u32 = 0x8B31;

/// The GL value of `GL_FRAGMENT_SHADER`.
pub const GL_FRAGMENT_SHADER: u32 = 0x8B30;

/// The GL shader kind of a stage.
pub fn shader_kind(t: ShaderType) -> (r: u32)
    ensures
        r == (if t == ShaderType::Vertex {
            GL_VERTEX_SHADER
        } else {
            GL_FRAGMENT_SHADER
        }),
{
    match t {
        ShaderType::Vertex => GL_VERTEX_SHADER,
        ShaderType::Fragment => GL_FRAGMENT_SHADER,
    }
}

/// A shader object of one stage.
pub struct Shader {
    name: u32,
    stage: ShaderType,
}

impl Shader {
    #[verifier::type_invariant]
    spec fn nonzero(&self) -> bool {
        self.name != 0
    }

    /// The GL name of this shader.
    pub closed spec fn id(&self) -> u32 {
        self.name
    }

    /// The stage this shader was made for.
    pub closed spec fn stage(&self) -> ShaderType {
        self.stage
    }

    /// Takes ownership of a shader name of the given stage that GL created;
    /// `None` when it is 0.
    pub fn from_name(name: u32, shader_type: ShaderType) -> (r: Option<Shader>)
        ensures
            r is Some <==> name != 0,
            r matches Some(s) ==> s.id() == name && s.stage() == shader_type,
    {
        if name != 0 {
            Some(Shader { name, stage: shader_type })
        } else {
            None
        }
    }

    /// Allocates a shader object of the given stage; `None` when GL returns 0.
    pub fn new(gl: &GlLoaded, shader_type: ShaderType) -> (r: Option<Shader>)
        ensures
            r matches Some(s) ==> s.id() != 0 && s.stage() == shader_type,
    {
        Shader::from_name(gl::create_shader(gl, shader_kind(shader_type)), shader_type)
    }

    /// The stage this shader was made for.
    pub fn shader_type(&self) -> (r: ShaderType)
        ensures
            r == self.stage(),
    {
        self.stage
    }

    /// The GL name of this shader.
    pub fn name(&self) -> (r: u32)
        ensures
            r == self.id(),
            r != 0,
    {
        proof {
            use_type_invariant(self);
        }
        self.name
    }

    /// Compiles the source currently held by the shader.
    pub fn compile(&self, gl: &GlLoaded) {
        gl::compile_shader(gl, self.name);
    }

    /// Marks the shader for deletion; GL frees it once no program holds it.
    pub fn delete(self, gl: &GlLoaded) {
        gl::delete_shader(gl, self.name);
    }
}

/// A program object linking a vertex and a fragment shader.
pub struct ShaderProgram {
    name: u32,
}

impl ShaderProgram {
    #[verifier::type_invariant]
    spec fn nonzero(&self) -> bool {
        self.name != 0
    }

    /// The GL name of this program.
    pub closed spec fn id(&self) -> u32 {
        self.name
    }

    /// Takes ownership of a program name that GL created; `None` when it is 0.
    pub fn from_name(name: u32) -> (r: Option<ShaderProgram>)
        ensures
            r is Some <==> name != 0,
            r matches Some(p) ==> p.id() == name,
    {
        if name != 0 {
            Some(ShaderProgram { name })
        } else {
            None
        }
    }

    /// Allocates a program object; `None` when GL returns 0.
    pub fn new(gl: &GlLoaded) -> (r: Option<ShaderProgram>)
        ensures
            r matches Some(p) ==> p.id() != 0,
    {
        ShaderProgram::from_name(gl::create_program(gl))
    }

    /// The GL name of this program.
    pub fn name(&self) -> (r: u32)
        ensures
            r == self.id(),
            r != 0,
    {
        proof {
            use_type_invariant(self);
        }
        self.name
    }

    /// Attaches a compiled shader to this program.
    pub fn attach_shader(&self, gl: &GlLoaded, shader: &Shader) {
        gl::attach_shader(gl, self.name, shader.name);
    }

    /// Links the attached shaders into a usable program.
    pub fn link_program(&self, gl: &GlLoaded) {
        gl::link_program(gl, self.name);
    }

    /// Makes this the program used by the next draws.
    pub fn use_program(&self, gl: &GlLoaded) {
        gl::use_program(gl, self.name);
    }

    /// Marks the program for deletion; its shaders are detached when it goes.
    pub fn delete(self, gl: &GlLoaded) {
        gl::delete_program(gl, self.name);
    }
}

} // verus!
