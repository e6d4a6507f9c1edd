//! The GL entry points of `gl33` that take no pointers.
//!
//! A gl33 entry point panics when its function pointer was never loaded. Each
//! wrapper here therefore takes a [`GlLoaded`], which only [`GlLoaded::check`]
//! makes, after gl33 reports every one of these entry points loaded. gl33
//! sets its pointers only through its `unsafe` loader functions, which the
//! host calls once, before the check.
use vstd::prelude::*;

verus! {

/// Witness that every entry point wrapped here has a function pointer.
pub struct GlLoaded {
    loaded: (),
}

impl GlLoaded {
    /// A witness, when gl33 reports each wrapped entry point loaded.
    pub fn check() -> (r: Option<GlLoaded>) {
        let flags: Vec<bool> = vec![
            attach_shader_is_loaded(),
            bind_vertex_array_is_loaded(),
            compile_shader_is_loaded(),
            create_program_is_loaded(),
            create_shader_is_loaded(),
            delete_program_is_loaded(),
            delete_shader_is_loaded(),
            link_program_is_loaded(),
            use_program_is_loaded(),
        ];
        GlLoaded::from_flags(&flags)
    }

    /// A witness exactly when every flag is set.
    fn from_flags(flags: &Vec<bool>) -> (r: Option<GlLoaded>)
        ensures
            r is Some <==> forall|i: int| 0 <= i < flags@.len() ==> #[trigger] flags@[i],
    {
        let mut i: usize = 0;
        while i < flags.len()
            invariant
                i <= flags@.len(),
                forall|k: int| 0 <= k < i ==> #[trigger] flags@[k],
            decreases flags@.len() - i,
        {
            if !flags[i] {
                return None;
            }
            i = i + 1;
        }
        Some(GlLoaded { loaded: () })
    }
}

/// Relies on gl33's `glAttachShader_is_loaded`: whether `glAttachShader` has a function pointer.
#[verifier::external_body]
fn attach_shader_is_loaded() -> (r: bool) {
    gl33::global_loader::glAttachShader_is_loaded()
}

/// Relies on gl33's `glBindVertexArray_is_loaded`: whether `glBindVertexArray` has a function pointer.
#[verifier::external_body]
fn bind_vertex_array_is_loaded() -> (r: bool) {
    gl33::global_loader::glBindVertexArray_is_loaded()
}

/// Relies on gl33's `glCompileShader_is_loaded`: whether `glCompileShader` has a function pointer.
#[verifier::external_body]
fn compile_shader_is_loaded() -> (r: bool) {
    gl33::global_loader::glCompileShader_is_loaded()
}

/// Relies on gl33's `glCreateProgram_is_loaded`: whether `glCreateProgram` has a function pointer.
#[verifier::external_body]
fn create_program_is_loaded() -> (r: bool) {
    gl33::global_loader::glCreateProgram_is_loaded()
}

/// Relies on gl33's `glCreateShader_is_loaded`: whether `glCreateShader` has a function pointer.
#[verifier::external_body]
fn create_shader_is_loaded() -> (r: bool) {
    gl33::global_loader::glCreateShader_is_loaded()
}

/// Relies on gl33's `glDeleteProgram_is_loaded`: whether `glDeleteProgram` has a function pointer.
#[verifier::external_body]
fn delete_program_is_loaded() -> (r: bool) {
    gl33::global_loader::glDeleteProgram_is_loaded()
}

/// Relies on gl33's `glDeleteShader_is_loaded`: whether `glDeleteShader` has a function pointer.
#[verifier::external_body]
fn delete_shader_is_loaded() -> (r: bool) {
    gl33::global_loader::glDeleteShader_is_loaded()
}

/// Relies on gl33's `glLinkProgram_is_loaded`: whether `glLinkProgram` has a function pointer.
#[verifier::external_body]
fn link_program_is_loaded() -> (r: bool) {
    gl33::global_loader::glLinkProgram_is_loaded()
}

/// Relies on gl33's `glUseProgram_is_loaded`: whether `glUseProgram` has a function pointer.
#[verifier::external_body]
fn use_program_is_loaded() -> (r: bool) {
    gl33::global_loader::glUseProgram_is_loaded()
}

/// Relies on gl33's `glCreateShader`: returns a new shader name of the GL
/// shader kind `kind`, or 0 on failure.
#[verifier::external_body]
pub(crate) fn create_shader(_gl: &GlLoaded, kind: u32) -> (r: u32) {
    gl33::global_loader::glCreateShader(gl33::GLenum(kind))
}

/// Relies on gl33's `glCompileShader`: compiles the source held by `shader`.
#[verifier::external_body]
pub(crate) fn compile_shader(_gl: &GlLoaded, shader: u32) {
    gl33::global_loader::glCompileShader(shader)
}

/// Relies on gl33's `glDeleteShader`: marks `shader` for deletion.
#[verifier::external_body]
pub(crate) fn delete_shader(_gl: &GlLoaded, shader: u32) {
    gl33::global_loader::glDeleteShader(shader)
}

/// Relies on gl33's `glCreateProgram`: returns a new program name, or 0 on failure.
#[verifier::external_body]
pub(crate) fn create_program(_gl: &GlLoaded) -> (r: u32) {
    gl33::global_loader::glCreateProgram()
}

/// Relies on gl33's `glAttachShader`: attaches `shader` to `program`.
#[verifier::external_body]
pub(crate) fn attach_shader(_gl: &GlLoaded, program: u32, shader: u32) {
    gl33::global_loader::glAttachShader(program, shader)
}

/// Relies on gl33's `glLinkProgram`: links the shaders attached to `program`.
#[verifier::external_body]
pub(crate) fn link_program(_gl: &GlLoaded, program: u32) {
    gl33::global_loader::glLinkProgram(program)
}

/// Relies on gl33's `glUseProgram`: makes `program` the current program.
#[verifier::external_body]
pub(crate) fn use_program(_gl: &GlLoaded, program: u32) {
    gl33::global_loader::glUseProgram(program)
}

/// Relies on gl33's `glDeleteProgram`: marks `program` for deletion.
#[verifier::external_body]
pub(crate) fn delete_program(_gl: &GlLoaded, program: u32) {
    gl33::global_loader::glDeleteProgram(program)
}

/// Relies on gl33's `glBindVertexArray`: makes `array` the current vertex array (0 unbinds).
#[verifier::external_body]
pub(crate) fn bind_vertex_array(_gl: &GlLoaded, array: u32) {
    gl33::global_loader::glBindVertexArray(array)
}

} // verus!
