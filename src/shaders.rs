//! Building shaders and programs as state machines.
//!
//! Loading a source string into a shader and reading back a status or a log
//! take pointers, so the host does that work: each state that is not `Done`
//! names the request that the host carries out next, and the host reports
//! what it got with [`Report`]. The pointer-free steps (create, compile,
//! attach, link, delete) are made here while stepping.
use vstd::prelude::*;
use vstd::string::*;
use crate::gl::GlLoaded;
use crate::objects::{Shader, ShaderProgram, ShaderType};

verus! {

/// What the host reports after carrying out a request.
pub enum Report {
    /// The requested source is loaded into the shader.
    SourceLoaded,
    /// The requested compile or link status.
    Status(bool),
    /// The requested info log, as text.
    Log(String),
}

/// A shader being built from source.
pub enum Compile {
    /// Load `source` into `shader`, then report `SourceLoaded`.
    LoadSource { shader: Shader, source: String },
    /// Report the compile status of `shader`.
    QueryStatus { shader: Shader },
    /// Report the info log of `shader`, whose compile failed.
    QueryLog { shader: Shader },
    /// The compiled shader, or why there is none.
    Done(Result<Shader, String>),
}

/// A program being built from a vertex and a fragment source.
pub enum Link {
    /// The vertex stage is compiling; the fragment source waits its turn.
    Vertex { program: ShaderProgram, compile: Compile, fragment_source: String },
    /// The fragment stage is compiling; the vertex stage is done.
    Fragment { program: ShaderProgram, vertex: Shader, compile: Compile },
    /// Report the link status of `program`.
    QueryStatus { program: ShaderProgram },
    /// Report the info log of `program`, whose link failed.
    QueryLog { program: ShaderProgram },
    /// The linked program, or why there is none.
    Done(Result<ShaderProgram, String>),
}

/// The state after a shader build receives `report`; a report that does not
/// answer the pending request leaves the state as it is.
pub open spec fn compile_next(c: Compile, report: Report) -> Compile {
    match (c, report) {
        (Compile::LoadSource { shader, source: _ }, Report::SourceLoaded) => Compile::QueryStatus {
            shader,
        },
        (Compile::QueryStatus { shader }, Report::Status(ok)) => if ok {
            Compile::Done(Ok(shader))
        } else {
            Compile::QueryLog { shader }
        },
        (Compile::QueryLog { shader: _ }, Report::Log(text)) => Compile::Done(Err(text)),
        _ => c,
    }
}

/// `e` is `prefix` followed by `text`.
pub open spec fn is_message(e: String, prefix: Seq<char>, text: Seq<char>) -> bool {
    e@ == prefix + text
}

/// `c` is a fresh build of `source` for `stage`: waiting for the source to be
/// loaded into a shader of that stage, or failed because no shader object
/// could be allocated.
pub open spec fn compile_started(c: Compile, stage: ShaderType, source: Seq<char>) -> bool {
    match c {
        Compile::LoadSource { shader, source: s } => s@ == source && shader.stage() == stage,
        Compile::Done(Err(e)) => e@ == "Could not allocate new shader"@,
        _ => false,
    }
}

/// `r` follows from a vertex stage that reached `c`.
pub open spec fn vertex_outcome(
    program: ShaderProgram,
    c: Compile,
    fragment_source: String,
    r: Link,
) -> bool {
    match c {
        Compile::Done(Ok(v)) => match r {
            Link::Fragment { program: p, vertex, compile } => p == program && vertex == v
                && compile is LoadSource && compile_started(
                compile,
                ShaderType::Fragment,
                fragment_source@,
            ),
            Link::Done(Err(e)) => is_message(
                e,
                "Fragment Compile Error: "@,
                "Could not allocate new shader"@,
            ),
            _ => false,
        },
        Compile::Done(Err(log)) => r matches Link::Done(Err(e)) && is_message(
            e,
            "Vertex Compile Error: "@,
            log@,
        ),
        _ => r == Link::Vertex { program, compile: c, fragment_source },
    }
}

/// `r` follows from a fragment stage that reached `c`.
pub open spec fn fragment_outcome(program: ShaderProgram, vertex: Shader, c: Compile, r: Link) -> bool {
    match c {
        Compile::Done(Ok(_)) => r == Link::QueryStatus { program },
        Compile::Done(Err(log)) => r matches Link::Done(Err(e)) && is_message(
            e,
            "Fragment Compile Error: "@,
            log@,
        ),
        _ => r == Link::Fragment { program, vertex, compile: c },
    }
}

/// `r` is a state that a program build in state `l` may reach on `report`.
pub open spec fn link_next(l: Link, report: Report, r: Link) -> bool {
    match l {
        Link::Vertex { program, compile, fragment_source } => vertex_outcome(
            program,
            compile_next(compile, report),
            fragment_source,
            r,
        ),
        Link::Fragment { program, vertex, compile } => fragment_outcome(
            program,
            vertex,
            compile_next(compile, report),
            r,
        ),
        Link::QueryStatus { program } => match report {
            Report::Status(true) => r == Link::Done(Ok(program)),
            Report::Status(false) => r == Link::QueryLog { program },
            _ => r == l,
        },
        Link::QueryLog { program: _ } => match report {
            Report::Log(text) => r matches Link::Done(Err(e)) && is_message(
                e,
                "Program Link Error: "@,
                text@,
            ),
            _ => r == l,
        },
        Link::Done(_) => r == l,
    }
}

/// `prefix` followed by `text`.
fn message(prefix: &str, text: &str) -> (r: String)
    ensures
        r@ == prefix@ + text@,
{
    let mut r = String::from_str(prefix);
    r.append(text);
    r
}

impl Shader {
    /// Starts building a shader of the given stage from `source`.
    ///
    /// The result asks the host to load the source, or is an error when no
    /// shader object could be allocated.
    pub fn from_source(gl: &GlLoaded, shader_type: ShaderType, source: &str) -> (r: Compile)
        ensures
            compile_started(r, shader_type, source@),
    {
        match Shader::new(gl, shader_type) {
            Some(shader) => Compile::LoadSource { shader, source: String::from_str(source) },
            None => Compile::Done(Err(String::from_str("Could not allocate new shader"))),
        }
    }
}

impl Compile {
    /// Moves the build on by what the host reported.
    ///
    /// Once the source is loaded the shader is compiled here; a shader whose
    /// compile failed is deleted once its log is read.
    pub fn step(self, gl: &GlLoaded, report: Report) -> (r: Compile)
        ensures
            r == compile_next(self, report),
    {
        match (self, report) {
            (Compile::LoadSource { shader, source: _ }, Report::SourceLoaded) => {
                shader.compile(gl);
                Compile::QueryStatus { shader }
            },
            (Compile::QueryStatus { shader }, Report::Status(ok)) => {
                if ok {
                    Compile::Done(Ok(shader))
                } else {
                    Compile::QueryLog { shader }
                }
            },
            (Compile::QueryLog { shader }, Report::Log(text)) => {
                shader.delete(gl);
                Compile::Done(Err(text))
            },
            (c, _) => c,
        }
    }
}

/// Carries a program build on from a vertex stage that reached `vertex`.
fn after_vertex(
    gl: &GlLoaded,
    program: ShaderProgram,
    vertex: Compile,
    fragment_source: String,
) -> (r: Link)
    ensures
        vertex_outcome(program, vertex, fragment_source, r),
{
    match vertex {
        Compile::Done(Ok(v)) => {
            let fragment = Shader::from_source(
                gl,
                ShaderType::Fragment,
                fragment_source.as_str(),
            );
            match fragment {
                Compile::Done(Err(e)) => {
                    v.delete(gl);
                    program.delete(gl);
                    Link::Done(Err(message("Fragment Compile Error: ", e.as_str())))
                },
                compile => Link::Fragment { program, vertex: v, compile },
            }
        },
        Compile::Done(Err(log)) => {
            program.delete(gl);
            Link::Done(Err(message("Vertex Compile Error: ", log.as_str())))
        },
        compile => Link::Vertex { program, compile, fragment_source },
    }
}

/// Carries a program build on from a fragment stage that reached `fragment`:
/// once both stages compiled, they are attached, the program is linked and
/// the shader objects are released to it.
fn after_fragment(
    gl: &GlLoaded,
    program: ShaderProgram,
    vertex: Shader,
    fragment: Compile,
) -> (r: Link)
    ensures
        fragment_outcome(program, vertex, fragment, r),
{
    match fragment {
        Compile::Done(Ok(f)) => {
            program.attach_shader(gl, &vertex);
            program.attach_shader(gl, &f);
            program.link_program(gl);
            vertex.delete(gl);
            f.delete(gl);
            Link::QueryStatus { program }
        },
        Compile::Done(Err(log)) => {
            vertex.delete(gl);
            program.delete(gl);
            Link::Done(Err(message("Fragment Compile Error: ", log.as_str())))
        },
        compile => Link::Fragment { program, vertex, compile },
    }
}

impl ShaderProgram {
    /// Starts building a program from a vertex and a fragment source.
    ///
    /// The result asks the host to load the vertex source, or is an error
    /// when no program or no vertex shader object could be allocated.
    pub fn from_vert_frag(gl: &GlLoaded, vert: &str, frag: &str) -> (r: Link)
        ensures
            match r {
                Link::Vertex { program: _, compile, fragment_source } => compile is LoadSource
                    && compile_started(compile, ShaderType::Vertex, vert@) && fragment_source@
                    == frag@,
                Link::Done(Err(e)) => e@ == "Couldn't allocate a program"@ || is_message(
                    e,
                    "Vertex Compile Error: "@,
                    "Could not allocate new shader"@,
                ),
                _ => false,
            },
    {
        ShaderProgram::start_build(gl, ShaderProgram::new(gl), vert, frag)
    }

    /// Starts a program build on the outcome of allocating the program: with
    /// no program the build fails at once; with one, its vertex stage starts.
    pub fn start_build(gl: &GlLoaded, program: Option<ShaderProgram>, vert: &str, frag: &str) -> (r:
        Link)
        ensures
            program is None ==> (r matches Link::Done(Err(e)) && e@
                == "Couldn't allocate a program"@),
            program matches Some(p) ==> match r {
                Link::Vertex { program: q, compile, fragment_source } => q == p && compile is LoadSource
                    && compile_started(compile, ShaderType::Vertex, vert@) && fragment_source@
                    == frag@,
                Link::Done(Err(e)) => is_message(
                    e,
                    "Vertex Compile Error: "@,
                    "Could not allocate new shader"@,
                ),
                _ => false,
            },
    {
        match program {
            Some(program) => {
                let vertex = Shader::from_source(gl, ShaderType::Vertex, vert);
                after_vertex(gl, program, vertex, String::from_str(frag))
            },
            None => Link::Done(Err(String::from_str("Couldn't allocate a program"))),
        }
    }
}

impl Link {
    /// Moves the build on by what the host reported.
    pub fn step(self, gl: &GlLoaded, report: Report) -> (r: Link)
        ensures
            link_next(self, report, r),
    {
        match self {
            Link::Vertex { program, compile, fragment_source } => {
                after_vertex(gl, program, compile.step(gl, report), fragment_source)
            },
            Link::Fragment { program, vertex, compile } => {
                after_fragment(gl, program, vertex, compile.step(gl, report))
            },
            Link::QueryStatus { program } => match report {
                Report::Status(true) => Link::Done(Ok(program)),
                Report::Status(false) => Link::QueryLog { program },
                _ => Link::QueryStatus { program },
            },
            Link::QueryLog { program } => match report {
                Report::Log(text) => {
                    program.delete(gl);
                    Link::Done(Err(message("Program Link Error: ", text.as_str())))
                },
                _ => Link::QueryLog { program },
            },
            Link::Done(result) => Link::Done(result),
        }
    }
}

/// A shader whose source the driver accepts comes out of its build: once the
/// source is loaded and the compile status reads true, the build is done with
/// that same shader. A source it rejects ends in an error that is exactly the
/// driver's log.
pub proof fn lemma_compile_outcomes(shader: Shader, source: String, log: String)
    ensures
        compile_next(
            compile_next(Compile::LoadSource { shader, source }, Report::SourceLoaded),
            Report::Status(true),
        ) == Compile::Done(Ok(shader)),
        compile_next(
            compile_next(
                compile_next(Compile::LoadSource { shader, source }, Report::SourceLoaded),
                Report::Status(false),
            ),
            Report::Log(log),
        ) == Compile::Done(Err(log)),
{
}

/// A program build hands out a program only when the link status of that
/// same program reads true.
pub proof fn lemma_program_only_after_link(l: Link, report: Report, r: Link)
    requires
        link_next(l, report, r),
        !(l is Done),
        r is Done,
        r->Done_0 is Ok,
    ensures
        l matches Link::QueryStatus { program } && r == Link::Done(Ok(program)),
        report == Report::Status(true),
{
}

} // verus!
