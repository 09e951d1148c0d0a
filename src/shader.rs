//! A shader program built stage by stage: compile a vertex and a fragment
//! stage, attach them, link, then look up uniforms.
//!
//! The caller performs each GL call and hands the driver's answers in; this
//! module decides what they mean for the program.

use crate::info_log::{has_nul, log_message, log_text, lossy_text, nul_terminated, BuildStatus};
use vstd::string::StringSliceAdditionalSpecFns;
use vstd::prelude::*;

verus! {

/// `std::io::Error` is carried, unread, inside the errors of this crate.
#[verifier::external_type_specification]
#[verifier::external_body]
pub struct ExIoError(std::io::Error);

/// Why a program could not be built or a uniform could not be set.
#[derive(Debug)]
pub enum ShaderError {
    /// The source file `name` could not be read.
    IoError { name: String, inner: std::io::Error },
    /// The stage read from `name` did not compile; `message` is the driver's log.
    CompileError { name: String, message: String },
    /// The program did not link; the field is the driver's log.
    LinkError(String),
    /// The program has no active uniform called `name`.
    UniformLocationNotFound { name: String },
}

/// A compiled shader stage.
pub struct Shader {
    id: u32,
}

impl View for Shader {
    type V = u32;

    /// The stage's GL name.
    closed spec fn view(&self) -> u32 {
        self.id
    }
}

impl Shader {
    /// The stage that the driver compiled, as GL object `id`, from the source
    /// read from `path`. A failed compile is a `CompileError` naming `path`
    /// and carrying the log's text.
    pub fn new(path: &str, id: u32, compiled: &BuildStatus) -> (r: Result<Shader, ShaderError>)
        ensures
            compiled.succeeded() ==> (r matches Ok(s) && s@ == id),
            !compiled.succeeded() ==> (r matches Err(ShaderError::CompileError { name, message })
                && name@ == path@ && message@ == lossy_text(log_text(compiled.log@))
                && (message@.len() == 0 <==> log_text(compiled.log@).len() == 0)),
    {
        if compiled.status == 0 {
            return Err(
                ShaderError::CompileError {
                    name: path.to_owned(),
                    message: log_message(compiled.log.as_slice()),
                },
            );
        }
        Ok(Shader { id })
    }

    pub fn id(&self) -> (r: u32)
        ensures
            r == self@,
    {
        self.id
    }

    /// The source read from `path`, as the NUL-terminated bytes that the
    /// driver compiles. A source holding a NUL byte cannot be handed over
    /// whole: it is a `CompileError` naming `path`.
    pub fn c_source(path: &str, source: &str) -> (r: Result<Vec<u8>, ShaderError>)
        ensures
            !has_nul(source.spec_bytes()) ==> (r matches Ok(v) && v@ == source.spec_bytes().push(0u8)),
            has_nul(source.spec_bytes()) ==> (r matches Err(ShaderError::CompileError { name, message })
                && name@ == path@ && message@ == "shader source holds a NUL byte"@),
    {
        match nul_terminated(source) {
            Some(bytes) => Ok(bytes),
            None => Err(
                ShaderError::CompileError {
                    name: path.to_owned(),
                    message: "shader source holds a NUL byte".to_owned(),
                },
            ),
        }
    }
}

/// What a program is: its GL name, the GL names of the stages attached to it,
/// and whether it has linked.
pub struct ProgramView {
    pub id: u32,
    pub vert: Option<u32>,
    pub frag: Option<u32>,
    pub linked: bool,
}

/// A shader program under construction, or linked and ready for use.
pub struct Program {
    id: u32,
    vert: Option<Shader>,
    frag: Option<Shader>,
    linked: bool,
}

pub open spec fn stage_view(s: Option<Shader>) -> Option<u32> {
    match s {
        Some(shader) => Some(shader@),
        None => None,
    }
}

impl View for Program {
    type V = ProgramView;

    closed spec fn view(&self) -> ProgramView {
        ProgramView {
            id: self.id,
            vert: stage_view(self.vert),
            frag: stage_view(self.frag),
            linked: self.linked,
        }
    }
}

impl Program {
    /// An empty, unlinked program that the driver created as GL object `id`.
    pub fn new(id: u32) -> (r: Program)
        ensures
            r@ == (ProgramView { id, vert: None, frag: None, linked: false }),
    {
        Program { id, vert: None, frag: None, linked: false }
    }

    pub fn id(&self) -> (r: u32)
        ensures
            r == self@.id,
    {
        self.id
    }

    pub fn is_linked(&self) -> (r: bool)
        ensures
            r == self@.linked,
    {
        self.linked
    }

    /// The GL name of the vertex stage, once one is attached.
    pub fn vertex(&self) -> (r: Option<u32>)
        ensures
            r == self@.vert,
    {
        match &self.vert {
            Some(shader) => Some(shader.id()),
            None => None,
        }
    }

    /// The GL name of the fragment stage, once one is attached.
    pub fn fragment(&self) -> (r: Option<u32>)
        ensures
            r == self@.frag,
    {
        match &self.frag {
            Some(shader) => Some(shader.id()),
            None => None,
        }
    }

    /// Attaches the vertex stage, or passes on the error that compiling it gave.
    pub fn vertex_shader(self, compiled: Result<Shader, ShaderError>) -> (r: Result<Self, ShaderError>)
        ensures
            compiled matches Ok(s) ==> (r matches Ok(p) && p@ == (ProgramView { vert: Some(s@), ..self@ })),
            compiled matches Err(e) ==> r == Err::<Program, ShaderError>(e),
    {
        let mut program = self;
        match compiled {
            Ok(shader) => {
                program.vert = Some(shader);
                Ok(program)
            },
            Err(e) => Err(e),
        }
    }

    /// Attaches the fragment stage, or passes on the error that compiling it gave.
    pub fn fragment_shader(self, compiled: Result<Shader, ShaderError>) -> (r: Result<Self, ShaderError>)
        ensures
            compiled matches Ok(s) ==> (r matches Ok(p) && p@ == (ProgramView { frag: Some(s@), ..self@ })),
            compiled matches Err(e) ==> r == Err::<Program, ShaderError>(e),
    {
        let mut program = self;
        match compiled {
            Ok(shader) => {
                program.frag = Some(shader);
                Ok(program)
            },
            Err(e) => Err(e),
        }
    }

    /// The program once the driver has linked it: linked on success, else a
    /// `LinkError` carrying the log's text.
    pub fn link(self, linked: &BuildStatus) -> (r: Result<Self, ShaderError>)
        ensures
            linked.succeeded() ==> (r matches Ok(p) && p@ == (ProgramView { linked: true, ..self@ })),
            !linked.succeeded() ==> (r matches Err(ShaderError::LinkError(message))
                && message@ == lossy_text(log_text(linked.log@))
                && (message@.len() == 0 <==> log_text(linked.log@).len() == 0)),
    {
        if linked.status == 0 {
            return Err(ShaderError::LinkError(log_message(linked.log.as_slice())));
        }
        let mut program = self;
        program.linked = true;
        Ok(program)
    }

    /// Uniform `name` as the NUL-terminated bytes that the driver looks up. A
    /// name holding a NUL byte names no uniform: `UniformLocationNotFound`.
    pub fn uniform_c_name(&self, name: &str) -> (r: Result<Vec<u8>, ShaderError>)
        ensures
            !has_nul(name.spec_bytes()) ==> (r matches Ok(v) && v@ == name.spec_bytes().push(0u8)),
            has_nul(name.spec_bytes()) ==> (r matches Err(ShaderError::UniformLocationNotFound { name: n })
                && n@ == name@),
    {
        match nul_terminated(name) {
            Some(bytes) => Ok(bytes),
            None => Err(ShaderError::UniformLocationNotFound { name: name.to_owned() }),
        }
    }

    /// The binding slot of uniform `name`, given the location that the driver
    /// returned for it: a negative location means that the program has no such
    /// active uniform.
    pub fn get_uniform_location(&self, name: &str, location: i32) -> (r: Result<i32, ShaderError>)
        ensures
            location >= 0 ==> r == Ok::<i32, ShaderError>(location),
            location < 0 ==> (r matches Err(ShaderError::UniformLocationNotFound { name: n })
                && n@ == name@),
    {
        if location < 0 {
            return Err(ShaderError::UniformLocationNotFound { name: name.to_owned() });
        }
        Ok(location)
    }
}

} // verus!
