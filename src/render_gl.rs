//! Shader programs loaded as named resources: `<name>.vert` and `<name>.frag`
//! are compiled and linked into the program `<name>`.
//!
//! The caller loads the resources and performs the GL calls; this module
//! names the resources, tells the stage of a resource by its extension, and
//! turns what the driver reported into results and errors.

use crate::info_log::{log_message, log_text, lossy_text, BuildStatus};
use vstd::prelude::*;
use vstd::string::{StringExecFns, StringSliceAdditionalSpecFns};

verus! {

/// Why a program could not be built from resources.
#[derive(Debug)]
pub enum Error {
    /// The resource `name` could not be loaded.
    ResourceLoad { name: String, inner: std::io::Error },
    /// The name of the resource ends in neither `.vert` nor `.frag`.
    CannotDetermineShaderTypeForResource { name: String },
    /// The stage in resource `name` did not compile.
    CompileError { name: String, message: String },
    /// The program `name` did not link.
    LinkError { name: String, message: String },
}

/// The pipeline stage that a shader source is for.
#[derive(Clone, Copy, Debug, PartialEq, Eq, Structural)]
pub enum ShaderKind {
    Vertex,
    Fragment,
}

/// The extension of vertex stage resources: the ASCII bytes of `.vert`.
pub open spec fn vertex_extension() -> Seq<u8> {
    seq![46u8, 118u8, 101u8, 114u8, 116u8]
}

/// The extension of fragment stage resources: the ASCII bytes of `.frag`.
pub open spec fn fragment_extension() -> Seq<u8> {
    seq![46u8, 102u8, 114u8, 97u8, 103u8]
}

pub open spec fn has_suffix(s: Seq<u8>, suffix: Seq<u8>) -> bool {
    s.len() >= suffix.len() && s.subrange(s.len() - suffix.len(), s.len() as int) == suffix
}

fn ends_with(s: &[u8], suffix: &[u8]) -> (r: bool)
    ensures
        r == has_suffix(s@, suffix@),
{
    if s.len() < suffix.len() {
        return false;
    }
    let start = s.len() - suffix.len();
    let mut i: usize = 0;
    while i < suffix.len()
        invariant
            start + suffix@.len() == s@.len(),
            s@.len() <= usize::MAX,
            i <= suffix@.len(),
            forall|j: int| 0 <= j < i ==> s@[start + j] == suffix@[j],
        decreases suffix@.len() - i,
    {
        if s[start + i] != suffix[i] {
            assert(s@.subrange(start as int, s@.len() as int)[i as int] != suffix@[i as int]);
            return false;
        }
        i = i + 1;
    }
    assert(s@.subrange(start as int, s@.len() as int) =~= suffix@);
    true
}

/// A compiled shader stage.
pub struct Shader {
    id: u32,
}

impl View for Shader {
    type V = u32;

    /// The stage's GL name.
    closed spec fn view(&self) -> u32 {
        self.id
    }
}

impl Shader {
    pub fn id(&self) -> (r: u32)
        ensures
            r == self@,
    {
        self.id
    }

    /// The stage that a resource holds, told by the extension of its name.
    pub fn kind_for_resource(name: &str) -> (r: Result<ShaderKind, Error>)
        ensures
            has_suffix(name.spec_bytes(), vertex_extension()) ==> r == Ok::<ShaderKind, Error>(ShaderKind::Vertex),
            !has_suffix(name.spec_bytes(), vertex_extension()) && has_suffix(name.spec_bytes(), fragment_extension())
                ==> r == Ok::<ShaderKind, Error>(ShaderKind::Fragment),
            !has_suffix(name.spec_bytes(), vertex_extension()) && !has_suffix(name.spec_bytes(), fragment_extension())
                ==> (r matches Err(Error::CannotDetermineShaderTypeForResource { name: n }) && n@ == name@),
    {
        let bytes = name.as_bytes();
        let vert: Vec<u8> = vec![46u8, 118u8, 101u8, 114u8, 116u8];
        let frag: Vec<u8> = vec![46u8, 102u8, 114u8, 97u8, 103u8];
        assert(vert@ == vertex_extension());
        assert(frag@ == fragment_extension());
        if ends_with(bytes, vert.as_slice()) {
            Ok(ShaderKind::Vertex)
        } else if ends_with(bytes, frag.as_slice()) {
            Ok(ShaderKind::Fragment)
        } else {
            Err(Error::CannotDetermineShaderTypeForResource { name: name.to_owned() })
        }
    }

    /// The stage that the driver compiled as GL object `id`; on failure, the
    /// log's text.
    pub fn from_source(id: u32, compiled: &BuildStatus) -> (r: Result<Shader, String>)
        ensures
            compiled.succeeded() ==> (r matches Ok(s) && s@ == id),
            !compiled.succeeded() ==> (r matches Err(message)
                && message@ == lossy_text(log_text(compiled.log@))
                && (message@.len() == 0 <==> log_text(compiled.log@).len() == 0)),
    {
        if compiled.status == 0 {
            Err(log_message(compiled.log.as_slice()))
        } else {
            Ok(Shader { id })
        }
    }

    /// The stage compiled from resource `name`: a name of neither stage's
    /// extension is refused first; then a compile failure is named after the
    /// resource.
    pub fn from_res(name: &str, compiled: Result<Shader, String>) -> (r: Result<Shader, Error>)
        ensures
            !has_suffix(name.spec_bytes(), vertex_extension()) && !has_suffix(name.spec_bytes(), fragment_extension())
                ==> (r matches Err(Error::CannotDetermineShaderTypeForResource { name: n }) && n@ == name@),
            has_suffix(name.spec_bytes(), vertex_extension()) || has_suffix(name.spec_bytes(), fragment_extension())
                ==> (compiled matches Ok(s) ==> r == Ok::<Shader, Error>(s)),
            has_suffix(name.spec_bytes(), vertex_extension()) || has_suffix(name.spec_bytes(), fragment_extension())
                ==> (compiled matches Err(m) ==> (r matches Err(Error::CompileError { name: n, message })
                && n@ == name@ && message == m)),
    {
        match Shader::kind_for_resource(name) {
            Err(e) => Err(e),
            Ok(_) => match compiled {
                Ok(shader) => Ok(shader),
                Err(message) => Err(Error::CompileError { name: name.to_owned(), message }),
            },
        }
    }
}

/// A linked shader program.
pub struct Program {
    id: u32,
}

impl View for Program {
    type V = u32;

    /// The program's GL name.
    closed spec fn view(&self) -> u32 {
        self.id
    }
}

impl Program {
    pub fn id(&self) -> (r: u32)
        ensures
            r == self@,
    {
        self.id
    }

    /// The resources that program `name` is built from: its vertex stage,
    /// then its fragment stage.
    pub fn resource_names(name: &str) -> (r: Vec<String>)
        ensures
            r@.len() == 2,
            r@[0]@ == name@ + ".vert"@,
            r@[1]@ == name@ + ".frag"@,
    {
        let mut vert = name.to_owned();
        vert.append(".vert");
        let mut frag = name.to_owned();
        frag.append(".frag");
        vec![vert, frag]
    }

    /// The program that the driver linked as GL object `id`; on failure, the
    /// log's text.
    pub fn from_shaders(id: u32, linked: &BuildStatus) -> (r: Result<Program, String>)
        ensures
            linked.succeeded() ==> (r matches Ok(p) && p@ == id),
            !linked.succeeded() ==> (r matches Err(message)
                && message@ == lossy_text(log_text(linked.log@))
                && (message@.len() == 0 <==> log_text(linked.log@).len() == 0)),
    {
        if linked.status == 0 {
            Err(log_message(linked.log.as_slice()))
        } else {
            Ok(Program { id })
        }
    }

    /// The program built from resource set `name`, its stages compiled: a
    /// link failure is named after the program.
    pub fn from_res(name: &str, linked: Result<Program, String>) -> (r: Result<Program, Error>)
        ensures
            linked matches Ok(p) ==> r == Ok::<Program, Error>(p),
            linked matches Err(m) ==> (r matches Err(Error::LinkError { name: n, message })
                && n@ == name@ && message == m),
    {
        match linked {
            Ok(program) => Ok(program),
            Err(message) => Err(Error::LinkError { name: name.to_owned(), message }),
        }
    }
}

} // verus!
