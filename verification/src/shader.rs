//! Shader programs, and how one is built.
//!
//! Compiling and linking happen in the driver. What is asked of it, in what
//! order, and what its answers mean, is decided here: a `ShaderBuilder` names
//! the next request, takes the driver's reply, and ends with a program or
//! with the driver's diagnostic.

use vstd::prelude::*;
use vstd::string::StringExecFns;

verus! {

/// What the driver reports for a compile or a link that went well.
pub const STATUS_OK: i32 = 1;

/// What the driver answers for a uniform that the program does not have.
pub const NO_LOCATION: i32 = -1;

/// A linked program on the GPU.
#[derive(Debug, Clone, Copy, PartialEq, Eq, Structural)]
pub struct Shader {
    pub id: u32,
}

/// Why no program could be made.
#[derive(Debug)]
pub struct CreateShaderError {
    pub message: String,
}

/// The stages of a program.
#[derive(Debug, Clone, Copy, PartialEq, Eq, Structural)]
pub enum ShaderStage {
    Vertex,
    Geometry,
    Fragment,
}

/// The source text of one stage.
#[derive(Debug)]
pub struct StageSource {
    pub stage: ShaderStage,
    pub source: String,
}

/// How far a build has come.
#[derive(Debug)]
pub enum Phase {
    /// Stages are being compiled; when all are, the program is linked.
    Building,
    /// The next stage did not compile; its log is awaited.
    CompileFailed { shader: u32 },
    /// The program did not link; its log is awaited.
    LinkFailed { program: u32 },
    /// The build is over.
    Done { outcome: Result<Shader, CreateShaderError> },
}

/// What the driver is asked to do.
#[derive(Debug)]
pub enum Request {
    /// Create a shader of the stage, give it the source, compile it, and
    /// reply `Compiled` with the shader and its compile status.
    Compile { stage: ShaderStage, source: String },
    /// Reply `Log` with the info log of the shader.
    ShaderLog { shader: u32 },
    /// Create a program, attach the shaders in this order, link it, and
    /// reply `Linked` with the program and its link status.
    Link { shaders: Vec<u32> },
    /// Reply `Log` with the info log of the program.
    ProgramLog { program: u32 },
    /// Delete the shaders in this order. The build is over.
    Finish { delete: Vec<u32> },
}

/// What the driver replies.
#[derive(Debug)]
pub enum Reply {
    Compiled { shader: u32, status: i32 },
    Linked { program: u32, status: i32 },
    /// An info log, as the driver wrote it into a buffer.
    Log { buffer: Vec<u8> },
}

/// The stages of a build and what has come of them so far.
#[derive(Debug)]
pub struct ShaderBuilder {
    pub stages: Vec<StageSource>,
    /// The shaders that were compiled, in the order of the stages.
    pub compiled: Vec<u32>,
    pub phase: Phase,
}

/// The result of looking a uniform up: where it is, and what to warn of.
#[derive(Debug)]
pub struct UniformLocation {
    pub location: i32,
    pub warning: Option<String>,
}

/// The text of `std::string::String::from_utf8_lossy` on `bytes`.
pub uninterp spec fn lossy_text(bytes: Seq<u8>) -> Seq<char>;

/// `std::string::String::from_utf8_lossy`, as an owned string.
///
/// The text depends on the bytes alone: it is the bytes read as UTF-8, with
/// the replacement character for what is not.
#[verifier::external_body]
fn from_utf8_lossy(bytes: &[u8]) -> (text: String)
    ensures
        text@ == lossy_text(bytes@),
{
    String::from_utf8_lossy(bytes).into_owned()
}

/// Number of bytes of a buffer before its first zero byte.
pub open spec fn text_len(buffer: Seq<u8>) -> int
    decreases buffer.len(),
{
    if buffer.len() == 0 || buffer[0] == 0 {
        0
    } else {
        1 + text_len(buffer.skip(1))
    }
}

/// The text in a buffer: what stands before the first zero byte, or all of
/// it where there is none.
pub open spec fn log_text(buffer: Seq<u8>) -> Seq<u8> {
    buffer.take(text_len(buffer))
}

/// `n` bytes that are not zero, and then a zero byte or the end, are a text
/// of `n` bytes.
proof fn text_len_is(buffer: Seq<u8>, n: int)
    requires
        0 <= n <= buffer.len(),
        forall|k: int| 0 <= k < n ==> buffer[k] != 0,
        n == buffer.len() || buffer[n] == 0,
    ensures
        text_len(buffer) == n,
    decreases n,
{
    if n > 0 {
        let rest = buffer.skip(1);
        assert forall|k: int| 0 <= k < n - 1 implies rest[k] != 0 by {
            assert(rest[k] == buffer[k + 1]);
        }
        text_len_is(rest, n - 1);
    }
}

/// Takes the text out of an info-log buffer.
pub fn info_log_text(buffer: &[u8]) -> (text: Vec<u8>)
    ensures
        text@ == log_text(buffer@),
{
    let mut text: Vec<u8> = Vec::new();
    let mut i: usize = 0;
    while i < buffer.len() && buffer[i] != 0
        invariant
            i <= buffer.len(),
            forall|k: int| 0 <= k < i ==> buffer[k] != 0,
            text@ == buffer@.take(i as int),
        decreases buffer.len() - i,
    {
        text.push(buffer[i]);
        assert(buffer@.take(i + 1) =~= buffer@.take(i as int).push(buffer[i as int]));
        i += 1;
    }
    proof {
        text_len_is(buffer@, i as int);
    }
    text
}

impl ShaderStage {
    /// The name of the stage in messages.
    pub open spec fn spec_name(self) -> Seq<char> {
        match self {
            ShaderStage::Vertex => "vertex"@,
            ShaderStage::Geometry => "geometry"@,
            ShaderStage::Fragment => "fragment"@,
        }
    }

    /// The name of the stage in messages.
    pub fn name(self) -> (name: &'static str)
        ensures
            name@ == self.spec_name(),
    {
        match self {
            ShaderStage::Vertex => "vertex",
            ShaderStage::Geometry => "geometry",
            ShaderStage::Fragment => "fragment",
        }
    }
}

/// What is reported of a stage that did not compile.
pub open spec fn compile_message(stage: ShaderStage, buffer: Seq<u8>) -> Seq<char> {
    "failed to compile "@ + stage.spec_name() + " shader: "@ + lossy_text(log_text(buffer))
}

/// What is reported of a program that did not link.
pub open spec fn link_message(buffer: Seq<u8>) -> Seq<char> {
    "failed to link program: "@ + lossy_text(log_text(buffer))
}

/// The error for a stage that did not compile, from its info log.
pub fn compile_failure(stage: ShaderStage, buffer: &[u8]) -> (error: CreateShaderError)
    ensures
        error.message@ == compile_message(stage, buffer@),
{
    let text = info_log_text(buffer);
    let mut message = String::from_str("failed to compile ");
    message.append(stage.name());
    message.append(" shader: ");
    message.append(from_utf8_lossy(text.as_slice()).as_str());
    CreateShaderError { message }
}

/// The error for a program that did not link, from its info log.
pub fn link_failure(buffer: &[u8]) -> (error: CreateShaderError)
    ensures
        error.message@ == link_message(buffer@),
{
    let text = info_log_text(buffer);
    let mut message = String::from_str("failed to link program: ");
    message.append(from_utf8_lossy(text.as_slice()).as_str());
    CreateShaderError { message }
}

impl CreateShaderError {
    /// The error as a line of text.
    pub fn to_string(&self) -> (text: String)
        ensures
            text@ == "failed to create a shader: "@ + self.message@,
    {
        let mut text = String::from_str("failed to create a shader: ");
        text.append(self.message.as_str());
        text
    }
}

impl ShaderBuilder {
    /// What holds of a builder at every step: no more shaders are compiled
    /// than there are stages, a log is awaited only for what failed, and a
    /// program exists only when every stage was compiled.
    pub open spec fn wf(&self) -> bool {
        &&& self.compiled.len() <= self.stages.len()
        &&& self.phase is CompileFailed ==> self.compiled.len() < self.stages.len()
        &&& self.phase is LinkFailed ==> self.compiled.len() == self.stages.len()
        &&& (self.phase matches Phase::Done { outcome } && outcome is Ok) ==> self.compiled.len()
            == self.stages.len()
    }

    /// Whether the next stage is still to be compiled.
    pub open spec fn compiling(&self) -> bool {
        self.phase is Building && self.compiled.len() < self.stages.len()
    }

    /// Whether the program is to be linked.
    pub open spec fn linking(&self) -> bool {
        self.phase is Building && self.compiled.len() >= self.stages.len()
    }

    /// Whether `request` is what the builder asks of the driver.
    pub open spec fn asks(&self, request: Request) -> bool {
        match self.phase {
            Phase::Building => if self.compiled.len() < self.stages.len() {
                &&& request matches Request::Compile { stage, source }
                &&& stage == self.stages[self.compiled.len() as int].stage
                &&& source@ == self.stages[self.compiled.len() as int].source@
            } else {
                request matches Request::Link { shaders } && shaders@ == self.compiled@
            },
            Phase::CompileFailed { shader } => request matches Request::ShaderLog { shader: asked }
                && asked == shader,
            Phase::LinkFailed { program } => request matches Request::ProgramLog { program: asked }
                && asked == program,
            Phase::Done { .. } => request matches Request::Finish { delete } && delete@
                == self.compiled@.reverse(),
        }
    }

    /// Whether `next` has the shaders and the phase of this builder.
    pub open spec fn stays(&self, next: ShaderBuilder) -> bool {
        next.compiled == self.compiled && next.phase == self.phase
    }

    /// Whether `next` is the builder after the driver replied `reply`. A
    /// reply that does not answer what was asked changes nothing.
    pub open spec fn steps_to(&self, reply: Reply, next: ShaderBuilder) -> bool {
        &&& next.stages == self.stages
        &&& match reply {
            Reply::Compiled { shader, status } => if !self.compiling() {
                self.stays(next)
            } else if status == STATUS_OK {
                next.compiled@ == self.compiled@.push(shader) && next.phase is Building
            } else {
                next.compiled == self.compiled && next.phase == (Phase::CompileFailed { shader })
            },
            Reply::Linked { program, status } => if !self.linking() {
                self.stays(next)
            } else if status == STATUS_OK {
                &&& next.compiled == self.compiled
                &&& next.phase matches Phase::Done { outcome }
                &&& outcome == Ok::<Shader, CreateShaderError>(Shader { id: program })
            } else {
                next.compiled == self.compiled && next.phase == (Phase::LinkFailed { program })
            },
            Reply::Log { buffer } => if self.phase is CompileFailed && self.compiled.len()
                < self.stages.len() {
                &&& next.compiled == self.compiled
                &&& next.phase matches Phase::Done { outcome: Err(error) }
                &&& error.message@ == compile_message(
                    self.stages[self.compiled.len() as int].stage,
                    buffer@,
                )
            } else if self.phase is LinkFailed {
                &&& next.compiled == self.compiled
                &&& next.phase matches Phase::Done { outcome: Err(error) }
                &&& error.message@ == link_message(buffer@)
            } else {
                self.stays(next)
            },
        }
    }

    /// What the driver is to do next.
    pub fn request(&self) -> (request: Request)
        ensures
            self.asks(request),
    {
        match &self.phase {
            Phase::Building => {
                let n = self.compiled.len();
                if n < self.stages.len() {
                    Request::Compile {
                        stage: self.stages[n].stage,
                        source: self.stages[n].source.clone(),
                    }
                } else {
                    Request::Link { shaders: self.compiled.clone() }
                }
            },
            Phase::CompileFailed { shader } => Request::ShaderLog { shader: *shader },
            Phase::LinkFailed { program } => Request::ProgramLog { program: *program },
            Phase::Done { .. } => {
                let mut delete: Vec<u32> = Vec::new();
                let mut i: usize = self.compiled.len();
                while i > 0
                    invariant
                        i <= self.compiled.len(),
                        delete.len() == self.compiled.len() - i,
                        forall|k: int|
                            0 <= k < delete.len() ==> delete[k] == self.compiled[
                                self.compiled.len() - 1 - k],
                    decreases i,
                {
                    i -= 1;
                    delete.push(self.compiled[i]);
                }
                assert(delete@ =~= self.compiled@.reverse());
                Request::Finish { delete }
            },
        }
    }

    /// Takes the driver's reply to the last request.
    pub fn advance(&mut self, reply: Reply)
        ensures
            old(self).steps_to(reply, *final(self)),
            old(self).wf() ==> final(self).wf(),
    {
        let n = self.compiled.len();
        let building = match &self.phase {
            Phase::Building => true,
            _ => false,
        };
        let compile_failed = match &self.phase {
            Phase::CompileFailed { .. } => true,
            _ => false,
        };
        let link_failed = match &self.phase {
            Phase::LinkFailed { .. } => true,
            _ => false,
        };
        match reply {
            Reply::Compiled { shader, status } => {
                if building && n < self.stages.len() {
                    if status == STATUS_OK {
                        self.compiled.push(shader);
                    } else {
                        self.phase = Phase::CompileFailed { shader };
                    }
                }
            },
            Reply::Linked { program, status } => {
                if building && n >= self.stages.len() {
                    if status == STATUS_OK {
                        self.phase = Phase::Done { outcome: Ok(Shader { id: program }) };
                    } else {
                        self.phase = Phase::LinkFailed { program };
                    }
                }
            },
            Reply::Log { buffer } => {
                if compile_failed && n < self.stages.len() {
                    let error = compile_failure(self.stages[n].stage, buffer.as_slice());
                    self.phase = Phase::Done { outcome: Err(error) };
                } else if link_failed {
                    let error = link_failure(buffer.as_slice());
                    self.phase = Phase::Done { outcome: Err(error) };
                }
            },
        }
    }

    /// The program or the error that the build ended with, once it is over.
    pub fn into_outcome(self) -> (outcome: Option<Result<Shader, CreateShaderError>>)
        ensures
            match self.phase {
                Phase::Done { outcome: ended } => outcome == Some(ended),
                _ => outcome is None,
            },
    {
        match self.phase {
            Phase::Done { outcome } => Some(outcome),
            _ => None,
        }
    }
}

impl ShaderBuilder {
    /// Whether `reply` answers what the builder asks.
    pub open spec fn answers(&self, reply: Reply) -> bool {
        match self.phase {
            Phase::Building => if self.compiled.len() < self.stages.len() {
                reply is Compiled
            } else {
                reply is Linked
            },
            Phase::CompileFailed { .. } => reply is Log,
            Phase::LinkFailed { .. } => reply is Log,
            Phase::Done { .. } => false,
        }
    }

    /// An upper bound on the replies that the build still takes.
    pub open spec fn replies_left(&self) -> nat {
        match self.phase {
            Phase::Building => (self.stages.len() - self.compiled.len() + 2) as nat,
            Phase::CompileFailed { .. } => 1,
            Phase::LinkFailed { .. } => 1,
            Phase::Done { .. } => 0,
        }
    }
}

/// Every build ends: each reply that answers what was asked brings the end
/// nearer, and a build that takes no further reply is over. A build of `n`
/// stages so takes `n + 2` replies at most.
pub proof fn every_answer_brings_the_end_nearer(
    before: ShaderBuilder,
    reply: Reply,
    after: ShaderBuilder,
)
    requires
        before.wf(),
        before.steps_to(reply, after),
    ensures
        before.answers(reply) ==> after.replies_left() < before.replies_left(),
        before.replies_left() == 0 <==> before.phase is Done,
        before.phase is Building && before.compiled.len() == 0 ==> before.replies_left()
            == before.stages.len() + 2,
{
}

/// Whether `builder` is a build of `stages` that has not begun.
pub open spec fn begins(builder: ShaderBuilder, stages: Seq<(ShaderStage, Seq<char>)>) -> bool {
    &&& builder.stages.len() == stages.len()
    &&& forall|k: int|
        0 <= k < stages.len() ==> (#[trigger] builder.stages[k]).stage == stages[k].0
            && builder.stages[k].source@ == stages[k].1
    &&& builder.compiled.len() == 0
    &&& builder.phase is Building
}

impl Shader {
    /// Begins the build of a program with a vertex and a fragment stage.
    pub fn from_str(vertex: &str, fragment: &str) -> (builder: ShaderBuilder)
        ensures
            begins(
                builder,
                seq![(ShaderStage::Vertex, vertex@), (ShaderStage::Fragment, fragment@)],
            ),
            builder.wf(),
    {
        let mut stages: Vec<StageSource> = Vec::new();
        stages.push(StageSource { stage: ShaderStage::Vertex, source: String::from_str(vertex) });
        stages.push(
            StageSource { stage: ShaderStage::Fragment, source: String::from_str(fragment) },
        );
        ShaderBuilder { stages, compiled: Vec::new(), phase: Phase::Building }
    }

    /// Begins the build of a program with a vertex, a geometry and a fragment
    /// stage.
    pub fn with_geometry_shader(vertex: &str, geometry: &str, fragment: &str) -> (builder:
        ShaderBuilder)
        ensures
            begins(
                builder,
                seq![
                    (ShaderStage::Vertex, vertex@),
                    (ShaderStage::Geometry, geometry@),
                    (ShaderStage::Fragment, fragment@),
                ],
            ),
            builder.wf(),
    {
        let mut stages: Vec<StageSource> = Vec::new();
        stages.push(StageSource { stage: ShaderStage::Vertex, source: String::from_str(vertex) });
        stages.push(
            StageSource { stage: ShaderStage::Geometry, source: String::from_str(geometry) },
        );
        stages.push(
            StageSource { stage: ShaderStage::Fragment, source: String::from_str(fragment) },
        );
        ShaderBuilder { stages, compiled: Vec::new(), phase: Phase::Building }
    }

    /// Judges what the driver reported as the location of the uniform `name`.
    ///
    /// A uniform that the program does not have is no error: the location
    /// is handed on as it is, for the driver to ignore what is set there,
    /// with a warning for the log.
    pub fn get_uniform_location(&self, name: &str, reported: i32) -> (found: UniformLocation)
        ensures
            found.location == reported,
            reported != NO_LOCATION ==> found.warning is None,
            reported == NO_LOCATION ==> found.warning is Some && found.warning->0@
                == "failed to retrieve uniform location: "@ + name@,
    {
        if reported == NO_LOCATION {
            let mut warning = String::from_str("failed to retrieve uniform location: ");
            warning.append(name);
            UniformLocation { location: reported, warning: Some(warning) }
        } else {
            UniformLocation { location: reported, warning: None }
        }
    }
}

} // verus!
