//! Shader programs, the list by which a program finds its shaders again, and
//! the pipeline that links a program from a vertex and a fragment source.

use crate::device::{capacity_for_log, decode_log, filled, issue, log_capacity};
use crate::device::{log_length, log_text};
use crate::device::{Call, DeviceCall, DeviceReply, Reply};
use crate::gl::{gl_info_log_length, gl_link_status, gl_true, ShaderType};
use crate::gl::{COMPILE_STATUS, FRAGMENT_SHADER, INFO_LOG_LENGTH, LINK_STATUS, TRUE};
use crate::gl::VERTEX_SHADER;
use crate::hash::{fingerprint, Hashable};
use crate::shader::{shader_start, shader_step, source_fits, source_length, succeeded};
use crate::shader::{Shader, ShaderBuild, ShaderBuildModel, ShaderModel, ShaderPhase};
use vstd::prelude::*;
use vstd::string::StringExecFns;

verus! {

/// What a program is, as a mathematical value.
pub struct ProgramModel {
    /// The device's name of the program object.
    pub handle: u32,
    /// For each shader that was attached, in the order of attaching, the
    /// fingerprint of its source and its name.
    pub shaders: Seq<(u32, u32)>,
}

/// A program on the device, with the list of the shaders that were attached
/// to it. The list only grows: an entry stays when its shader is deleted.
#[derive(Debug, Clone, PartialEq, Eq)]
pub struct ShaderProgram(pub u32, Vec<(u32, u32)>);

impl View for ShaderProgram {
    type V = ProgramModel;

    closed spec fn view(&self) -> ProgramModel {
        ProgramModel { handle: self.0, shaders: self.1@ }
    }
}

/// The name paired with the first entry of `shaders` whose fingerprint is
/// `key`.
pub open spec fn lookup(shaders: Seq<(u32, u32)>, key: u32) -> Option<u32>
    decreases shaders.len(),
{
    if shaders.len() == 0 {
        None
    } else if shaders[0].0 == key {
        Some(shaders[0].1)
    } else {
        lookup(shaders.drop_first(), key)
    }
}

/// The program after `shader` was attached to it.
pub open spec fn attached(program: ProgramModel, shader: ShaderModel) -> ProgramModel {
    ProgramModel {
        handle: program.handle,
        shaders: program.shaders.push((fingerprint(shader.source), shader.handle)),
    }
}

impl ShaderProgram {
    /// The program that the device named in answer to
    /// [`DeviceCall::CreateProgram`]; nothing is attached to it. The device
    /// reports failure by the name zero, for which there is no program.
    pub fn new(handle: u32) -> (made: Option<Self>)
        ensures
            handle == 0 ==> made is None,
            handle != 0 ==> made is Some && made->0@ == (ProgramModel {
                handle,
                shaders: Seq::empty(),
            }),
    {
        if handle != 0 {
            Some(ShaderProgram(handle, Vec::new()))
        } else {
            None
        }
    }

    /// The device's name of this program, which is also its first field.
    pub fn handle(&self) -> (handle: u32)
        ensures
            handle == self@.handle,
    {
        self.0
    }

    /// Attaches a shader, and enters it in the list under the fingerprint of
    /// its source.
    pub fn attach_shader(&mut self, shader: &Shader) -> (call: DeviceCall)
        ensures
            final(self)@ == attached(old(self)@, shader@),
            call@ == (Call::AttachShader {
                program: old(self)@.handle,
                shader: shader@.handle,
            }),
    {
        let key = shader.source().hash();
        self.1.push((key, shader.handle()));
        DeviceCall::AttachShader { program: self.0, shader: shader.handle() }
    }

    /// Links the attached shaders into a usable program. The call reports
    /// nothing: success is queried by [`ShaderProgram::status_query`].
    pub fn link_program(&self) -> (call: DeviceCall)
        ensures
            call@ == (Call::LinkProgram { program: self@.handle }),
    {
        DeviceCall::LinkProgram { program: self.0 }
    }

    /// The name of the attached shader that was made from the text `shader`:
    /// that of the first entry under the text's fingerprint, if there is one.
    pub fn get_shader(&self, shader: &str) -> (found: Option<u32>)
        ensures
            found == lookup(self@.shaders, fingerprint(shader@)),
    {
        let key = shader.hash();
        let mut i: usize = 0;
        assert(self.1@.skip(0) =~= self.1@);
        while i < self.1.len()
            invariant
                i <= self.1@.len(),
                key == fingerprint(shader@),
                lookup(self.1@, key) == lookup(self.1@.skip(i as int), key),
            decreases self.1@.len() - i,
        {
            if self.1[i].0 == key {
                return Some(self.1[i].1);
            }
            assert(self.1@.skip(i as int).drop_first() =~= self.1@.skip(i + 1));
            i += 1;
        }
        None
    }

    /// Asks whether the last linking succeeded.
    pub fn status_query(&self) -> (call: DeviceCall)
        ensures
            call@ == (Call::GetProgramiv { program: self@.handle, name: LINK_STATUS }),
    {
        DeviceCall::GetProgramiv { program: self.0, name: gl_link_status() }
    }

    /// Whether `status`, the answer to [`ShaderProgram::status_query`], says
    /// that the linking succeeded.
    pub fn link_success(status: i32) -> (ok: bool)
        ensures
            ok == succeeded(status),
    {
        status == gl_true() as i32
    }

    /// Asks how long the linker's log is.
    pub fn log_length_query(&self) -> (call: DeviceCall)
        ensures
            call@ == (Call::GetProgramiv { program: self@.handle, name: INFO_LOG_LENGTH }),
    {
        DeviceCall::GetProgramiv { program: self.0, name: gl_info_log_length() }
    }

    /// Asks for the linker's log, into a buffer sized by `needed`, the answer
    /// to [`ShaderProgram::log_length_query`].
    pub fn log_query(&self, needed: i32) -> (call: DeviceCall)
        ensures
            call@ == (Call::GetProgramInfoLog {
                program: self@.handle,
                capacity: log_capacity(needed),
            }),
    {
        DeviceCall::GetProgramInfoLog { program: self.0, capacity: capacity_for_log(needed) }
    }

    /// The linker's log as text, from the buffer that the device filled and
    /// the count that it reported to have written.
    pub fn info_log(written: i32, buffer: &[u8]) -> (text: String)
        ensures
            text@ == log_text(filled(written, buffer@)),
            log_length(written, buffer@.len()) == 0 ==> text@ == Seq::<char>::empty(),
    {
        decode_log(written, buffer)
    }

    /// Marks the program for deletion. The device reclaims it once it is no
    /// longer the active program, and detaches its shaders then.
    pub fn delete(self) -> (call: DeviceCall)
        ensures
            call@ == (Call::DeleteProgram { program: self@.handle }),
    {
        DeviceCall::DeleteProgram { program: self.0 }
    }

    /// Makes this the program that draws run.
    pub fn use_program(&self) -> (call: DeviceCall)
        ensures
            call@ == (Call::UseProgram { program: self@.handle }),
    {
        DeviceCall::UseProgram { program: self.0 }
    }

    /// Starts the making of a linked program from a vertex and a fragment
    /// source, and gives the first calls to issue.
    pub fn from_vert_frag(vert: &str, frag: &str) -> (started: (ProgramBuild, Vec<DeviceCall>))
        requires
            source_fits(vert@),
            source_fits(frag@),
        ensures
            started.0@ == program_start(vert@, frag@).0,
            started.1.deep_view() == program_start(vert@, frag@).1,
    {
        let (vertex, _) = Shader::from_source(ShaderType::Vertex, vert);
        let (fragment, _) = Shader::from_source(ShaderType::Fragment, frag);
        let build = ProgramBuild {
            phase: ProgramPhase::Allocating,
            program: ShaderProgram(0, Vec::new()),
            vertex,
            fragment,
            message: String::new(),
        };
        let calls = vec![DeviceCall::CreateProgram];
        (build, calls)
    }
}

/// How far the making of a program has come.
#[derive(Debug, Clone, Copy, PartialEq, Eq, Structural)]
pub enum ProgramPhase {
    /// The program object was asked for.
    Allocating,
    /// The vertex shader is being made.
    Vertex,
    /// The vertex shader is attached, and the fragment shader is being made.
    Fragment,
    /// Both shaders are attached and deleted, the program was linked, and the
    /// status was asked for.
    Linking,
    /// Linking failed, and the length of the log was asked for.
    Sizing,
    /// The log was asked for.
    Reading,
    /// The program is linked.
    Linked,
    /// The program could not be made; what had been made of it is deleted.
    Failed,
}

/// The making of a program, as a mathematical value.
pub struct ProgramBuildModel {
    pub phase: ProgramPhase,
    /// The program; its name is zero until the device has given one.
    pub program: ProgramModel,
    /// The making of the vertex shader.
    pub vertex: ShaderBuildModel,
    /// The making of the fragment shader.
    pub fragment: ShaderBuildModel,
    /// Why the making failed; empty until it has.
    pub message: Seq<char>,
}

/// The making of a linked program from two source texts, one answer of the
/// device at a time.
///
/// [`ShaderProgram::from_vert_frag`] starts it. The caller issues the calls
/// that it is given, in order, and hands what the device reported to the last
/// of them to [`ProgramBuild::step`], until [`ProgramBuild::finish`] has a
/// result.
#[derive(Debug, Clone, PartialEq, Eq)]
pub struct ProgramBuild {
    phase: ProgramPhase,
    program: ShaderProgram,
    vertex: ShaderBuild,
    fragment: ShaderBuild,
    message: String,
}

impl View for ProgramBuild {
    type V = ProgramBuildModel;

    closed spec fn view(&self) -> ProgramBuildModel {
        ProgramBuildModel {
            phase: self.phase,
            program: self.program@,
            vertex: self.vertex@,
            fragment: self.fragment@,
            message: self.message@,
        }
    }
}

/// The start of the making of a program: nothing is made yet, and the program
/// object is asked for.
pub open spec fn program_start(vert: Seq<char>, frag: Seq<char>) -> (ProgramBuildModel, Seq<Call>) {
    (
        ProgramBuildModel {
            phase: ProgramPhase::Allocating,
            program: ProgramModel { handle: 0, shaders: Seq::empty() },
            vertex: shader_start(ShaderType::Vertex, vert).0,
            fragment: shader_start(ShaderType::Fragment, frag).0,
            message: Seq::empty(),
        },
        seq![Call::CreateProgram],
    )
}

/// What the making of a program goes on to when the device has answered, and
/// the calls to issue next.
///
/// The stages run in a fixed order: the program object, the vertex shader,
/// the fragment shader, the link. Each shader is attached as soon as it is
/// compiled. After the link both shaders are deleted, which is safe as they
/// are attached. The first stage that fails ends the build: what was made
/// until then is deleted, no later stage is begun, and the message names the
/// stage. A finished build stays as it is.
pub open spec fn program_step(build: ProgramBuildModel, reply: Reply) -> (
    ProgramBuildModel,
    Seq<Call>,
) {
    let program = build.program.handle;
    match build.phase {
        ProgramPhase::Allocating => if reply.handle() == 0 {
            (
                ProgramBuildModel {
                    phase: ProgramPhase::Failed,
                    message: "Could not allocate a program"@,
                    ..build
                },
                Seq::empty(),
            )
        } else {
            (
                ProgramBuildModel {
                    phase: ProgramPhase::Vertex,
                    program: ProgramModel { handle: reply.handle(), shaders: Seq::empty() },
                    ..build
                },
                seq![Call::CreateShader { stage: VERTEX_SHADER }],
            )
        },
        ProgramPhase::Vertex => {
            let (vertex, calls) = shader_step(build.vertex, reply);
            match vertex.phase {
                ShaderPhase::Compiled => (
                    ProgramBuildModel {
                        phase: ProgramPhase::Fragment,
                        program: attached(build.program, vertex.shader),
                        vertex,
                        ..build
                    },
                    calls + seq![
                        Call::AttachShader { program, shader: vertex.shader.handle },
                        Call::CreateShader { stage: FRAGMENT_SHADER },
                    ],
                ),
                ShaderPhase::Failed => (
                    ProgramBuildModel {
                        phase: ProgramPhase::Failed,
                        vertex,
                        message: "Vertex Compile Error: "@ + vertex.message,
                        ..build
                    },
                    calls + seq![Call::DeleteProgram { program }],
                ),
                _ => (ProgramBuildModel { vertex, ..build }, calls),
            }
        },
        ProgramPhase::Fragment => {
            let (fragment, calls) = shader_step(build.fragment, reply);
            match fragment.phase {
                ShaderPhase::Compiled => (
                    ProgramBuildModel {
                        phase: ProgramPhase::Linking,
                        program: attached(build.program, fragment.shader),
                        fragment,
                        ..build
                    },
                    calls + seq![
                        Call::AttachShader { program, shader: fragment.shader.handle },
                        Call::LinkProgram { program },
                        Call::DeleteShader { shader: build.vertex.shader.handle },
                        Call::DeleteShader { shader: fragment.shader.handle },
                        Call::GetProgramiv { program, name: LINK_STATUS },
                    ],
                ),
                ShaderPhase::Failed => (
                    ProgramBuildModel {
                        phase: ProgramPhase::Failed,
                        fragment,
                        message: "Fragment Compile Error: "@ + fragment.message,
                        ..build
                    },
                    calls + seq![
                        Call::DeleteShader { shader: build.vertex.shader.handle },
                        Call::DeleteProgram { program },
                    ],
                ),
                _ => (ProgramBuildModel { fragment, ..build }, calls),
            }
        },
        ProgramPhase::Linking => if succeeded(reply.status()) {
            (ProgramBuildModel { phase: ProgramPhase::Linked, ..build }, Seq::empty())
        } else {
            (
                ProgramBuildModel { phase: ProgramPhase::Sizing, ..build },
                seq![Call::GetProgramiv { program, name: INFO_LOG_LENGTH }],
            )
        },
        ProgramPhase::Sizing => (
            ProgramBuildModel { phase: ProgramPhase::Reading, ..build },
            seq![Call::GetProgramInfoLog { program, capacity: log_capacity(reply.status()) }],
        ),
        ProgramPhase::Reading => (
            ProgramBuildModel {
                phase: ProgramPhase::Failed,
                message: "Program Link Error: "@ + reply.log(),
                ..build
            },
            seq![Call::DeleteProgram { program }],
        ),
        ProgramPhase::Linked | ProgramPhase::Failed => (build, Seq::empty()),
    }
}

impl ProgramBuild {
    /// How far the making has come.
    pub fn phase(&self) -> (phase: ProgramPhase)
        ensures
            phase == self@.phase,
    {
        self.phase
    }

    /// The program that is being made; its name is zero until the device has
    /// given one.
    pub fn program(&self) -> (program: &ShaderProgram)
        ensures
            program@ == self@.program,
    {
        &self.program
    }

    /// Why the making failed; empty until it has.
    pub fn message(&self) -> (message: &str)
        ensures
            message@ == self@.message,
    {
        self.message.as_str()
    }

    /// Takes what the device reported to the last call that was issued, and
    /// gives the calls to issue next.
    pub fn step(self, reply: &DeviceReply) -> (next: (ProgramBuild, Vec<DeviceCall>))
        ensures
            next.0@ == program_step(self@, reply@).0,
            next.1.deep_view() == program_step(self@, reply@).1,
    {
        let ProgramBuild { phase, mut program, vertex, fragment, message } = self;
        match phase {
            ProgramPhase::Allocating => {
                let handle = reply.handle();
                if handle == 0 {
                    let next = ProgramBuild {
                        phase: ProgramPhase::Failed,
                        program,
                        vertex,
                        fragment,
                        message: "Could not allocate a program".to_owned(),
                    };
                    let calls: Vec<DeviceCall> = Vec::new();
                    (next, calls)
                } else {
                    let next = ProgramBuild {
                        phase: ProgramPhase::Vertex,
                        program: ShaderProgram(handle, Vec::new()),
                        vertex,
                        fragment,
                        message,
                    };
                    let calls = vec![
                        DeviceCall::CreateShader { stage: ShaderType::Vertex.gl_enum() },
                    ];
                    (next, calls)
                }
            },
            ProgramPhase::Vertex => {
                let (vertex, mut calls) = vertex.step(reply);
                match vertex.phase() {
                    ShaderPhase::Compiled => {
                        let attach = program.attach_shader(vertex.shader());
                        issue(&mut calls, attach);
                        issue(
                            &mut calls,
                            DeviceCall::CreateShader { stage: ShaderType::Fragment.gl_enum() },
                        );
                        let next = ProgramBuild {
                            phase: ProgramPhase::Fragment,
                            program,
                            vertex,
                            fragment,
                            message,
                        };
                        (next, calls)
                    },
                    ShaderPhase::Failed => {
                        issue(&mut calls, DeviceCall::DeleteProgram { program: program.0 });
                        let message = "Vertex Compile Error: ".to_owned().concat(vertex.message());
                        let next = ProgramBuild {
                            phase: ProgramPhase::Failed,
                            program,
                            vertex,
                            fragment,
                            message,
                        };
                        (next, calls)
                    },
                    _ => {
                        let next = ProgramBuild { phase, program, vertex, fragment, message };
                        (next, calls)
                    },
                }
            },
            ProgramPhase::Fragment => {
                let (fragment, mut calls) = fragment.step(reply);
                match fragment.phase() {
                    ShaderPhase::Compiled => {
                        let attach = program.attach_shader(fragment.shader());
                        issue(&mut calls, attach);
                        issue(&mut calls, program.link_program());
                        issue(
                            &mut calls,
                            DeviceCall::DeleteShader { shader: vertex.shader().handle() },
                        );
                        issue(
                            &mut calls,
                            DeviceCall::DeleteShader { shader: fragment.shader().handle() },
                        );
                        issue(&mut calls, program.status_query());
                        let next = ProgramBuild {
                            phase: ProgramPhase::Linking,
                            program,
                            vertex,
                            fragment,
                            message,
                        };
                        (next, calls)
                    },
                    ShaderPhase::Failed => {
                        issue(
                            &mut calls,
                            DeviceCall::DeleteShader { shader: vertex.shader().handle() },
                        );
                        issue(&mut calls, DeviceCall::DeleteProgram { program: program.0 });
                        let message = "Fragment Compile Error: ".to_owned().concat(
                            fragment.message(),
                        );
                        let next = ProgramBuild {
                            phase: ProgramPhase::Failed,
                            program,
                            vertex,
                            fragment,
                            message,
                        };
                        (next, calls)
                    },
                    _ => {
                        let next = ProgramBuild { phase, program, vertex, fragment, message };
                        (next, calls)
                    },
                }
            },
            ProgramPhase::Linking => {
                if ShaderProgram::link_success(reply.status()) {
                    let next = ProgramBuild {
                        phase: ProgramPhase::Linked,
                        program,
                        vertex,
                        fragment,
                        message,
                    };
                    let calls: Vec<DeviceCall> = Vec::new();
                    (next, calls)
                } else {
                    let calls = vec![program.log_length_query()];
                    let next = ProgramBuild {
                        phase: ProgramPhase::Sizing,
                        program,
                        vertex,
                        fragment,
                        message,
                    };
                    (next, calls)
                }
            },
            ProgramPhase::Sizing => {
                let calls = vec![program.log_query(reply.status())];
                let next = ProgramBuild {
                    phase: ProgramPhase::Reading,
                    program,
                    vertex,
                    fragment,
                    message,
                };
                (next, calls)
            },
            ProgramPhase::Reading => {
                let calls = vec![DeviceCall::DeleteProgram { program: program.0 }];
                let log = reply.log();
                let message = "Program Link Error: ".to_owned().concat(log.as_str());
                let next = ProgramBuild {
                    phase: ProgramPhase::Failed,
                    program,
                    vertex,
                    fragment,
                    message,
                };
                (next, calls)
            },
            ProgramPhase::Linked | ProgramPhase::Failed => {
                let next = ProgramBuild { phase, program, vertex, fragment, message };
                let calls: Vec<DeviceCall> = Vec::new();
                (next, calls)
            },
        }
    }

    /// The outcome, once there is one: the linked program, or the message of
    /// the failure.
    pub fn finish(self) -> (outcome: Option<Result<ShaderProgram, String>>)
        ensures
            self@.phase == ProgramPhase::Linked ==> (outcome matches Some(Ok(program)) && program@
                == self@.program),
            self@.phase == ProgramPhase::Failed ==> (outcome matches Some(Err(message))
                && message@ == self@.message),
            self@.phase != ProgramPhase::Linked && self@.phase != ProgramPhase::Failed
                ==> outcome is None,
    {
        match self.phase {
            ProgramPhase::Linked => Some(Ok(self.program)),
            ProgramPhase::Failed => Some(Err(self.message)),
            _ => None,
        }
    }
}

/// A lookup finds the first entry under the key, and fails only where no
/// entry is under it.
pub proof fn lemma_lookup_first_match(shaders: Seq<(u32, u32)>, key: u32)
    ensures
        lookup(shaders, key) is None <==> forall|i: int|
            0 <= i < shaders.len() ==> (#[trigger] shaders[i]).0 != key,
        lookup(shaders, key) matches Some(handle) ==> exists|i: int|
            0 <= i < shaders.len() && #[trigger] shaders[i] == (key, handle) && forall|j: int|
                0 <= j < i ==> (#[trigger] shaders[j]).0 != key,
    decreases shaders.len(),
{
    if shaders.len() > 0 {
        let rest = shaders.drop_first();
        lemma_lookup_first_match(rest, key);
        if shaders[0].0 != key {
            if lookup(rest, key) is None {
                assert forall|i: int| 0 <= i < shaders.len() implies (#[trigger] shaders[i]).0
                    != key by {
                    if i > 0 {
                        assert(rest[i - 1] == shaders[i]);
                    }
                }
            } else {
                let handle = lookup(rest, key)->0;
                let at = choose|i: int|
                    0 <= i < rest.len() && #[trigger] rest[i] == (key, handle) && forall|j: int|
                        0 <= j < i ==> (#[trigger] rest[j]).0 != key;
                assert(shaders[at + 1] == (key, handle));
                assert forall|j: int| 0 <= j < at + 1 implies (#[trigger] shaders[j]).0 != key by {
                    if j > 0 {
                        assert(rest[j - 1] == shaders[j]);
                    }
                }
            }
        }
    }
}

/// An entry that is added at the end is found under its key where no
/// earlier entry is, and changes no other lookup.
pub proof fn lemma_lookup_push(shaders: Seq<(u32, u32)>, entry: (u32, u32), key: u32)
    ensures
        lookup(shaders.push(entry), key) == if lookup(shaders, key) is Some {
            lookup(shaders, key)
        } else if entry.0 == key {
            Some(entry.1)
        } else {
            None
        },
    decreases shaders.len(),
{
    if shaders.len() == 0 {
        assert(shaders.push(entry).drop_first() =~= shaders);
    } else {
        assert(shaders.push(entry).drop_first() =~= shaders.drop_first().push(entry));
        lemma_lookup_push(shaders.drop_first(), entry, key);
    }
}

/// Lookup round trip. After a shader is attached to a program that held no
/// entry under the fingerprint of the shader's source, the lookup of that
/// source gives the shader's name; and the lookup of a text with another
/// fingerprint gives what it gave before, which is nothing on a program that
/// held no shader.
pub proof fn lemma_lookup_round_trip(program: ProgramModel, shader: ShaderModel, other: Seq<char>)
    requires
        lookup(program.shaders, fingerprint(shader.source)) is None,
    ensures
        lookup(attached(program, shader).shaders, fingerprint(shader.source)) == Some(
            shader.handle,
        ),
        fingerprint(other) != fingerprint(shader.source) ==> lookup(
            attached(program, shader).shaders,
            fingerprint(other),
        ) == lookup(program.shaders, fingerprint(other)),
        fingerprint(other) != fingerprint(shader.source) && program.shaders.len() == 0 ==> lookup(
            attached(program, shader).shaders,
            fingerprint(other),
        ) is None,
{
    let entry = (fingerprint(shader.source), shader.handle);
    lemma_lookup_push(program.shaders, entry, fingerprint(shader.source));
    lemma_lookup_push(program.shaders, entry, fingerprint(other));
}

/// Short circuit at the vertex stage. Where the device makes the program and
/// the vertex shader but reports that the vertex source does not compile, the
/// build fails with the compiler's log behind the words "Vertex Compile
/// Error: ", the calls that were issued are exactly those listed, none of
/// which is about a fragment shader, and nothing is issued afterwards.
pub proof fn lemma_vertex_failure_short_circuits(
    vert: Seq<char>,
    frag: Seq<char>,
    program: u32,
    vertex: u32,
    status: i32,
    needed: i32,
    log: Seq<char>,
    later: Reply,
)
    requires
        program != 0,
        vertex != 0,
        !succeeded(status),
    ensures
        ({
            let s0 = program_start(vert, frag);
            let s1 = program_step(s0.0, Reply::Handle(program));
            let s2 = program_step(s1.0, Reply::Handle(vertex));
            let s3 = program_step(s2.0, Reply::Status(status));
            let s4 = program_step(s3.0, Reply::Status(needed));
            let s5 = program_step(s4.0, Reply::Log(log));
            &&& s5.0.phase == ProgramPhase::Failed
            &&& s5.0.message == "Vertex Compile Error: "@ + log
            &&& s0.1 + s1.1 + s2.1 + s3.1 + s4.1 + s5.1 == seq![
                Call::CreateProgram,
                Call::CreateShader { stage: VERTEX_SHADER },
                Call::ShaderSource { shader: vertex, text: vert, length: source_length(vert) },
                Call::CompileShader { shader: vertex },
                Call::GetShaderiv { shader: vertex, name: COMPILE_STATUS },
                Call::GetShaderiv { shader: vertex, name: INFO_LOG_LENGTH },
                Call::GetShaderInfoLog { shader: vertex, capacity: log_capacity(needed) },
                Call::DeleteShader { shader: vertex },
                Call::DeleteProgram { program },
            ]
            &&& program_step(s5.0, later) == (s5.0, Seq::<Call>::empty())
        }),
{
}

/// The whole pipeline. Where the device makes all three objects and reports
/// that both sources compile and that the program links, the build ends with
/// the linked program, whose list holds the vertex shader and then the
/// fragment shader under the fingerprints of their sources, and the calls
/// that were issued are exactly those listed.
pub proof fn lemma_build_links(
    vert: Seq<char>,
    frag: Seq<char>,
    program: u32,
    vertex: u32,
    fragment: u32,
)
    requires
        program != 0,
        vertex != 0,
        fragment != 0,
    ensures
        ({
            let yes = Reply::Status(TRUE as i32);
            let s0 = program_start(vert, frag);
            let s1 = program_step(s0.0, Reply::Handle(program));
            let s2 = program_step(s1.0, Reply::Handle(vertex));
            let s3 = program_step(s2.0, yes);
            let s4 = program_step(s3.0, Reply::Handle(fragment));
            let s5 = program_step(s4.0, yes);
            let s6 = program_step(s5.0, yes);
            &&& s6.0.phase == ProgramPhase::Linked
            &&& s6.0.program == (ProgramModel {
                handle: program,
                shaders: seq![(fingerprint(vert), vertex), (fingerprint(frag), fragment)],
            })
            &&& s0.1 + s1.1 + s2.1 + s3.1 + s4.1 + s5.1 + s6.1 == seq![
                Call::CreateProgram,
                Call::CreateShader { stage: VERTEX_SHADER },
                Call::ShaderSource { shader: vertex, text: vert, length: source_length(vert) },
                Call::CompileShader { shader: vertex },
                Call::GetShaderiv { shader: vertex, name: COMPILE_STATUS },
                Call::AttachShader { program, shader: vertex },
                Call::CreateShader { stage: FRAGMENT_SHADER },
                Call::ShaderSource { shader: fragment, text: frag, length: source_length(frag) },
                Call::CompileShader { shader: fragment },
                Call::GetShaderiv { shader: fragment, name: COMPILE_STATUS },
                Call::AttachShader { program, shader: fragment },
                Call::LinkProgram { program },
                Call::DeleteShader { shader: vertex },
                Call::DeleteShader { shader: fragment },
                Call::GetProgramiv { program, name: LINK_STATUS },
            ]
        }),
{
    let entries: Seq<(u32, u32)> = Seq::empty();
    assert(entries.push((fingerprint(vert), vertex)).push((fingerprint(frag), fragment)) =~= seq![
        (fingerprint(vert), vertex),
        (fingerprint(frag), fragment),
    ]);
}

/// Short circuit at the fragment stage. Where the vertex shader is attached
/// but the device reports that the fragment source does not compile, the
/// build fails with the compiler's log behind the words "Fragment Compile
/// Error: ". From that answer on the calls are exactly those listed: the log
/// is read, both shaders and the program are deleted, and nothing is linked.
pub proof fn lemma_fragment_failure_short_circuits(
    vert: Seq<char>,
    frag: Seq<char>,
    program: u32,
    vertex: u32,
    fragment: u32,
    status: i32,
    needed: i32,
    log: Seq<char>,
    later: Reply,
)
    requires
        program != 0,
        vertex != 0,
        fragment != 0,
        !succeeded(status),
    ensures
        ({
            let yes = Reply::Status(TRUE as i32);
            let s0 = program_start(vert, frag);
            let s1 = program_step(s0.0, Reply::Handle(program));
            let s2 = program_step(s1.0, Reply::Handle(vertex));
            let s3 = program_step(s2.0, yes);
            let s4 = program_step(s3.0, Reply::Handle(fragment));
            let s5 = program_step(s4.0, Reply::Status(status));
            let s6 = program_step(s5.0, Reply::Status(needed));
            let s7 = program_step(s6.0, Reply::Log(log));
            &&& s7.0.phase == ProgramPhase::Failed
            &&& s7.0.message == "Fragment Compile Error: "@ + log
            &&& s5.1 + s6.1 + s7.1 == seq![
                Call::GetShaderiv { shader: fragment, name: INFO_LOG_LENGTH },
                Call::GetShaderInfoLog { shader: fragment, capacity: log_capacity(needed) },
                Call::DeleteShader { shader: fragment },
                Call::DeleteShader { shader: vertex },
                Call::DeleteProgram { program },
            ]
            &&& program_step(s7.0, later) == (s7.0, Seq::<Call>::empty())
        }),
{
}

/// Failure at the link. Where both shaders compile but the device reports
/// that the program does not link, the build fails with the linker's log
/// behind the words "Program Link Error: ". From that answer on the calls are
/// exactly those listed: the log is read and the program is deleted.
pub proof fn lemma_link_failure_deletes_program(
    vert: Seq<char>,
    frag: Seq<char>,
    program: u32,
    vertex: u32,
    fragment: u32,
    status: i32,
    needed: i32,
    log: Seq<char>,
    later: Reply,
)
    requires
        program != 0,
        vertex != 0,
        fragment != 0,
        !succeeded(status),
    ensures
        ({
            let yes = Reply::Status(TRUE as i32);
            let s0 = program_start(vert, frag);
            let s1 = program_step(s0.0, Reply::Handle(program));
            let s2 = program_step(s1.0, Reply::Handle(vertex));
            let s3 = program_step(s2.0, yes);
            let s4 = program_step(s3.0, Reply::Handle(fragment));
            let s5 = program_step(s4.0, yes);
            let s6 = program_step(s5.0, Reply::Status(status));
            let s7 = program_step(s6.0, Reply::Status(needed));
            let s8 = program_step(s7.0, Reply::Log(log));
            &&& s8.0.phase == ProgramPhase::Failed
            &&& s8.0.message == "Program Link Error: "@ + log
            &&& s6.1 + s7.1 + s8.1 == seq![
                Call::GetProgramiv { program, name: INFO_LOG_LENGTH },
                Call::GetProgramInfoLog { program, capacity: log_capacity(needed) },
                Call::DeleteProgram { program },
            ]
            &&& program_step(s8.0, later) == (s8.0, Seq::<Call>::empty())
        }),
{
}

} // verus!
