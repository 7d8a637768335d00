//! Shader objects, and the pipeline that makes a compiled one from a source
//! text.

use crate::device::{capacity_for_log, decode_log, filled, log_capacity, log_length, log_text};
use crate::device::{Call, DeviceCall, DeviceReply, Reply};
use crate::gl::{gl_compile_status, gl_info_log_length, gl_true};
use crate::gl::{ShaderType, COMPILE_STATUS, INFO_LOG_LENGTH, TRUE};
use vstd::prelude::*;
use vstd::utf8::encode_utf8;

verus! {

/// What a shader is, as a mathematical value.
pub struct ShaderModel {
    /// The device's name of the shader object.
    pub handle: u32,
    /// The stage that it runs at.
    pub stage: ShaderType,
    /// The source text that was last assigned to it.
    pub source: Seq<char>,
}

/// One shader stage on the device: its name, its stage, and the source text
/// that was last assigned to it.
#[derive(Debug, Clone, PartialEq, Eq)]
pub struct Shader(pub u32, ShaderType, String);

impl View for Shader {
    type V = ShaderModel;

    closed spec fn view(&self) -> ShaderModel {
        ShaderModel { handle: self.0, stage: self.1, source: self.2@ }
    }
}

/// The length of a source text as the device is told it: its size in bytes.
pub open spec fn source_length(text: Seq<char>) -> i32 {
    encode_utf8(text).len() as i32
}

/// Whether the length of a source text can be told to the device, which
/// takes it as a signed 32-bit number.
pub open spec fn source_fits(text: Seq<char>) -> bool {
    encode_utf8(text).len() <= i32::MAX
}

/// Whether a queried status says that compiling or linking succeeded.
pub open spec fn succeeded(status: i32) -> bool {
    status == TRUE as i32
}

impl Shader {
    /// The shader of stage `ty` that the device named in answer to
    /// [`DeviceCall::CreateShader`]; it has no source yet. The device reports
    /// failure by the name zero, for which there is no shader.
    pub fn new(ty: ShaderType, handle: u32) -> (made: Option<Self>)
        ensures
            handle == 0 ==> made is None,
            handle != 0 ==> made is Some && made->0@ == (ShaderModel {
                handle,
                stage: ty,
                source: Seq::empty(),
            }),
    {
        if handle != 0 {
            Some(Shader(handle, ty, String::new()))
        } else {
            None
        }
    }

    /// The device's name of this shader, which is also its first field.
    pub fn handle(&self) -> (handle: u32)
        ensures
            handle == self@.handle,
    {
        self.0
    }

    /// The stage that this shader runs at.
    pub fn stage(&self) -> (stage: ShaderType)
        ensures
            stage == self@.stage,
    {
        self.1
    }

    /// The source text that was last assigned.
    pub fn source(&self) -> (text: &str)
        ensures
            text@ == self@.source,
    {
        self.2.as_str()
    }

    /// Assigns a source text, in place of any earlier one.
    pub fn set_source(&mut self, src: &str) -> (call: DeviceCall)
        requires
            source_fits(src@),
        ensures
            final(self)@ == (ShaderModel { source: src@, ..old(self)@ }),
            call@ == (Call::ShaderSource {
                shader: old(self)@.handle,
                text: src@,
                length: source_length(src@),
            }),
    {
        self.2 = src.to_owned();
        DeviceCall::ShaderSource {
            shader: self.0,
            text: src.to_owned(),
            length: src.as_bytes().len() as i32,
        }
    }

    /// Compiles the assigned source. The call reports nothing: success is
    /// queried by [`Shader::status_query`].
    pub fn compile(&self) -> (call: DeviceCall)
        ensures
            call@ == (Call::CompileShader { shader: self@.handle }),
    {
        DeviceCall::CompileShader { shader: self.0 }
    }

    /// Asks whether the last compilation succeeded.
    pub fn status_query(&self) -> (call: DeviceCall)
        ensures
            call@ == (Call::GetShaderiv { shader: self@.handle, name: COMPILE_STATUS }),
    {
        DeviceCall::GetShaderiv { shader: self.0, name: gl_compile_status() }
    }

    /// Whether `status`, the answer to [`Shader::status_query`], says that
    /// the compilation succeeded.
    pub fn compile_success(status: i32) -> (ok: bool)
        ensures
            ok == succeeded(status),
    {
        status == gl_true() as i32
    }

    /// Asks how long the compiler's log is.
    pub fn log_length_query(&self) -> (call: DeviceCall)
        ensures
            call@ == (Call::GetShaderiv { shader: self@.handle, name: INFO_LOG_LENGTH }),
    {
        DeviceCall::GetShaderiv { shader: self.0, name: gl_info_log_length() }
    }

    /// Asks for the compiler's log, into a buffer sized by `needed`, the
    /// answer to [`Shader::log_length_query`].
    pub fn log_query(&self, needed: i32) -> (call: DeviceCall)
        ensures
            call@ == (Call::GetShaderInfoLog {
                shader: self@.handle,
                capacity: log_capacity(needed),
            }),
    {
        DeviceCall::GetShaderInfoLog { shader: self.0, capacity: capacity_for_log(needed) }
    }

    /// The compiler's log as text, from the buffer that the device filled
    /// and the count that it reported to have written.
    pub fn info_log(written: i32, buffer: &[u8]) -> (text: String)
        ensures
            text@ == log_text(filled(written, buffer@)),
            log_length(written, buffer@.len()) == 0 ==> text@ == Seq::<char>::empty(),
    {
        decode_log(written, buffer)
    }

    /// Marks the shader for deletion. The device reclaims it once no program
    /// has it attached.
    pub fn delete(self) -> (call: DeviceCall)
        ensures
            call@ == (Call::DeleteShader { shader: self@.handle }),
    {
        DeviceCall::DeleteShader { shader: self.0 }
    }

    /// Starts the making of a compiled shader of stage `ty` from `source`,
    /// and gives the first calls to issue.
    pub fn from_source(ty: ShaderType, source: &str) -> (started: (ShaderBuild, Vec<DeviceCall>))
        requires
            source_fits(source@),
        ensures
            started.0@ == shader_start(ty, source@).0,
            started.1.deep_view() == shader_start(ty, source@).1,
    {
        let build = ShaderBuild {
            phase: ShaderPhase::Allocating,
            shader: Shader(0, ty, source.to_owned()),
            length: source.as_bytes().len() as i32,
            message: String::new(),
        };
        let calls = vec![DeviceCall::CreateShader { stage: ty.gl_enum() }];
        (build, calls)
    }
}

/// How far the making of a shader has come.
#[derive(Debug, Clone, Copy, PartialEq, Eq, Structural)]
pub enum ShaderPhase {
    /// The shader object was asked for.
    Allocating,
    /// The source was assigned and compiled, and the status was asked for.
    Compiling,
    /// Compilation failed, and the length of the log was asked for.
    Sizing,
    /// The log was asked for.
    Reading,
    /// The shader is compiled.
    Compiled,
    /// The shader could not be made; it is deleted where it had been made.
    Failed,
}

/// The making of a shader, as a mathematical value.
pub struct ShaderBuildModel {
    pub phase: ShaderPhase,
    /// The shader; its name is zero until the device has given one.
    pub shader: ShaderModel,
    /// The length of the source as the device is told it.
    pub length: i32,
    /// Why the making failed; empty until it has.
    pub message: Seq<char>,
}

/// The making of a compiled shader from a source text, one answer of the
/// device at a time.
///
/// [`Shader::from_source`] starts it. The caller issues the calls that it is
/// given, in order, and hands what the device reported to the last of them to
/// [`ShaderBuild::step`], until [`ShaderBuild::finish`] has a result.
#[derive(Debug, Clone, PartialEq, Eq)]
pub struct ShaderBuild {
    phase: ShaderPhase,
    shader: Shader,
    length: i32,
    message: String,
}

impl View for ShaderBuild {
    type V = ShaderBuildModel;

    closed spec fn view(&self) -> ShaderBuildModel {
        ShaderBuildModel {
            phase: self.phase,
            shader: self.shader@,
            length: self.length,
            message: self.message@,
        }
    }
}

/// The start of the making of a shader: nothing is known yet, and the shader
/// object is asked for.
pub open spec fn shader_start(ty: ShaderType, source: Seq<char>) -> (ShaderBuildModel, Seq<Call>) {
    (
        ShaderBuildModel {
            phase: ShaderPhase::Allocating,
            shader: ShaderModel { handle: 0, stage: ty, source },
            length: source_length(source),
            message: Seq::empty(),
        },
        seq![Call::CreateShader { stage: ty.code() }],
    )
}

/// What the making of a shader goes on to when the device has answered, and
/// the calls to issue next.
///
/// A shader that the device could not make fails the build at once. A made
/// shader gets its source and is compiled. Where that succeeds the build is
/// done; where not, the log is sized and read, the shader deleted, and the
/// log becomes the failure's message. A finished build stays as it is.
pub open spec fn shader_step(build: ShaderBuildModel, reply: Reply) -> (ShaderBuildModel, Seq<Call>) {
    let shader = build.shader.handle;
    match build.phase {
        ShaderPhase::Allocating => if reply.handle() == 0 {
            (
                ShaderBuildModel {
                    phase: ShaderPhase::Failed,
                    message: "Could not allocate new shader"@,
                    ..build
                },
                Seq::empty(),
            )
        } else {
            (
                ShaderBuildModel {
                    phase: ShaderPhase::Compiling,
                    shader: ShaderModel { handle: reply.handle(), ..build.shader },
                    ..build
                },
                seq![
                    Call::ShaderSource {
                        shader: reply.handle(),
                        text: build.shader.source,
                        length: build.length,
                    },
                    Call::CompileShader { shader: reply.handle() },
                    Call::GetShaderiv { shader: reply.handle(), name: COMPILE_STATUS },
                ],
            )
        },
        ShaderPhase::Compiling => if succeeded(reply.status()) {
            (ShaderBuildModel { phase: ShaderPhase::Compiled, ..build }, Seq::empty())
        } else {
            (
                ShaderBuildModel { phase: ShaderPhase::Sizing, ..build },
                seq![Call::GetShaderiv { shader, name: INFO_LOG_LENGTH }],
            )
        },
        ShaderPhase::Sizing => (
            ShaderBuildModel { phase: ShaderPhase::Reading, ..build },
            seq![Call::GetShaderInfoLog { shader, capacity: log_capacity(reply.status()) }],
        ),
        ShaderPhase::Reading => (
            ShaderBuildModel { phase: ShaderPhase::Failed, message: reply.log(), ..build },
            seq![Call::DeleteShader { shader }],
        ),
        ShaderPhase::Compiled | ShaderPhase::Failed => (build, Seq::empty()),
    }
}

impl ShaderBuild {
    /// How far the making has come.
    pub fn phase(&self) -> (phase: ShaderPhase)
        ensures
            phase == self@.phase,
    {
        self.phase
    }

    /// The shader that is being made; its name is zero until the device has
    /// given one.
    pub fn shader(&self) -> (shader: &Shader)
        ensures
            shader@ == self@.shader,
    {
        &self.shader
    }

    /// Why the making failed; empty until it has.
    pub fn message(&self) -> (message: &str)
        ensures
            message@ == self@.message,
    {
        self.message.as_str()
    }

    /// Takes what the device reported to the last call that was issued, and
    /// gives the calls to issue next.
    pub fn step(self, reply: &DeviceReply) -> (next: (ShaderBuild, Vec<DeviceCall>))
        ensures
            next.0@ == shader_step(self@, reply@).0,
            next.1.deep_view() == shader_step(self@, reply@).1,
    {
        let ShaderBuild { phase, shader, length, message } = self;
        match phase {
            ShaderPhase::Allocating => {
                let handle = reply.handle();
                if handle == 0 {
                    let next = ShaderBuild {
                        phase: ShaderPhase::Failed,
                        shader,
                        length,
                        message: "Could not allocate new shader".to_owned(),
                    };
                    let calls: Vec<DeviceCall> = Vec::new();
                    (next, calls)
                } else {
                    let Shader(_, stage, source) = shader;
                    let calls = vec![
                        DeviceCall::ShaderSource { shader: handle, text: source.clone(), length },
                        DeviceCall::CompileShader { shader: handle },
                        DeviceCall::GetShaderiv { shader: handle, name: gl_compile_status() },
                    ];
                    let next = ShaderBuild {
                        phase: ShaderPhase::Compiling,
                        shader: Shader(handle, stage, source),
                        length,
                        message,
                    };
                    (next, calls)
                }
            },
            ShaderPhase::Compiling => {
                if Shader::compile_success(reply.status()) {
                    let next = ShaderBuild { phase: ShaderPhase::Compiled, shader, length, message };
                    let calls: Vec<DeviceCall> = Vec::new();
                    (next, calls)
                } else {
                    let calls = vec![shader.log_length_query()];
                    let next = ShaderBuild { phase: ShaderPhase::Sizing, shader, length, message };
                    (next, calls)
                }
            },
            ShaderPhase::Sizing => {
                let calls = vec![shader.log_query(reply.status())];
                let next = ShaderBuild { phase: ShaderPhase::Reading, shader, length, message };
                (next, calls)
            },
            ShaderPhase::Reading => {
                let calls = vec![DeviceCall::DeleteShader { shader: shader.0 }];
                let next = ShaderBuild {
                    phase: ShaderPhase::Failed,
                    shader,
                    length,
                    message: reply.log(),
                };
                (next, calls)
            },
            ShaderPhase::Compiled | ShaderPhase::Failed => {
                let next = ShaderBuild { phase, shader, length, message };
                let calls: Vec<DeviceCall> = Vec::new();
                (next, calls)
            },
        }
    }

    /// The outcome, once there is one: the compiled shader, or the message of
    /// the failure.
    pub fn finish(self) -> (outcome: Option<Result<Shader, String>>)
        ensures
            self@.phase == ShaderPhase::Compiled ==> (outcome matches Some(Ok(shader)) && shader@
                == self@.shader),
            self@.phase == ShaderPhase::Failed ==> (outcome matches Some(Err(message)) && message@
                == self@.message),
            self@.phase != ShaderPhase::Compiled && self@.phase != ShaderPhase::Failed
                ==> outcome is None,
    {
        match self.phase {
            ShaderPhase::Compiled => Some(Ok(self.shader)),
            ShaderPhase::Failed => Some(Err(self.message)),
            _ => None,
        }
    }
}

} // verus!
