//! The calls that go to the graphics device and what it reports back.
//!
//! A [`DeviceCall`] is one entry point of the device with its arguments, as
//! the caller is to issue it. A [`DeviceReply`] is what the device reported to
//! the last call of a batch. Colour and vertex components travel as the bit
//! patterns of their single-precision floats.

use vstd::prelude::*;
use vstd::slice::slice_subrange;
use vstd::utf8::{decode_utf8, valid_utf8};

verus! {

/// The text that `String::from_utf8_lossy` decodes from `bytes`: the text that
/// they encode where they are well-formed UTF-8, and otherwise that text with
/// a replacement character for each ill-formed part.
pub uninterp spec fn utf8_lossy(bytes: Seq<u8>) -> Seq<char>;

/// `String::from_utf8_lossy`, made an owned string: the lossy decoding of
/// `bytes`, which depends on the bytes alone. Bytes that are well-formed
/// UTF-8 decode to the text that they encode.
#[verifier::external_body]
fn decode_lossy(bytes: &[u8]) -> (text: String)
    ensures
        text@ == utf8_lossy(bytes@),
        valid_utf8(bytes@) ==> text@ == decode_utf8(bytes@),
{
    String::from_utf8_lossy(bytes).into_owned()
}

/// How many bytes of a log buffer of `held` bytes the device has filled,
/// when it reports to have written `written`: a negative count reads as
/// none, and no count reaches past the buffer.
pub open spec fn log_length(written: i32, held: nat) -> nat {
    if written <= 0 {
        0
    } else if written as nat > held {
        held
    } else {
        written as nat
    }
}

/// The part of a log buffer that the device has filled.
pub open spec fn filled(written: i32, buffer: Seq<u8>) -> Seq<u8> {
    buffer.subrange(0, log_length(written, buffer.len()) as int)
}

/// The text of a log: what the bytes encode where they are well-formed
/// UTF-8, and their lossy decoding where they are not.
pub open spec fn log_text(bytes: Seq<u8>) -> Seq<char> {
    if valid_utf8(bytes) {
        decode_utf8(bytes)
    } else {
        utf8_lossy(bytes)
    }
}

/// The size of the buffer to offer for a log whose length the device gave as
/// `needed`, terminator included. A negative length asks for no buffer.
pub open spec fn log_capacity(needed: i32) -> i32 {
    if needed < 0 {
        0
    } else {
        needed
    }
}

/// The size of the buffer to offer for a log whose length the device gave as
/// `needed`.
pub fn capacity_for_log(needed: i32) -> (capacity: i32)
    ensures
        capacity == log_capacity(needed),
{
    if needed < 0 {
        0
    } else {
        needed
    }
}

/// The text of a diagnostic log: the part of `buffer` that the device has
/// filled, decoded leniently. Where nothing was written the text is empty.
pub fn decode_log(written: i32, buffer: &[u8]) -> (text: String)
    ensures
        text@ == log_text(filled(written, buffer@)),
        log_length(written, buffer@.len()) == 0 ==> text@ == Seq::<char>::empty(),
{
    let count: usize = if written <= 0 {
        0
    } else if written as usize > buffer.len() {
        buffer.len()
    } else {
        written as usize
    };
    let text = decode_lossy(slice_subrange(buffer, 0, count));
    proof {
        if count == 0 {
        }
    }
    text
}

/// One call to the device, as a mathematical value.
pub enum Call {
    ClearColor { red: u32, green: u32, blue: u32, alpha: u32 },
    GenVertexArrays,
    BindVertexArray { array: u32 },
    GenBuffers,
    BindBuffer { target: u32, buffer: u32 },
    BufferData { target: u32, size: isize, data: Seq<u8>, usage: u32 },
    BufferSubData { target: u32, offset: isize, size: isize, data: Seq<u8> },
    VertexAttribPointer { index: u32, components: i32, kind: u32, normalized: u8, stride: i32, start: usize },
    EnableVertexAttribArray { index: u32 },
    CreateShader { stage: u32 },
    ShaderSource { shader: u32, text: Seq<char>, length: i32 },
    CompileShader { shader: u32 },
    GetShaderiv { shader: u32, name: u32 },
    GetShaderInfoLog { shader: u32, capacity: i32 },
    DeleteShader { shader: u32 },
    CreateProgram,
    AttachShader { program: u32, shader: u32 },
    LinkProgram { program: u32 },
    GetProgramiv { program: u32, name: u32 },
    GetProgramInfoLog { program: u32, capacity: i32 },
    DeleteProgram { program: u32 },
    UseProgram { program: u32 },
    PolygonMode { face: u32, mode: u32 },
    Clear { mask: u32 },
    DrawElements { mode: u32, count: i32, kind: u32, start: usize },
    SwapWindow,
}

/// One call to the device, for the caller to issue.
///
/// `GenVertexArrays` and `GenBuffers` ask for one name each. `SwapWindow`
/// goes to the window that owns the device's context: it presents the frame
/// that was drawn. The calls that report something are answered by a
/// [`DeviceReply`]: those that make an object by `Handle`, the two queries by
/// `Status`, the two log reads by `Log`.
#[derive(Debug, Clone, PartialEq, Eq)]
pub enum DeviceCall {
    ClearColor { red: u32, green: u32, blue: u32, alpha: u32 },
    GenVertexArrays,
    BindVertexArray { array: u32 },
    GenBuffers,
    BindBuffer { target: u32, buffer: u32 },
    BufferData { target: u32, size: isize, data: Vec<u8>, usage: u32 },
    BufferSubData { target: u32, offset: isize, size: isize, data: Vec<u8> },
    VertexAttribPointer { index: u32, components: i32, kind: u32, normalized: u8, stride: i32, start: usize },
    EnableVertexAttribArray { index: u32 },
    CreateShader { stage: u32 },
    ShaderSource { shader: u32, text: String, length: i32 },
    CompileShader { shader: u32 },
    GetShaderiv { shader: u32, name: u32 },
    GetShaderInfoLog { shader: u32, capacity: i32 },
    DeleteShader { shader: u32 },
    CreateProgram,
    AttachShader { program: u32, shader: u32 },
    LinkProgram { program: u32 },
    GetProgramiv { program: u32, name: u32 },
    GetProgramInfoLog { program: u32, capacity: i32 },
    DeleteProgram { program: u32 },
    UseProgram { program: u32 },
    PolygonMode { face: u32, mode: u32 },
    Clear { mask: u32 },
    DrawElements { mode: u32, count: i32, kind: u32, start: usize },
    SwapWindow,
}

impl View for DeviceCall {
    type V = Call;

    open spec fn view(&self) -> Call {
        match *self {
            DeviceCall::ClearColor { red, green, blue, alpha } => Call::ClearColor {
                red,
                green,
                blue,
                alpha,
            },
            DeviceCall::GenVertexArrays => Call::GenVertexArrays,
            DeviceCall::BindVertexArray { array } => Call::BindVertexArray { array },
            DeviceCall::GenBuffers => Call::GenBuffers,
            DeviceCall::BindBuffer { target, buffer } => Call::BindBuffer { target, buffer },
            DeviceCall::BufferData { target, size, data, usage } => Call::BufferData {
                target,
                size,
                data: data@,
                usage,
            },
            DeviceCall::BufferSubData { target, offset, size, data } => Call::BufferSubData {
                target,
                offset,
                size,
                data: data@,
            },
            DeviceCall::VertexAttribPointer {
                index,
                components,
                kind,
                normalized,
                stride,
                start,
            } => Call::VertexAttribPointer { index, components, kind, normalized, stride, start },
            DeviceCall::EnableVertexAttribArray { index } => Call::EnableVertexAttribArray {
                index,
            },
            DeviceCall::CreateShader { stage } => Call::CreateShader { stage },
            DeviceCall::ShaderSource { shader, text, length } => Call::ShaderSource {
                shader,
                text: text@,
                length,
            },
            DeviceCall::CompileShader { shader } => Call::CompileShader { shader },
            DeviceCall::GetShaderiv { shader, name } => Call::GetShaderiv { shader, name },
            DeviceCall::GetShaderInfoLog { shader, capacity } => Call::GetShaderInfoLog {
                shader,
                capacity,
            },
            DeviceCall::DeleteShader { shader } => Call::DeleteShader { shader },
            DeviceCall::CreateProgram => Call::CreateProgram,
            DeviceCall::AttachShader { program, shader } => Call::AttachShader { program, shader },
            DeviceCall::LinkProgram { program } => Call::LinkProgram { program },
            DeviceCall::GetProgramiv { program, name } => Call::GetProgramiv { program, name },
            DeviceCall::GetProgramInfoLog { program, capacity } => Call::GetProgramInfoLog {
                program,
                capacity,
            },
            DeviceCall::DeleteProgram { program } => Call::DeleteProgram { program },
            DeviceCall::UseProgram { program } => Call::UseProgram { program },
            DeviceCall::PolygonMode { face, mode } => Call::PolygonMode { face, mode },
            DeviceCall::Clear { mask } => Call::Clear { mask },
            DeviceCall::DrawElements { mode, count, kind, start } => Call::DrawElements {
                mode,
                count,
                kind,
                start,
            },
            DeviceCall::SwapWindow => Call::SwapWindow,
        }
    }
}

impl DeepView for DeviceCall {
    type V = Call;

    open spec fn deep_view(&self) -> Call {
        self@
    }
}

/// Adds one call to the end of a batch.
pub(crate) fn issue(calls: &mut Vec<DeviceCall>, call: DeviceCall)
    ensures
        final(calls).deep_view() == old(calls).deep_view().push(call@),
{
    calls.push(call);
}

/// What the device reported, as a mathematical value.
pub enum Reply {
    Done,
    Handle(u32),
    Status(i32),
    Log(Seq<char>),
}

impl Reply {
    /// The object name that was reported; zero where none was.
    pub open spec fn handle(self) -> u32 {
        match self {
            Reply::Handle(handle) => handle,
            _ => 0,
        }
    }

    /// The queried value that was reported; zero where none was.
    pub open spec fn status(self) -> i32 {
        match self {
            Reply::Status(status) => status,
            _ => 0,
        }
    }

    /// The log text that was reported; empty where none was.
    pub open spec fn log(self) -> Seq<char> {
        match self {
            Reply::Log(text) => text,
            _ => Seq::empty(),
        }
    }
}

/// What the device reported to a call.
///
/// The device writes its answers into locations that the caller has zeroed.
/// A reply of another kind than the one asked for therefore reads as zero, or
/// as an empty text.
#[derive(Debug, Clone, PartialEq, Eq)]
pub enum DeviceReply {
    /// The call reports nothing.
    Done,
    /// The name of a new object; zero where the device made none.
    Handle(u32),
    /// The value of a status or length query.
    Status(i32),
    /// A diagnostic log, decoded.
    Log(String),
}

impl View for DeviceReply {
    type V = Reply;

    open spec fn view(&self) -> Reply {
        match *self {
            DeviceReply::Done => Reply::Done,
            DeviceReply::Handle(handle) => Reply::Handle(handle),
            DeviceReply::Status(status) => Reply::Status(status),
            DeviceReply::Log(text) => Reply::Log(text@),
        }
    }
}

impl DeviceReply {
    /// The object name that was reported; zero where none was.
    pub fn handle(&self) -> (handle: u32)
        ensures
            handle == self@.handle(),
    {
        match self {
            DeviceReply::Handle(handle) => *handle,
            _ => 0,
        }
    }

    /// The queried value that was reported; zero where none was.
    pub fn status(&self) -> (status: i32)
        ensures
            status == self@.status(),
    {
        match self {
            DeviceReply::Status(status) => *status,
            _ => 0,
        }
    }

    /// The log text that was reported; empty where none was.
    pub fn log(&self) -> (text: String)
        ensures
            text@ == self@.log(),
    {
        match self {
            DeviceReply::Log(text) => text.clone(),
            _ => String::new(),
        }
    }
}

} // verus!
