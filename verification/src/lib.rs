//! A device-independent core for a small OpenGL 3.3 renderer.
//!
//! The crate decides which calls go to the graphics device, in which order and
//! with which arguments, and what follows from each answer of the device. It
//! performs no call itself: every function hands out [`DeviceCall`] values for
//! the caller to issue, and takes what the device reported as plain values.

pub mod buffer;
pub mod device;
pub mod frame;
pub mod geometry;
pub mod gl;
pub mod hash;
pub mod program;
pub mod shader;
pub mod state;

pub use buffer::{
    buffer_data, buffer_sub_data, clear_color, polygon_mode, VertexArray, VertexBuffer,
};
pub use device::{Call, DeviceCall, DeviceReply, Reply};
pub use frame::{FrameDriver, FrameModel, FramePhase, InitStage, InputEvent, Key};
pub use geometry::{
    create_ebo, create_vbo, update_single_vbo, update_vbo, update_whole_vbo, ByteOrder, TriIndexes,
    Vertex,
};
pub use gl::{BufferType, PolygonMode, ShaderType};
pub use hash::Hashable;
pub use program::{ProgramBuild, ProgramBuildModel, ProgramModel, ProgramPhase, ShaderProgram};
pub use shader::{Shader, ShaderBuild, ShaderBuildModel, ShaderModel, ShaderPhase};
pub use state::DeviceState;
