//! Vertex array objects, buffer objects and the device state that is set by
//! one call.

use crate::device::{Call, DeviceCall};
use crate::gl::{gl_front_and_back, BufferType, PolygonMode, FRONT_AND_BACK};
use vstd::prelude::*;
use vstd::slice::slice_to_vec;

verus! {

/// The name of a vertex array object: the description of how the bound
/// buffers feed the inputs of a shader.
#[derive(Debug, Clone, Copy, PartialEq, Eq, Structural)]
pub struct VertexArray(pub u32);

/// The name of a buffer object: a block of bytes on the device that holds
/// vertex data or index data.
#[derive(Debug, Clone, Copy, PartialEq, Eq, Structural)]
pub struct VertexBuffer(pub u32);

impl VertexArray {
    /// Whether this is the name of an object, and not the device's "none".
    pub open spec fn is_allocated(&self) -> bool {
        self.0 != 0
    }

    /// The vertex array that the device named in answer to
    /// [`DeviceCall::GenVertexArrays`]. The device reports failure by the
    /// name zero, for which there is no vertex array.
    pub fn new(handle: u32) -> (made: Option<Self>)
        ensures
            made == if handle != 0 {
                Some(VertexArray(handle))
            } else {
                None::<VertexArray>
            },
            made matches Some(array) ==> array.is_allocated(),
    {
        if handle != 0 {
            Some(VertexArray(handle))
        } else {
            None
        }
    }

    /// Makes this the active vertex array, to which the attribute layout
    /// calls that follow apply.
    pub fn bind(&self) -> (call: DeviceCall)
        ensures
            call@ == (Call::BindVertexArray { array: self.0 }),
    {
        DeviceCall::BindVertexArray { array: self.0 }
    }

    /// Leaves no vertex array active.
    pub fn clear_binding() -> (call: DeviceCall)
        ensures
            call@ == (Call::BindVertexArray { array: 0 }),
    {
        DeviceCall::BindVertexArray { array: 0 }
    }
}

impl VertexBuffer {
    /// Whether this is the name of an object, and not the device's "none".
    pub open spec fn is_allocated(&self) -> bool {
        self.0 != 0
    }

    /// The buffer that the device named in answer to
    /// [`DeviceCall::GenBuffers`]. The device reports failure by the name
    /// zero, for which there is no buffer.
    pub fn new(handle: u32) -> (made: Option<Self>)
        ensures
            made == if handle != 0 {
                Some(VertexBuffer(handle))
            } else {
                None::<VertexBuffer>
            },
            made matches Some(buffer) ==> buffer.is_allocated(),
    {
        if handle != 0 {
            Some(VertexBuffer(handle))
        } else {
            None
        }
    }

    /// Makes this the active buffer of the target `ty`: uploads and draws
    /// through that target then reach this buffer.
    pub fn bind(&self, ty: BufferType) -> (call: DeviceCall)
        ensures
            call@ == (Call::BindBuffer { target: ty.code(), buffer: self.0 }),
    {
        DeviceCall::BindBuffer { target: ty.gl_enum(), buffer: self.0 }
    }

    /// Leaves no buffer active at the target `ty`.
    pub fn clear_bind(ty: BufferType) -> (call: DeviceCall)
        ensures
            call@ == (Call::BindBuffer { target: ty.code(), buffer: 0 }),
    {
        DeviceCall::BindBuffer { target: ty.gl_enum(), buffer: 0 }
    }
}

/// Replaces the whole store of the buffer that is bound at `ty` by `data`.
/// `usage` tells the device how the store will be accessed.
pub fn buffer_data(ty: BufferType, data: &[u8], usage: u32) -> (call: DeviceCall)
    requires
        data@.len() <= isize::MAX,
    ensures
        call@ == (Call::BufferData {
            target: ty.code(),
            size: data@.len() as isize,
            data: data@,
            usage,
        }),
{
    DeviceCall::BufferData {
        target: ty.gl_enum(),
        size: data.len() as isize,
        data: slice_to_vec(data),
        usage,
    }
}

/// Overwrites the bytes from `offset` on, as many as `data` holds, in the
/// store of the buffer that is bound at `ty`. The store keeps its size: the
/// caller sizes it by an earlier [`buffer_data`].
pub fn buffer_sub_data(ty: BufferType, data: &[u8], offset: usize) -> (call: DeviceCall)
    requires
        data@.len() <= isize::MAX,
        offset <= isize::MAX,
    ensures
        call@ == (Call::BufferSubData {
            target: ty.code(),
            offset: offset as isize,
            size: data@.len() as isize,
            data: data@,
        }),
{
    DeviceCall::BufferSubData {
        target: ty.gl_enum(),
        offset: offset as isize,
        size: data.len() as isize,
        data: slice_to_vec(data),
    }
}

/// Sets the colour that a clear fills the colour buffer with. Each component
/// is the bit pattern of a single-precision float.
pub fn clear_color(r: u32, g: u32, b: u32, a: u32) -> (call: DeviceCall)
    ensures
        call@ == (Call::ClearColor { red: r, green: g, blue: b, alpha: a }),
{
    DeviceCall::ClearColor { red: r, green: g, blue: b, alpha: a }
}

/// Sets how both faces of every polygon are rasterised from now on.
pub fn polygon_mode(mode: PolygonMode) -> (call: DeviceCall)
    ensures
        call@ == (Call::PolygonMode { face: FRONT_AND_BACK, mode: mode.code() }),
{
    DeviceCall::PolygonMode { face: gl_front_and_back(), mode: mode.gl_enum() }
}

} // verus!
