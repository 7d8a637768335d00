//! The numeric names of OpenGL that the library hands to the device.
//!
//! At run time every value is read from the `ogl33` bindings. The constants
//! below are what the contracts call those values by.

use vstd::prelude::*;

verus! {

/// Binding target of vertex data.
pub const ARRAY_BUFFER: u32 = 0x8892;

/// Binding target of index data.
pub const ELEMENT_ARRAY_BUFFER: u32 = 0x8893;

/// Stage of a vertex shader.
pub const VERTEX_SHADER: u32 = 0x8B31;

/// Stage of a fragment shader.
pub const FRAGMENT_SHADER: u32 = 0x8B30;

/// Rasterise polygons as their corner points.
pub const POINT: u32 = 0x1B00;

/// Rasterise polygons as their outlines.
pub const LINE: u32 = 0x1B01;

/// Rasterise polygons filled.
pub const FILL: u32 = 0x1B02;

/// Both faces of a polygon.
pub const FRONT_AND_BACK: u32 = 0x0408;

/// The device's boolean `true`.
pub const TRUE: u8 = 1;

/// The device's boolean `false`.
pub const FALSE: u8 = 0;

/// Query name of a shader's compile status.
pub const COMPILE_STATUS: u32 = 0x8B81;

/// Query name of a program's link status.
pub const LINK_STATUS: u32 = 0x8B82;

/// Query name of the length of a diagnostic log.
pub const INFO_LOG_LENGTH: u32 = 0x8B84;

/// Usage hint: the store is rewritten often and drawn from often.
pub const DYNAMIC_DRAW: u32 = 0x88E8;

/// Component type: single-precision float.
pub const FLOAT: u32 = 0x1406;

/// Component type: 32-bit unsigned integer.
pub const UNSIGNED_INT: u32 = 0x1405;

/// Primitive: independent triangles.
pub const TRIANGLES: u32 = 0x0004;

/// Mask bit of the colour buffer.
pub const COLOR_BUFFER_BIT: u32 = 0x0000_4000;

/// `ogl33::GL_ARRAY_BUFFER`, whose value the bindings fix at 0x8892.
#[verifier::external_body]
pub(crate) fn gl_array_buffer() -> (value: u32)
    ensures
        value == ARRAY_BUFFER,
{
    ogl33::GL_ARRAY_BUFFER
}

/// `ogl33::GL_ELEMENT_ARRAY_BUFFER`, whose value the bindings fix at 0x8893.
#[verifier::external_body]
pub(crate) fn gl_element_array_buffer() -> (value: u32)
    ensures
        value == ELEMENT_ARRAY_BUFFER,
{
    ogl33::GL_ELEMENT_ARRAY_BUFFER
}

/// `ogl33::GL_VERTEX_SHADER`, whose value the bindings fix at 0x8B31.
#[verifier::external_body]
pub(crate) fn gl_vertex_shader() -> (value: u32)
    ensures
        value == VERTEX_SHADER,
{
    ogl33::GL_VERTEX_SHADER
}

/// `ogl33::GL_FRAGMENT_SHADER`, whose value the bindings fix at 0x8B30.
#[verifier::external_body]
pub(crate) fn gl_fragment_shader() -> (value: u32)
    ensures
        value == FRAGMENT_SHADER,
{
    ogl33::GL_FRAGMENT_SHADER
}

/// `ogl33::GL_POINT`, whose value the bindings fix at 0x1B00.
#[verifier::external_body]
pub(crate) fn gl_point() -> (value: u32)
    ensures
        value == POINT,
{
    ogl33::GL_POINT
}

/// `ogl33::GL_LINE`, whose value the bindings fix at 0x1B01.
#[verifier::external_body]
pub(crate) fn gl_line() -> (value: u32)
    ensures
        value == LINE,
{
    ogl33::GL_LINE
}

/// `ogl33::GL_FILL`, whose value the bindings fix at 0x1B02.
#[verifier::external_body]
pub(crate) fn gl_fill() -> (value: u32)
    ensures
        value == FILL,
{
    ogl33::GL_FILL
}

/// `ogl33::GL_FRONT_AND_BACK`, whose value the bindings fix at 0x0408.
#[verifier::external_body]
pub(crate) fn gl_front_and_back() -> (value: u32)
    ensures
        value == FRONT_AND_BACK,
{
    ogl33::GL_FRONT_AND_BACK
}

/// `ogl33::GL_TRUE`, a `GLboolean` whose value the bindings fix at 1.
#[verifier::external_body]
pub(crate) fn gl_true() -> (value: u8)
    ensures
        value == TRUE,
{
    ogl33::GL_TRUE
}

/// `ogl33::GL_FALSE`, a `GLboolean` whose value the bindings fix at 0.
#[verifier::external_body]
pub(crate) fn gl_false() -> (value: u8)
    ensures
        value == FALSE,
{
    ogl33::GL_FALSE
}

/// `ogl33::GL_COMPILE_STATUS`, whose value the bindings fix at 0x8B81.
#[verifier::external_body]
pub(crate) fn gl_compile_status() -> (value: u32)
    ensures
        value == COMPILE_STATUS,
{
    ogl33::GL_COMPILE_STATUS
}

/// `ogl33::GL_LINK_STATUS`, whose value the bindings fix at 0x8B82.
#[verifier::external_body]
pub(crate) fn gl_link_status() -> (value: u32)
    ensures
        value == LINK_STATUS,
{
    ogl33::GL_LINK_STATUS
}

/// `ogl33::GL_INFO_LOG_LENGTH`, whose value the bindings fix at 0x8B84.
#[verifier::external_body]
pub(crate) fn gl_info_log_length() -> (value: u32)
    ensures
        value == INFO_LOG_LENGTH,
{
    ogl33::GL_INFO_LOG_LENGTH
}

/// `ogl33::GL_DYNAMIC_DRAW`, whose value the bindings fix at 0x88E8.
#[verifier::external_body]
pub(crate) fn gl_dynamic_draw() -> (value: u32)
    ensures
        value == DYNAMIC_DRAW,
{
    ogl33::GL_DYNAMIC_DRAW
}

/// `ogl33::GL_FLOAT`, whose value the bindings fix at 0x1406.
#[verifier::external_body]
pub(crate) fn gl_float() -> (value: u32)
    ensures
        value == FLOAT,
{
    ogl33::GL_FLOAT
}

/// `ogl33::GL_UNSIGNED_INT`, whose value the bindings fix at 0x1405.
#[verifier::external_body]
pub(crate) fn gl_unsigned_int() -> (value: u32)
    ensures
        value == UNSIGNED_INT,
{
    ogl33::GL_UNSIGNED_INT
}

/// `ogl33::GL_TRIANGLES`, whose value the bindings fix at 0x0004.
#[verifier::external_body]
pub(crate) fn gl_triangles() -> (value: u32)
    ensures
        value == TRIANGLES,
{
    ogl33::GL_TRIANGLES
}

/// `ogl33::GL_COLOR_BUFFER_BIT`, whose value the bindings fix at 0x00004000.
#[verifier::external_body]
pub(crate) fn gl_color_buffer_bit() -> (value: u32)
    ensures
        value == COLOR_BUFFER_BIT,
{
    ogl33::GL_COLOR_BUFFER_BIT
}

/// The binding target that a buffer is bound to and uploaded through.
#[derive(Debug, Clone, Copy, PartialEq, Eq, Structural)]
pub enum BufferType {
    /// Array buffers hold the vertex data that is drawn.
    Array,
    /// Element array buffers hold the indices of the vertices to draw.
    ElementArray,
}

impl BufferType {
    /// The device's number for this target.
    pub open spec fn code(self) -> u32 {
        match self {
            BufferType::Array => ARRAY_BUFFER,
            BufferType::ElementArray => ELEMENT_ARRAY_BUFFER,
        }
    }

    /// The device's number for this target.
    pub fn gl_enum(self) -> (value: u32)
        ensures
            value == self.code(),
    {
        match self {
            BufferType::Array => gl_array_buffer(),
            BufferType::ElementArray => gl_element_array_buffer(),
        }
    }
}

/// The stage that a shader runs at.
#[derive(Debug, Clone, Copy, PartialEq, Eq, Structural)]
pub enum ShaderType {
    /// Vertex shaders place geometry on the screen.
    Vertex,
    /// Fragment shaders give the covered pixels their colour.
    Fragment,
}

impl ShaderType {
    /// The device's number for this stage.
    pub open spec fn code(self) -> u32 {
        match self {
            ShaderType::Vertex => VERTEX_SHADER,
            ShaderType::Fragment => FRAGMENT_SHADER,
        }
    }

    /// The device's number for this stage.
    pub fn gl_enum(self) -> (value: u32)
        ensures
            value == self.code(),
    {
        match self {
            ShaderType::Vertex => gl_vertex_shader(),
            ShaderType::Fragment => gl_fragment_shader(),
        }
    }
}

/// How polygons are rasterised.
#[derive(Debug, Clone, Copy, PartialEq, Eq, Structural)]
pub enum PolygonMode {
    /// Only the corner points.
    Point,
    /// Only the outlines.
    Line,
    /// The filled polygons.
    Fill,
}

impl PolygonMode {
    /// The device's number for this mode.
    pub open spec fn code(self) -> u32 {
        match self {
            PolygonMode::Point => POINT,
            PolygonMode::Line => LINE,
            PolygonMode::Fill => FILL,
        }
    }

    /// The device's number for this mode.
    pub fn gl_enum(self) -> (value: u32)
        ensures
            value == self.code(),
    {
        match self {
            PolygonMode::Point => gl_point(),
            PolygonMode::Line => gl_line(),
            PolygonMode::Fill => gl_fill(),
        }
    }
}

} // verus!
