use rust_cad::gl;
use rust_cad::{
    buffer_data, buffer_sub_data, clear_color, polygon_mode, BufferType, DeviceCall, PolygonMode,
    ShaderType, VertexArray, VertexBuffer,
};

#[test]
fn codes_are_those_of_the_bindings() {
    assert_eq!(BufferType::Array.gl_enum(), ogl33::GL_ARRAY_BUFFER);
    assert_eq!(BufferType::ElementArray.gl_enum(), ogl33::GL_ELEMENT_ARRAY_BUFFER);
    assert_eq!(ShaderType::Vertex.gl_enum(), ogl33::GL_VERTEX_SHADER);
    assert_eq!(ShaderType::Fragment.gl_enum(), ogl33::GL_FRAGMENT_SHADER);
    assert_eq!(PolygonMode::Point.gl_enum(), ogl33::GL_POINT);
    assert_eq!(PolygonMode::Line.gl_enum(), ogl33::GL_LINE);
    assert_eq!(PolygonMode::Fill.gl_enum(), ogl33::GL_FILL);
}

#[test]
fn codes_have_their_documented_values() {
    assert_eq!(BufferType::Array.gl_enum(), 0x8892);
    assert_eq!(BufferType::ElementArray.gl_enum(), 0x8893);
    assert_eq!(ShaderType::Vertex.gl_enum(), 0x8B31);
    assert_eq!(ShaderType::Fragment.gl_enum(), 0x8B30);
    assert_eq!(PolygonMode::Point.gl_enum(), 0x1B00);
    assert_eq!(PolygonMode::Line.gl_enum(), 0x1B01);
    assert_eq!(PolygonMode::Fill.gl_enum(), 0x1B02);
}

#[test]
fn named_constants_are_those_of_the_bindings() {
    assert_eq!(gl::ARRAY_BUFFER, ogl33::GL_ARRAY_BUFFER);
    assert_eq!(gl::ELEMENT_ARRAY_BUFFER, ogl33::GL_ELEMENT_ARRAY_BUFFER);
    assert_eq!(gl::VERTEX_SHADER, ogl33::GL_VERTEX_SHADER);
    assert_eq!(gl::FRAGMENT_SHADER, ogl33::GL_FRAGMENT_SHADER);
    assert_eq!(gl::POINT, ogl33::GL_POINT);
    assert_eq!(gl::LINE, ogl33::GL_LINE);
    assert_eq!(gl::FILL, ogl33::GL_FILL);
    assert_eq!(gl::FRONT_AND_BACK, ogl33::GL_FRONT_AND_BACK);
    assert_eq!(gl::TRUE, ogl33::GL_TRUE);
    assert_eq!(gl::FALSE, ogl33::GL_FALSE);
    assert_eq!(gl::COMPILE_STATUS, ogl33::GL_COMPILE_STATUS);
    assert_eq!(gl::LINK_STATUS, ogl33::GL_LINK_STATUS);
    assert_eq!(gl::INFO_LOG_LENGTH, ogl33::GL_INFO_LOG_LENGTH);
    assert_eq!(gl::DYNAMIC_DRAW, ogl33::GL_DYNAMIC_DRAW);
    assert_eq!(gl::FLOAT, ogl33::GL_FLOAT);
    assert_eq!(gl::UNSIGNED_INT, ogl33::GL_UNSIGNED_INT);
    assert_eq!(gl::TRIANGLES, ogl33::GL_TRIANGLES);
    assert_eq!(gl::COLOR_BUFFER_BIT, ogl33::GL_COLOR_BUFFER_BIT);
}

#[test]
fn vertex_array_needs_a_name() {
    assert_eq!(VertexArray::new(0), None);
    assert_eq!(VertexArray::new(1), Some(VertexArray(1)));
    assert_eq!(VertexArray::new(u32::MAX), Some(VertexArray(u32::MAX)));
}

#[test]
fn vertex_array_binds_itself_and_clears_to_none() {
    let vao = VertexArray::new(9).unwrap();
    assert_eq!(vao.0, 9);
    assert_eq!(vao.bind(), DeviceCall::BindVertexArray { array: 9 });
    assert_eq!(VertexArray::clear_binding(), DeviceCall::BindVertexArray { array: 0 });
}

#[test]
fn vertex_buffer_needs_a_name() {
    assert_eq!(VertexBuffer::new(0), None);
    assert_eq!(VertexBuffer::new(12), Some(VertexBuffer(12)));
}

#[test]
fn vertex_buffer_binds_at_the_given_target() {
    let vbo = VertexBuffer::new(5).unwrap();
    assert_eq!(
        vbo.bind(BufferType::Array),
        DeviceCall::BindBuffer { target: 0x8892, buffer: 5 }
    );
    assert_eq!(
        vbo.bind(BufferType::ElementArray),
        DeviceCall::BindBuffer { target: 0x8893, buffer: 5 }
    );
    assert_eq!(
        VertexBuffer::clear_bind(BufferType::Array),
        DeviceCall::BindBuffer { target: 0x8892, buffer: 0 }
    );
    assert_eq!(
        VertexBuffer::clear_bind(BufferType::ElementArray),
        DeviceCall::BindBuffer { target: 0x8893, buffer: 0 }
    );
}

#[test]
fn full_upload_carries_the_bytes_and_their_count() {
    let call = buffer_data(BufferType::Array, &[1, 2, 3, 4, 5], ogl33::GL_DYNAMIC_DRAW);
    assert_eq!(
        call,
        DeviceCall::BufferData { target: 0x8892, size: 5, data: vec![1, 2, 3, 4, 5], usage: 0x88E8 }
    );
}

#[test]
fn full_upload_of_nothing_is_an_empty_store() {
    let call = buffer_data(BufferType::ElementArray, &[], ogl33::GL_STATIC_DRAW);
    assert_eq!(
        call,
        DeviceCall::BufferData { target: 0x8893, size: 0, data: vec![], usage: 0x88E4 }
    );
}

#[test]
fn partial_upload_carries_offset_bytes_and_count() {
    let call = buffer_sub_data(BufferType::Array, &[7, 8, 9], 24);
    assert_eq!(
        call,
        DeviceCall::BufferSubData { target: 0x8892, offset: 24, size: 3, data: vec![7, 8, 9] }
    );
    let call = buffer_sub_data(BufferType::ElementArray, &[], 0);
    assert_eq!(
        call,
        DeviceCall::BufferSubData { target: 0x8893, offset: 0, size: 0, data: vec![] }
    );
}

#[test]
fn clear_color_carries_the_bits_of_its_components() {
    let call = clear_color(0.2f32.to_bits(), 0.3f32.to_bits(), 0.3f32.to_bits(), 1.0f32.to_bits());
    assert_eq!(
        call,
        DeviceCall::ClearColor {
            red: 0x3E4C_CCCD,
            green: 0x3E99_999A,
            blue: 0x3E99_999A,
            alpha: 0x3F80_0000
        }
    );
}

#[test]
fn polygon_mode_sets_both_faces() {
    assert_eq!(
        polygon_mode(PolygonMode::Point),
        DeviceCall::PolygonMode { face: ogl33::GL_FRONT_AND_BACK, mode: ogl33::GL_POINT }
    );
    assert_eq!(
        polygon_mode(PolygonMode::Line),
        DeviceCall::PolygonMode { face: 0x0408, mode: 0x1B01 }
    );
    assert_eq!(
        polygon_mode(PolygonMode::Fill),
        DeviceCall::PolygonMode { face: 0x0408, mode: 0x1B02 }
    );
}
