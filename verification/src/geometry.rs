//! Vertex and index data, their image in device memory, and the calls that
//! put them there.
//!
//! A vertex is three single-precision floats, held as their bit patterns; a
//! triangle is three vertex indices. Both are triples of 32-bit words, and
//! the device is sent the bytes of those words as they lie in memory.

use crate::buffer::{buffer_data, buffer_sub_data, VertexArray, VertexBuffer};
use crate::device::{issue, Call, DeviceCall};
use crate::gl::{gl_dynamic_draw, gl_false, gl_float, BufferType};
use crate::gl::{ARRAY_BUFFER, DYNAMIC_DRAW, ELEMENT_ARRAY_BUFFER, FALSE, FLOAT};
use crate::state::{patched, DeviceState};
use vstd::prelude::*;

verus! {

/// One point in space: the bit patterns of its x, y and z.
pub type Vertex = [u32; 3];

/// One triangle: the indices of its three vertices.
pub type TriIndexes = [u32; 3];

/// The size of a vertex in bytes, which is also that of a triangle's indices.
pub const VERTEX_SIZE: usize = 12;

/// The order in which the bytes of a word lie in memory.
#[derive(Debug, Clone, Copy, PartialEq, Eq, Structural)]
pub enum ByteOrder {
    /// The least significant byte first.
    Little,
    /// The most significant byte first.
    Big,
}

/// The four bytes of a word in the given order.
pub open spec fn word_bytes(order: ByteOrder, word: u32) -> Seq<u8> {
    let b0 = (word % 0x100) as u8;
    let b1 = (word / 0x100 % 0x100) as u8;
    let b2 = (word / 0x1_0000 % 0x100) as u8;
    let b3 = (word / 0x100_0000) as u8;
    match order {
        ByteOrder::Little => seq![b0, b1, b2, b3],
        ByteOrder::Big => seq![b3, b2, b1, b0],
    }
}

/// The twelve bytes of a triple of words.
pub open spec fn triple_bytes(order: ByteOrder, triple: [u32; 3]) -> Seq<u8> {
    word_bytes(order, triple[0]) + word_bytes(order, triple[1]) + word_bytes(order, triple[2])
}

/// The bytes of a sequence of triples: those of each triple, in order.
pub open spec fn image(order: ByteOrder, triples: Seq<[u32; 3]>) -> Seq<u8>
    decreases triples.len(),
{
    if triples.len() == 0 {
        Seq::empty()
    } else {
        image(order, triples.drop_last()) + triple_bytes(order, triples.last())
    }
}

/// Whether `bytes` are the bytes of `triples` in one of the two byte orders.
pub open spec fn native_image(bytes: Seq<u8>, triples: Seq<[u32; 3]>) -> bool {
    bytes == image(ByteOrder::Little, triples) || bytes == image(ByteOrder::Big, triples)
}

/// `bytemuck::cast_slice` from triples of 32-bit words to bytes: the memory
/// of the slice, read byte by byte. The triples lie there one after another
/// without gaps, each word in the byte order of the machine, which is either
/// little-endian or big-endian. A cast to bytes never fails.
#[verifier::external_body]
fn cast_triples(triples: &[[u32; 3]]) -> (bytes: &[u8])
    ensures
        native_image(bytes@, triples@),
{
    bytemuck::cast_slice(triples)
}

/// The calls that overwrite, in the vertex buffer `vbo`, the vertices from
/// the index `first` on by `verts`.
pub open spec fn patch_calls(
    order: ByteOrder,
    vao: u32,
    vbo: u32,
    first: int,
    verts: Seq<Vertex>,
) -> Seq<Call> {
    seq![
        Call::BindVertexArray { array: vao },
        Call::BindBuffer { target: ARRAY_BUFFER, buffer: vbo },
        Call::BufferSubData {
            target: ARRAY_BUFFER,
            offset: (first * VERTEX_SIZE) as isize,
            size: (verts.len() * VERTEX_SIZE) as isize,
            data: image(order, verts),
        },
    ]
}

/// The calls that fill the new vertex buffer `vbo` with `verts` and describe
/// its layout: attribute 0 is three floats per vertex, tightly packed, not
/// normalised.
pub open spec fn vbo_calls(order: ByteOrder, vao: u32, vbo: u32, verts: Seq<Vertex>) -> Seq<Call> {
    seq![
        Call::BindVertexArray { array: vao },
        Call::BindBuffer { target: ARRAY_BUFFER, buffer: vbo },
        Call::BufferData {
            target: ARRAY_BUFFER,
            size: (verts.len() * VERTEX_SIZE) as isize,
            data: image(order, verts),
            usage: DYNAMIC_DRAW,
        },
        Call::VertexAttribPointer {
            index: 0,
            components: 3,
            kind: FLOAT,
            normalized: FALSE,
            stride: VERTEX_SIZE as i32,
            start: 0,
        },
        Call::EnableVertexAttribArray { index: 0 },
    ]
}

/// The calls that fill the new index buffer `ebo` with `inds`.
pub open spec fn ebo_calls(order: ByteOrder, vao: u32, ebo: u32, inds: Seq<TriIndexes>) -> Seq<
    Call,
> {
    seq![
        Call::BindVertexArray { array: vao },
        Call::BindBuffer { target: ELEMENT_ARRAY_BUFFER, buffer: ebo },
        Call::BufferData {
            target: ELEMENT_ARRAY_BUFFER,
            size: (inds.len() * VERTEX_SIZE) as isize,
            data: image(order, inds),
            usage: DYNAMIC_DRAW,
        },
    ]
}

/// Overwrites the vertices of `vbo` from the index `vert_offset` on by
/// `verts`. The store keeps its size, so the vertices must lie within what an
/// earlier full upload has sized.
pub fn update_vbo(
    vert_offset: usize,
    vao: &VertexArray,
    vbo: VertexBuffer,
    verts: &Vec<Vertex>,
) -> (r: (VertexBuffer, Vec<DeviceCall>))
    requires
        vert_offset * VERTEX_SIZE <= isize::MAX,
        verts@.len() * VERTEX_SIZE <= isize::MAX,
    ensures
        r.0 == vbo,
        exists|order: ByteOrder|
            r.1.deep_view() == patch_calls(order, vao.0, vbo.0, vert_offset as int, verts@),
{
    let offset = vert_offset * VERTEX_SIZE;
    let bytes = cast_triples(verts.as_slice());
    proof {
        lemma_image_len(ByteOrder::Little, verts@);
        lemma_image_len(ByteOrder::Big, verts@);
    }
    let mut calls: Vec<DeviceCall> = Vec::new();
    issue(&mut calls, vao.bind());
    issue(&mut calls, vbo.bind(BufferType::Array));
    issue(&mut calls, buffer_sub_data(BufferType::Array, bytes, offset));
    proof {
        if bytes@ == image(ByteOrder::Little, verts@) {
            assert(calls.deep_view() =~= patch_calls(
                ByteOrder::Little,
                vao.0,
                vbo.0,
                vert_offset as int,
                verts@,
            ));
        } else {
            assert(calls.deep_view() =~= patch_calls(
                ByteOrder::Big,
                vao.0,
                vbo.0,
                vert_offset as int,
                verts@,
            ));
        }
    }
    (vbo, calls)
}

/// Overwrites the one vertex of `vbo` at the index `vertex_num` by `vert`.
pub fn update_single_vbo(
    vertex_num: usize,
    vao: &VertexArray,
    vbo: VertexBuffer,
    vert: Vertex,
) -> (r: (VertexBuffer, Vec<DeviceCall>))
    requires
        vertex_num * VERTEX_SIZE <= isize::MAX,
    ensures
        r.0 == vbo,
        exists|order: ByteOrder|
            r.1.deep_view() == patch_calls(order, vao.0, vbo.0, vertex_num as int, seq![vert]),
{
    let mut verts: Vec<Vertex> = Vec::new();
    verts.push(vert);
    update_vbo(vertex_num, vao, vbo, &verts)
}

/// Overwrites the vertices of `vbo` from the first on by `verts`.
pub fn update_whole_vbo(vao: &VertexArray, vbo: VertexBuffer, verts: &Vec<Vertex>) -> (r: (
    VertexBuffer,
    Vec<DeviceCall>,
))
    requires
        verts@.len() * VERTEX_SIZE <= isize::MAX,
    ensures
        r.0 == vbo,
        exists|order: ByteOrder| r.1.deep_view() == patch_calls(order, vao.0, vbo.0, 0, verts@),
{
    update_vbo(0, vao, vbo, verts)
}

/// The vertex buffer that the device named `handle` in answer to
/// [`DeviceCall::GenBuffers`], with the calls that bind it under `vao`, fill
/// it with `verts` and describe the layout of a vertex. Where the device
/// made no buffer there is nothing to fill.
pub fn create_vbo(vao: &VertexArray, handle: u32, verts: &Vec<Vertex>) -> (r: Result<
    (VertexBuffer, Vec<DeviceCall>),
    String,
>)
    requires
        verts@.len() * VERTEX_SIZE <= isize::MAX,
    ensures
        handle == 0 ==> (r matches Err(message) && message@
            == "Could not make Vertex Buffer Object"@),
        handle != 0 ==> (r matches Ok(made) && made.0 == VertexBuffer(handle) && exists|
            order: ByteOrder,
        |
            made.1.deep_view() == vbo_calls(order, vao.0, handle, verts@)),
{
    match VertexBuffer::new(handle) {
        None => Err("Could not make Vertex Buffer Object".to_owned()),
        Some(vbo) => {
            let bytes = cast_triples(verts.as_slice());
            proof {
                lemma_image_len(ByteOrder::Little, verts@);
                lemma_image_len(ByteOrder::Big, verts@);
            }
            let mut calls: Vec<DeviceCall> = Vec::new();
            issue(&mut calls, vao.bind());
            issue(&mut calls, vbo.bind(BufferType::Array));
            issue(&mut calls, buffer_data(BufferType::Array, bytes, gl_dynamic_draw()));
            issue(
                &mut calls,
                DeviceCall::VertexAttribPointer {
                    index: 0,
                    components: 3,
                    kind: gl_float(),
                    normalized: gl_false(),
                    stride: VERTEX_SIZE as i32,
                    start: 0,
                },
            );
            issue(&mut calls, DeviceCall::EnableVertexAttribArray { index: 0 });
            proof {
                if bytes@ == image(ByteOrder::Little, verts@) {
                    assert(calls.deep_view() =~= vbo_calls(
                        ByteOrder::Little,
                        vao.0,
                        handle,
                        verts@,
                    ));
                } else {
                    assert(calls.deep_view() =~= vbo_calls(ByteOrder::Big, vao.0, handle, verts@));
                }
            }
            Ok((vbo, calls))
        },
    }
}

/// The index buffer that the device named `handle` in answer to
/// [`DeviceCall::GenBuffers`], with the calls that bind it under `vao` and
/// fill it with `inds`. Where the device made no buffer there is nothing to
/// fill.
pub fn create_ebo(vao: &VertexArray, handle: u32, inds: &Vec<TriIndexes>) -> (r: Result<
    (VertexBuffer, Vec<DeviceCall>),
    String,
>)
    requires
        inds@.len() * VERTEX_SIZE <= isize::MAX,
    ensures
        handle == 0 ==> (r matches Err(message) && message@
            == "Could not make Element Buffer Object"@),
        handle != 0 ==> (r matches Ok(made) && made.0 == VertexBuffer(handle) && exists|
            order: ByteOrder,
        |
            made.1.deep_view() == ebo_calls(order, vao.0, handle, inds@)),
{
    match VertexBuffer::new(handle) {
        None => Err("Could not make Element Buffer Object".to_owned()),
        Some(ebo) => {
            let bytes = cast_triples(inds.as_slice());
            proof {
                lemma_image_len(ByteOrder::Little, inds@);
                lemma_image_len(ByteOrder::Big, inds@);
            }
            let mut calls: Vec<DeviceCall> = Vec::new();
            issue(&mut calls, vao.bind());
            issue(&mut calls, ebo.bind(BufferType::ElementArray));
            issue(&mut calls, buffer_data(BufferType::ElementArray, bytes, gl_dynamic_draw()));
            proof {
                if bytes@ == image(ByteOrder::Little, inds@) {
                    assert(calls.deep_view() =~= ebo_calls(
                        ByteOrder::Little,
                        vao.0,
                        handle,
                        inds@,
                    ));
                } else {
                    assert(calls.deep_view() =~= ebo_calls(ByteOrder::Big, vao.0, handle, inds@));
                }
            }
            Ok((ebo, calls))
        },
    }
}

/// Every triple takes twelve bytes.
pub proof fn lemma_image_len(order: ByteOrder, triples: Seq<[u32; 3]>)
    ensures
        image(order, triples).len() == triples.len() * VERTEX_SIZE,
    decreases triples.len(),
{
    if triples.len() > 0 {
        lemma_image_len(order, triples.drop_last());
    }
}

/// The image of a sequence is the images of its parts, one after the other.
pub proof fn lemma_image_concat(order: ByteOrder, a: Seq<[u32; 3]>, b: Seq<[u32; 3]>)
    ensures
        image(order, a + b) == image(order, a) + image(order, b),
    decreases b.len(),
{
    if b.len() == 0 {
    } else {
        lemma_image_concat(order, a, b.drop_last());
        assert((a + b).drop_last() =~= a + b.drop_last());
    }
}

/// Partial upload. In a store that holds the image of `verts`, writing the
/// image of one vertex at the byte offset of the vertex `index` leaves the
/// image of `verts` with that one vertex replaced: the store keeps its size,
/// and no other vertex changes.
pub proof fn lemma_patch_replaces_vertex(
    order: ByteOrder,
    verts: Seq<Vertex>,
    index: int,
    vert: Vertex,
)
    requires
        0 <= index < verts.len(),
    ensures
        patched(image(order, verts), index * VERTEX_SIZE, image(order, seq![vert])) == image(
            order,
            verts.update(index, vert),
        ),
{
    let before = verts.take(index);
    let after = verts.skip(index + 1);
    assert(verts =~= before + seq![verts[index]] + after);
    assert(verts.update(index, vert) =~= before + seq![vert] + after);
    lemma_image_concat(order, before, seq![verts[index]]);
    lemma_image_concat(order, before + seq![verts[index]], after);
    lemma_image_concat(order, before, seq![vert]);
    lemma_image_concat(order, before + seq![vert], after);
    lemma_image_len(order, before);
    lemma_image_len(order, seq![verts[index]]);
    lemma_image_len(order, seq![vert]);
    lemma_image_len(order, after);
}

/// Partial upload, call by call. On a device in any state, after the calls
/// that fill the new vertex buffer `vbo` with `verts`, the calls that
/// overwrite its vertex `index` by `vert` leave in that buffer the image of
/// `verts` with that one vertex replaced, and change the store of no other
/// buffer.
pub proof fn lemma_partial_upload(
    order: ByteOrder,
    device: DeviceState,
    vao: u32,
    vbo: u32,
    verts: Seq<Vertex>,
    index: int,
    vert: Vertex,
    other: u32,
)
    requires
        vbo != 0,
        other != vbo,
        0 <= index < verts.len(),
        verts.len() * VERTEX_SIZE <= isize::MAX,
    ensures
        ({
            let sized = device.after_all(vbo_calls(order, vao, vbo, verts));
            let end = sized.after_all(patch_calls(order, vao, vbo, index, seq![vert]));
            &&& sized.store(vbo) == image(order, verts)
            &&& end.store(vbo) == image(order, verts.update(index, vert))
            &&& end.store(other) == device.store(other)
        }),
{
    let sized = device.after_all(vbo_calls(order, vao, vbo, verts));
    assert(sized.store(vbo) == image(order, verts) && sized.store(other) == device.store(other)) by {
        reveal_with_fuel(DeviceState::after_all, 6);
    }
    lemma_image_len(order, verts);
    lemma_image_len(order, seq![vert]);
    lemma_patch_replaces_vertex(order, verts, index, vert);
    let end = sized.after_all(patch_calls(order, vao, vbo, index, seq![vert]));
    assert(end.store(vbo) == patched(sized.store(vbo), index * VERTEX_SIZE, image(order, seq![vert]))
        && end.store(other) == sized.store(other)) by {
        reveal_with_fuel(DeviceState::after_all, 4);
    }
}

} // verus!
