use rust_cad::{
    create_ebo, create_vbo, update_single_vbo, update_vbo, update_whole_vbo, DeviceCall,
    TriIndexes, Vertex, VertexArray, VertexBuffer,
};

fn bits(x: f32, y: f32, z: f32) -> Vertex {
    [x.to_bits(), y.to_bits(), z.to_bits()]
}

fn memory_of(triples: &[[u32; 3]]) -> Vec<u8> {
    let mut bytes = Vec::new();
    for triple in triples {
        for word in triple {
            bytes.extend_from_slice(&word.to_ne_bytes());
        }
    }
    bytes
}

fn floats_of(bytes: &[u8]) -> Vec<f32> {
    bytes
        .chunks(4)
        .map(|chunk| f32::from_ne_bytes([chunk[0], chunk[1], chunk[2], chunk[3]]))
        .collect()
}

fn quad() -> Vec<Vertex> {
    vec![
        bits(0.5, 0.5, 0.0),
        bits(0.5, -0.5, 0.0),
        bits(-0.5, -0.5, 0.0),
        bits(-0.5, 0.5, 0.0),
    ]
}

fn store_after(store: &mut Vec<u8>, call: &DeviceCall) {
    match call {
        DeviceCall::BufferData { data, .. } => *store = data.clone(),
        DeviceCall::BufferSubData { offset, data, .. } => {
            let start = *offset as usize;
            store[start..start + data.len()].copy_from_slice(data);
        }
        _ => {}
    }
}

#[test]
fn create_vbo_fills_the_buffer_and_describes_a_vertex() {
    let vao = VertexArray(4);
    let (vbo, calls) = create_vbo(&vao, 5, &quad()).unwrap();
    assert_eq!(vbo, VertexBuffer(5));
    assert_eq!(
        calls,
        vec![
            DeviceCall::BindVertexArray { array: 4 },
            DeviceCall::BindBuffer { target: ogl33::GL_ARRAY_BUFFER, buffer: 5 },
            DeviceCall::BufferData {
                target: ogl33::GL_ARRAY_BUFFER,
                size: 48,
                data: memory_of(&quad()),
                usage: ogl33::GL_DYNAMIC_DRAW,
            },
            DeviceCall::VertexAttribPointer {
                index: 0,
                components: 3,
                kind: ogl33::GL_FLOAT,
                normalized: ogl33::GL_FALSE,
                stride: 12,
                start: 0,
            },
            DeviceCall::EnableVertexAttribArray { index: 0 },
        ]
    );
}

#[test]
fn create_vbo_sends_the_floats_as_they_lie_in_memory() {
    let (_, calls) = create_vbo(&VertexArray(4), 5, &quad()).unwrap();
    match &calls[2] {
        DeviceCall::BufferData { data, .. } => {
            assert_eq!(
                floats_of(data),
                vec![0.5, 0.5, 0.0, 0.5, -0.5, 0.0, -0.5, -0.5, 0.0, -0.5, 0.5, 0.0]
            );
            assert_eq!(data.as_slice(), bytemuck::cast_slice::<[u32; 3], u8>(&quad()));
        }
        other => panic!("not an upload: {:?}", other),
    }
}

#[test]
fn create_vbo_fails_where_the_device_makes_no_buffer() {
    let made = create_vbo(&VertexArray(4), 0, &quad());
    assert_eq!(made, Err("Could not make Vertex Buffer Object".to_string()));
}

#[test]
fn create_vbo_of_no_vertices_is_an_empty_store() {
    let (_, calls) = create_vbo(&VertexArray(4), 5, &Vec::new()).unwrap();
    assert_eq!(
        calls[2],
        DeviceCall::BufferData { target: 0x8892, size: 0, data: vec![], usage: 0x88E8 }
    );
}

#[test]
fn create_ebo_fills_the_index_buffer() {
    let inds: Vec<TriIndexes> = vec![[0, 1, 3], [1, 2, 3]];
    let (ebo, calls) = create_ebo(&VertexArray(4), 6, &inds).unwrap();
    assert_eq!(ebo, VertexBuffer(6));
    assert_eq!(
        calls,
        vec![
            DeviceCall::BindVertexArray { array: 4 },
            DeviceCall::BindBuffer { target: ogl33::GL_ELEMENT_ARRAY_BUFFER, buffer: 6 },
            DeviceCall::BufferData {
                target: ogl33::GL_ELEMENT_ARRAY_BUFFER,
                size: 24,
                data: memory_of(&inds),
                usage: ogl33::GL_DYNAMIC_DRAW,
            },
        ]
    );
    match &calls[2] {
        DeviceCall::BufferData { data, .. } => {
            let words: Vec<u32> = data
                .chunks(4)
                .map(|chunk| u32::from_ne_bytes([chunk[0], chunk[1], chunk[2], chunk[3]]))
                .collect();
            assert_eq!(words, vec![0, 1, 3, 1, 2, 3]);
        }
        other => panic!("not an upload: {:?}", other),
    }
}

#[test]
fn create_ebo_fails_where_the_device_makes_no_buffer() {
    let inds: Vec<TriIndexes> = vec![[0, 1, 3], [1, 2, 3]];
    let made = create_ebo(&VertexArray(4), 0, &inds);
    assert_eq!(made, Err("Could not make Element Buffer Object".to_string()));
}

#[test]
fn update_vbo_writes_from_the_offset_of_the_vertex() {
    let verts = vec![bits(1.0, 2.0, 3.0), bits(4.0, 5.0, 6.0)];
    let (vbo, calls) = update_vbo(3, &VertexArray(4), VertexBuffer(5), &verts);
    assert_eq!(vbo, VertexBuffer(5));
    assert_eq!(
        calls,
        vec![
            DeviceCall::BindVertexArray { array: 4 },
            DeviceCall::BindBuffer { target: 0x8892, buffer: 5 },
            DeviceCall::BufferSubData {
                target: 0x8892,
                offset: 36,
                size: 24,
                data: memory_of(&verts),
            },
        ]
    );
}

#[test]
fn update_single_vbo_writes_one_vertex() {
    let vert = bits(0.25, -8.0, 1.5);
    let (vbo, calls) = update_single_vbo(2, &VertexArray(4), VertexBuffer(5), vert);
    assert_eq!(vbo, VertexBuffer(5));
    assert_eq!(
        calls,
        vec![
            DeviceCall::BindVertexArray { array: 4 },
            DeviceCall::BindBuffer { target: 0x8892, buffer: 5 },
            DeviceCall::BufferSubData {
                target: 0x8892,
                offset: 24,
                size: 12,
                data: memory_of(&[vert]),
            },
        ]
    );
    let (_, calls) = update_single_vbo(0, &VertexArray(4), VertexBuffer(5), vert);
    match &calls[2] {
        DeviceCall::BufferSubData { offset, data, .. } => {
            assert_eq!(*offset, 0);
            assert_eq!(floats_of(data), vec![0.25, -8.0, 1.5]);
        }
        other => panic!("not an upload: {:?}", other),
    }
}

#[test]
fn update_whole_vbo_writes_from_the_start() {
    let (vbo, calls) = update_whole_vbo(&VertexArray(4), VertexBuffer(5), &quad());
    assert_eq!(vbo, VertexBuffer(5));
    assert_eq!(
        calls,
        vec![
            DeviceCall::BindVertexArray { array: 4 },
            DeviceCall::BindBuffer { target: 0x8892, buffer: 5 },
            DeviceCall::BufferSubData {
                target: 0x8892,
                offset: 0,
                size: 48,
                data: memory_of(&quad()),
            },
        ]
    );
}

#[test]
fn partial_upload_changes_one_vertex_only() {
    let vao = VertexArray(4);
    let mut store = vec![0xAAu8; 7];
    let (vbo, calls) = create_vbo(&vao, 5, &quad()).unwrap();
    for call in &calls {
        store_after(&mut store, call);
    }
    assert_eq!(store, memory_of(&quad()));
    let replacement = bits(9.0, 8.0, 7.0);
    let (_, calls) = update_single_vbo(2, &vao, vbo, replacement);
    for call in &calls {
        store_after(&mut store, call);
    }
    assert_eq!(store.len(), 48);
    assert_eq!(
        floats_of(&store),
        vec![0.5, 0.5, 0.0, 0.5, -0.5, 0.0, 9.0, 8.0, 7.0, -0.5, 0.5, 0.0]
    );
    let mut expected = quad();
    expected[2] = replacement;
    assert_eq!(store, memory_of(&expected));
}
