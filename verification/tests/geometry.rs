use pentagon::geometry::{
    IndexBuffer, Vertex, detached_indices, index_bytes, pentagon_indices, pentagon_vertices,
    vertex_bytes,
};

fn le_f32(x: f32) -> [u8; 4] {
    x.to_le_bytes()
}

#[test]
fn vertex_bits_are_the_pentagon_floats() {
    let vs = pentagon_vertices();
    let floats: [([f32; 3], [f32; 2]); 5] = [
        ([-0.0868241, 0.49240386, 0.0], [0.4131759, 0.00759614]),
        ([-0.49513406, 0.06958647, 0.0], [0.0048659444, 0.43041354]),
        ([-0.21918549, -0.44939706, 0.0], [0.28081453, 0.949397057]),
        ([0.35966998, -0.3473291, 0.0], [0.85967, 0.84732911]),
        ([0.44147372, 0.2347359, 0.0], [0.9414737, 0.2652641]),
    ];
    assert_eq!(vs.len(), 5);
    for (v, (p, t)) in vs.iter().zip(floats.iter()) {
        assert_eq!(v.position_x_bits, p[0].to_bits());
        assert_eq!(v.position_y_bits, p[1].to_bits());
        assert_eq!(v.position_z_bits, p[2].to_bits());
        assert_eq!(v.tex_u_bits, t[0].to_bits());
        assert_eq!(v.tex_v_bits, t[1].to_bits());
    }
}

#[test]
fn vertex_bytes_match_packed_floats() {
    let vs = pentagon_vertices();
    let bytes = vertex_bytes(&vs);
    assert_eq!(bytes.len(), 100);
    let floats: [f32; 25] = [
        -0.0868241,
        0.49240386,
        0.0,
        0.4131759,
        0.00759614,
        -0.49513406,
        0.06958647,
        0.0,
        0.0048659444,
        0.43041354,
        -0.21918549,
        -0.44939706,
        0.0,
        0.28081453,
        0.949397057,
        0.35966998,
        -0.3473291,
        0.0,
        0.85967,
        0.84732911,
        0.44147372,
        0.2347359,
        0.0,
        0.9414737,
        0.2652641,
    ];
    let mut expected: Vec<u8> = Vec::new();
    for f in floats.iter() {
        expected.extend_from_slice(&le_f32(*f));
    }
    assert_eq!(bytes, expected);
}

#[test]
fn vertex_stride_is_20_bytes() {
    let one = vec![Vertex {
        position_x_bits: 1,
        position_y_bits: 2,
        position_z_bits: 3,
        tex_u_bits: 4,
        tex_v_bits: 5,
    }];
    assert_eq!(vertex_bytes(&one).len(), 20);
}

#[test]
fn primary_indices_are_the_fan() {
    assert_eq!(pentagon_indices(), vec![0u16, 1, 4, 1, 2, 4, 2, 3, 4]);
}

#[test]
fn secondary_indices_are_the_detached_triangles() {
    assert_eq!(detached_indices(), vec![0u16, 1, 4, 2, 3, 4]);
}

#[test]
fn primary_buffer_is_padded_to_alignment() {
    let b = IndexBuffer::from_indices(pentagon_indices());
    assert_eq!(b.logical_count, 9);
    assert_eq!(b.data, vec![0u16, 1, 4, 1, 2, 4, 2, 3, 4, 0]);
    assert_eq!(b.byte_len() % 4, 0);
    assert!(b.logical_count as usize <= b.data.len());
}

#[test]
fn secondary_buffer_needs_no_pad() {
    let b = IndexBuffer::from_indices(detached_indices());
    assert_eq!(b.logical_count, 6);
    assert_eq!(b.data, vec![0u16, 1, 4, 2, 3, 4]);
    assert_eq!(b.byte_len() % 4, 0);
    assert!(b.logical_count as usize <= b.data.len());
}

#[test]
fn index_bytes_are_little_endian() {
    let b = index_bytes(&vec![0x0102u16, 0x0304u16]);
    assert_eq!(b, vec![0x02u8, 0x01, 0x04, 0x03]);
    let fan = index_bytes(&IndexBuffer::from_indices(pentagon_indices()).data);
    assert_eq!(fan.len(), 20);
    assert_eq!(fan.len() % 4, 0);
}
