use wgpucube::cube::Cube;
use wgpucube::geometry::{
    create_vertices, StepMode, Vertex, VertexAttribute, ATTRIBUTE_COMPONENTS, ATTRIBUTE_COUNT,
    COMPONENT_BYTES, CUBE_COLORS, CUBE_INDICES, CUBE_NORMALS, CUBE_VERTICES, INDEX_COUNT,
    VERTEX_COUNT,
};

fn sub(a: [i8; 3], b: [i8; 3]) -> [i32; 3] {
    [
        a[0] as i32 - b[0] as i32,
        a[1] as i32 - b[1] as i32,
        a[2] as i32 - b[2] as i32,
    ]
}

fn cross(a: [i32; 3], b: [i32; 3]) -> [i32; 3] {
    [
        a[1] * b[2] - a[2] * b[1],
        a[2] * b[0] - a[0] * b[2],
        a[0] * b[1] - a[1] * b[0],
    ]
}

#[test]
fn table_sizes() {
    assert_eq!(VERTEX_COUNT, 24);
    assert_eq!(INDEX_COUNT, 36);
    assert_eq!(CUBE_VERTICES.len(), VERTEX_COUNT);
    assert_eq!(CUBE_COLORS.len(), VERTEX_COUNT);
    assert_eq!(CUBE_NORMALS.len(), VERTEX_COUNT);
    assert_eq!(CUBE_INDICES.len(), INDEX_COUNT);
    assert_eq!(VERTEX_COUNT % 4, 0);
    assert_eq!(INDEX_COUNT % 6, 0);
}

#[test]
fn every_index_names_a_vertex() {
    for index in CUBE_INDICES {
        assert!(index < 24);
    }
}

#[test]
fn triangles_stay_within_their_face() {
    for (j, index) in CUBE_INDICES.iter().enumerate() {
        assert_eq!(*index as usize / 4, j / 6);
    }
}

#[test]
fn index_list_is_the_known_one() {
    let expected: [u16; 36] = [
        0, 1, 2, 1, 3, 2, 4, 5, 6, 5, 7, 6, 8, 9, 10, 9, 11, 10, 12, 13, 14, 13, 15, 14, 16, 17,
        18, 17, 19, 18, 20, 21, 22, 21, 23, 22,
    ];
    assert_eq!(CUBE_INDICES, expected);
}

#[test]
fn faces_share_one_normal() {
    for face in 0..6 {
        for corner in 1..4 {
            assert_eq!(CUBE_NORMALS[4 * face + corner], CUBE_NORMALS[4 * face]);
        }
    }
    assert_eq!(CUBE_NORMALS[0], [0, 0, 1]);
    assert_eq!(CUBE_NORMALS[4], [0, 0, -1]);
    assert_eq!(CUBE_NORMALS[8], [1, 0, 0]);
    assert_eq!(CUBE_NORMALS[12], [-1, 0, 0]);
    assert_eq!(CUBE_NORMALS[16], [0, 1, 0]);
    assert_eq!(CUBE_NORMALS[20], [0, -1, 0]);
}

#[test]
fn vertices_lie_on_their_faces() {
    for i in 0..24 {
        let p = CUBE_VERTICES[i];
        let n = CUBE_NORMALS[i];
        let dot = p[0] as i32 * n[0] as i32 + p[1] as i32 * n[1] as i32 + p[2] as i32 * n[2] as i32;
        assert_eq!(dot, 1);
    }
}

#[test]
fn colors_follow_positions() {
    for i in 0..24 {
        for axis in 0..3 {
            assert_eq!(CUBE_COLORS[i][axis], (CUBE_VERTICES[i][axis] + 1) / 2);
        }
    }
    assert_eq!(CUBE_COLORS[0], [0, 0, 1]);
    assert_eq!(CUBE_COLORS[3], [1, 1, 1]);
    assert_eq!(CUBE_COLORS[5], [0, 0, 0]);
}

#[test]
fn triangles_wind_counter_clockwise_seen_from_outside() {
    for t in 0..12 {
        let a = CUBE_VERTICES[CUBE_INDICES[3 * t] as usize];
        let b = CUBE_VERTICES[CUBE_INDICES[3 * t + 1] as usize];
        let c = CUBE_VERTICES[CUBE_INDICES[3 * t + 2] as usize];
        let n = CUBE_NORMALS[CUBE_INDICES[3 * t] as usize];
        let area = cross(sub(b, a), sub(c, a));
        assert_eq!(area, [4 * n[0] as i32, 4 * n[1] as i32, 4 * n[2] as i32]);
    }
}

#[test]
fn create_vertices_joins_rows() {
    let positions = [[1, 2, 3], [4, 5, 6]];
    let colors = [[0, 1, 0], [1, 0, 1]];
    let normals = [[0, 0, 1], [0, 0, -1]];
    let joined = create_vertices(&positions, &colors, &normals);
    assert_eq!(
        joined,
        vec![
            Vertex { position: [1, 2, 3], color: [0, 1, 0], normal: [0, 0, 1] },
            Vertex { position: [4, 5, 6], color: [1, 0, 1], normal: [0, 0, -1] },
        ]
    );
}

#[test]
fn create_vertices_of_nothing() {
    let none: [[i8; 3]; 0] = [];
    assert_eq!(create_vertices(&none, &none, &none), vec![]);
}

#[test]
fn cube_vertex_buffer_holds_the_tables() {
    let cube = Cube::new(wgpu::TextureFormat::Bgra8Unorm);
    let vertices = cube.vertex_buffer();
    assert_eq!(vertices.len(), 24);
    for i in 0..24 {
        assert_eq!(
            vertices[i],
            Vertex { position: CUBE_VERTICES[i], color: CUBE_COLORS[i], normal: CUBE_NORMALS[i] }
        );
    }
    assert_eq!(
        vertices[9],
        Vertex { position: [1, -1, -1], color: [1, 0, 0], normal: [1, 0, 0] }
    );
}

#[test]
fn buffer_layout_packs_three_attributes() {
    let layout = Vertex::buffer_layout();
    assert_eq!(layout.array_stride, 36);
    assert_eq!(layout.step_mode, StepMode::Vertex);
    assert_eq!(
        layout.attributes,
        vec![
            VertexAttribute { shader_location: 0, offset: 0, components: 3 },
            VertexAttribute { shader_location: 1, offset: 12, components: 3 },
            VertexAttribute { shader_location: 2, offset: 24, components: 3 },
        ]
    );
    assert_eq!(
        layout.array_stride,
        ATTRIBUTE_COUNT as u64 * ATTRIBUTE_COMPONENTS as u64 * COMPONENT_BYTES
    );
}

#[test]
fn index_buffer_holds_the_indices_in_memory_order() {
    let cube = Cube::new(wgpu::TextureFormat::Bgra8Unorm);
    let bytes = cube.index_buffer();
    assert_eq!(bytes.len(), 72);
    let mut expected = Vec::new();
    for index in CUBE_INDICES {
        expected.extend_from_slice(&index.to_ne_bytes());
    }
    assert_eq!(*bytes, expected);
    let low_first = (0..36).all(|i| {
        CUBE_INDICES[i] == bytes[2 * i] as u16 + 256 * bytes[2 * i + 1] as u16
    });
    let high_first = (0..36).all(|i| {
        CUBE_INDICES[i] == 256 * bytes[2 * i] as u16 + bytes[2 * i + 1] as u16
    });
    assert!(low_first || high_first);
}
