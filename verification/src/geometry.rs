//! The cube's mesh: one table per vertex attribute, and the triangle list.
//!
//! Every coordinate of the mesh is -1, 0 or 1, so the tables hold small
//! integers. Whoever fills a vertex buffer widens each to the floating-point
//! number of the same value.
use vstd::prelude::*;

verus! {

/// A point or a direction in space, with whole coordinates.
pub struct Vector {
    pub x: int,
    pub y: int,
    pub z: int,
}

impl Vector {
    pub open spec fn plus(self, other: Vector) -> Vector {
        Vector { x: self.x + other.x, y: self.y + other.y, z: self.z + other.z }
    }

    pub open spec fn minus(self, other: Vector) -> Vector {
        Vector { x: self.x - other.x, y: self.y - other.y, z: self.z - other.z }
    }

    pub open spec fn dot(self, other: Vector) -> int {
        self.x * other.x + self.y * other.y + self.z * other.z
    }

    pub open spec fn cross(self, other: Vector) -> Vector {
        Vector {
            x: self.y * other.z - self.z * other.y,
            y: self.z * other.x - self.x * other.z,
            z: self.x * other.y - self.y * other.x,
        }
    }
}

/// The vector that a row of a table stands for.
pub open spec fn vector_of(row: [i8; 3]) -> Vector {
    Vector { x: row@[0] as int, y: row@[1] as int, z: row@[2] as int }
}

/// The direction in which a face looks: front, back, right, left, top, bottom.
pub open spec fn face_normal(face: int) -> Vector {
    if face == 0 {
        Vector { x: 0, y: 0, z: 1 }
    } else if face == 1 {
        Vector { x: 0, y: 0, z: -1 }
    } else if face == 2 {
        Vector { x: 1, y: 0, z: 0 }
    } else if face == 3 {
        Vector { x: -1, y: 0, z: 0 }
    } else if face == 4 {
        Vector { x: 0, y: 1, z: 0 }
    } else {
        Vector { x: 0, y: -1, z: 0 }
    }
}

/// The direction along which the corners of a face are numbered first.
pub open spec fn face_right(face: int) -> Vector {
    if face == 1 {
        Vector { x: -1, y: 0, z: 0 }
    } else if face == 2 {
        Vector { x: 0, y: 0, z: -1 }
    } else if face == 3 {
        Vector { x: 0, y: 0, z: 1 }
    } else {
        Vector { x: 1, y: 0, z: 0 }
    }
}

/// The direction along which the corners of a face are numbered second.
pub open spec fn face_up(face: int) -> Vector {
    if face == 4 {
        Vector { x: 0, y: 0, z: -1 }
    } else if face == 5 {
        Vector { x: 0, y: 0, z: 1 }
    } else {
        Vector { x: 0, y: 1, z: 0 }
    }
}

/// Where vertex `i` lies. Vertices come four to a face; within a face the
/// corner number counts first along `face_right`, then along `face_up`.
pub open spec fn corner_position(i: int) -> Vector {
    let face = i / 4;
    let corner = i % 4;
    let along = if corner % 2 == 0 {
        face_normal(face).minus(face_right(face))
    } else {
        face_normal(face).plus(face_right(face))
    };
    if corner / 2 == 0 {
        along.minus(face_up(face))
    } else {
        along.plus(face_up(face))
    }
}

/// The colour of vertex `i`: its position, moved from the cube between -1 and
/// 1 into the colour cube between 0 and 1.
pub open spec fn corner_color(i: int) -> Vector {
    let p = corner_position(i);
    Vector { x: (p.x + 1) / 2, y: (p.y + 1) / 2, z: (p.z + 1) / 2 }
}

/// The normal of vertex `i`: that of its face.
pub open spec fn corner_normal(i: int) -> Vector {
    face_normal(i / 4)
}

/// Entry `j` of the triangle list. Each face is cut into the triangles of
/// its corners 0, 1, 2 and 1, 3, 2.
pub open spec fn triangle_index(j: int) -> int {
    let k = j % 6;
    4 * (j / 6) + if k == 0 {
        0int
    } else if k == 1 || k == 3 {
        1int
    } else if k == 4 {
        3int
    } else {
        2int
    }
}

pub const VERTEX_COUNT: usize = 24;

pub const INDEX_COUNT: usize = 36;

pub const CUBE_VERTICES: [[i8; 3]; 24] = [
    // Front
    [-1, -1, 1],
    [1, -1, 1],
    [-1, 1, 1],
    [1, 1, 1],
    // Back
    [1, -1, -1],
    [-1, -1, -1],
    [1, 1, -1],
    [-1, 1, -1],
    // Right
    [1, -1, 1],
    [1, -1, -1],
    [1, 1, 1],
    [1, 1, -1],
    // Left
    [-1, -1, -1],
    [-1, -1, 1],
    [-1, 1, -1],
    [-1, 1, 1],
    // Top
    [-1, 1, 1],
    [1, 1, 1],
    [-1, 1, -1],
    [1, 1, -1],
    // Bottom
    [-1, -1, -1],
    [1, -1, -1],
    [-1, -1, 1],
    [1, -1, 1],
];

pub const CUBE_COLORS: [[i8; 3]; 24] = [
    // Front
    [0, 0, 1],  // blue
    [1, 0, 1],  // magenta
    [0, 1, 1],  // cyan
    [1, 1, 1],  // white
    // Back
    [1, 0, 0],  // red
    [0, 0, 0],  // black
    [1, 1, 0],  // yellow
    [0, 1, 0],  // green
    // Right
    [1, 0, 1],  // magenta
    [1, 0, 0],  // red
    [1, 1, 1],  // white
    [1, 1, 0],  // yellow
    // Left
    [0, 0, 0],  // black
    [0, 0, 1],  // blue
    [0, 1, 0],  // green
    [0, 1, 1],  // cyan
    // Top
    [0, 1, 1],  // cyan
    [1, 1, 1],  // white
    [0, 1, 0],  // green
    [1, 1, 0],  // yellow
    // Bottom
    [0, 0, 0],  // black
    [1, 0, 0],  // red
    [0, 0, 1],  // blue
    [1, 0, 1],  // magenta
];

pub const CUBE_NORMALS: [[i8; 3]; 24] = [
    // Front
    [0, 0, 1],
    [0, 0, 1],
    [0, 0, 1],
    [0, 0, 1],
    // Back
    [0, 0, -1],
    [0, 0, -1],
    [0, 0, -1],
    [0, 0, -1],
    // Right
    [1, 0, 0],
    [1, 0, 0],
    [1, 0, 0],
    [1, 0, 0],
    // Left
    [-1, 0, 0],
    [-1, 0, 0],
    [-1, 0, 0],
    [-1, 0, 0],
    // Top
    [0, 1, 0],
    [0, 1, 0],
    [0, 1, 0],
    [0, 1, 0],
    // Bottom
    [0, -1, 0],
    [0, -1, 0],
    [0, -1, 0],
    [0, -1, 0],
];

pub const CUBE_INDICES: [u16; 36] = [
    // Two triangles to a face, so six entries to a face
    0, 1, 2, 1, 3, 2,  // Front
    4, 5, 6, 5, 7, 6,  // Back
    8, 9, 10, 9, 11, 10,  // Right
    12, 13, 14, 13, 15, 14,  // Left
    16, 17, 18, 17, 19, 18,  // Top
    20, 21, 22, 21, 23, 22,  // Bottom
];

/// One corner of the mesh as the vertex stage reads it.
#[derive(Clone, Copy, Debug, PartialEq, Eq)]
pub struct Vertex {
    pub position: [i8; 3],
    pub color: [i8; 3],
    pub normal: [i8; 3],
}

/// Vertex `i` of the cube.
pub open spec fn cube_vertex(i: int) -> Vertex {
    Vertex { position: CUBE_VERTICES@[i], color: CUBE_COLORS@[i], normal: CUBE_NORMALS@[i] }
}

/// The cube's vertices, in the order of the tables.
pub open spec fn cube_vertices() -> Seq<Vertex> {
    Seq::new(24, |i: int| cube_vertex(i))
}

/// A mesh that can be drawn face by face: four vertices and six indices to a
/// face, and no index beyond the vertices.
pub open spec fn mesh_well_formed(vertices: Seq<Vertex>, indices: Seq<u16>) -> bool {
    &&& vertices.len() % 4 == 0
    &&& indices.len() % 6 == 0
    &&& forall|j: int| 0 <= j < indices.len() ==> (#[trigger] indices[j]) < vertices.len()
}

/// Joins three tables of equal length into one list of vertices, row by row.
pub fn create_vertices<const N: usize>(
    vertices: &[[i8; 3]; N],
    colors: &[[i8; 3]; N],
    normals: &[[i8; 3]; N],
) -> (joined: Vec<Vertex>)
    ensures
        joined@.len() == N,
        forall|i: int|
            0 <= i < N ==> #[trigger] joined@[i] == (Vertex {
                position: vertices@[i],
                color: colors@[i],
                normal: normals@[i],
            }),
{
    let mut joined: Vec<Vertex> = Vec::new();
    let mut i: usize = 0;
    while i < N
        invariant
            i <= N,
            joined@.len() == i,
            forall|k: int|
                0 <= k < i ==> #[trigger] joined@[k] == (Vertex {
                    position: vertices@[k],
                    color: colors@[k],
                    normal: normals@[k],
                }),
        decreases N - i,
    {
        joined.push(Vertex { position: vertices[i], color: colors[i], normal: normals[i] });
        i += 1;
    }
    joined
}

/// The tables say what the model says: each vertex lies where its corner of
/// its face lies, is coloured by its position and looks where its face looks.
pub proof fn lemma_tables_follow_model(i: int)
    requires
        0 <= i < 24,
    ensures
        vector_of(cube_vertex(i).position) == corner_position(i),
        vector_of(cube_vertex(i).color) == corner_color(i),
        vector_of(cube_vertex(i).normal) == corner_normal(i),
{
}

/// The triangle list says what the model says.
pub proof fn lemma_indices_follow_model(j: int)
    requires
        0 <= j < 36,
    ensures
        CUBE_INDICES@[j] == triangle_index(j),
{
}

/// Every index names one of the 24 vertices, and a triangle stays within one
/// face: its three indices name vertices of the face that it belongs to.
pub proof fn lemma_indices_in_range(j: int)
    requires
        0 <= j < 36,
    ensures
        CUBE_INDICES@[j] < 24,
        CUBE_INDICES@[j] / 4 == j / 6,
{
}

/// The cube's mesh is well formed.
pub proof fn lemma_cube_mesh_well_formed()
    ensures
        mesh_well_formed(cube_vertices(), CUBE_INDICES@),
{
    assert forall|j: int| 0 <= j < CUBE_INDICES@.len() implies (#[trigger] CUBE_INDICES@[j])
        < cube_vertices().len() by {
        lemma_indices_in_range(j);
    }
}

/// The four vertices of a face carry one normal.
pub proof fn lemma_face_shares_normal(i: int, k: int)
    requires
        0 <= i < 24,
        0 <= k < 24,
        i / 4 == k / 4,
    ensures
        cube_vertex(i).normal == cube_vertex(k).normal,
{
    lemma_tables_follow_model(i);
    lemma_tables_follow_model(k);
    assert(cube_vertex(i).normal@ =~= cube_vertex(k).normal@);
}

/// What a product is when its first factor is a small whole number.
proof fn lemma_small_product(a: int, b: int)
    ensures
        a == 0 ==> a * b == 0,
        a == 1 ==> a * b == b,
        a == -1 ==> a * b == -b,
        a == 2 ==> a * b == b + b,
        a == -2 ==> a * b == -b - b,
{
    assert(a == 0 ==> a * b == 0) by (nonlinear_arith);
    assert(a == 1 ==> a * b == b) by (nonlinear_arith);
    assert(a == -1 ==> a * b == -b) by (nonlinear_arith);
    assert(a == 2 ==> a * b == b + b) by (nonlinear_arith);
    assert(a == -2 ==> a * b == -b - b) by (nonlinear_arith);
}

/// Every vertex lies on the plane of its face, one unit from the centre along
/// the normal.
pub proof fn lemma_vertex_on_face(i: int)
    requires
        0 <= i < 24,
    ensures
        vector_of(cube_vertex(i).position).dot(vector_of(cube_vertex(i).normal)) == 1,
{
    let p = vector_of(cube_vertex(i).position);
    let n = vector_of(cube_vertex(i).normal);
    lemma_small_product(p.x, n.x);
    lemma_small_product(p.y, n.y);
    lemma_small_product(p.z, n.z);
}

/// Every triangle winds counter-clockwise for a viewer outside the cube: the
/// cross product of its first two edges points along the face's normal.
pub proof fn lemma_triangles_wind_outward(t: int)
    requires
        0 <= t < 12,
    ensures
        ({
            let a = vector_of(cube_vertex(CUBE_INDICES@[3 * t] as int).position);
            let b = vector_of(cube_vertex(CUBE_INDICES@[3 * t + 1] as int).position);
            let c = vector_of(cube_vertex(CUBE_INDICES@[3 * t + 2] as int).position);
            let n = vector_of(cube_vertex(CUBE_INDICES@[3 * t] as int).normal);
            b.minus(a).cross(c.minus(a)) == n.plus(n).plus(n).plus(n)
        }),
{
    let a = vector_of(cube_vertex(CUBE_INDICES@[3 * t] as int).position);
    let b = vector_of(cube_vertex(CUBE_INDICES@[3 * t + 1] as int).position);
    let c = vector_of(cube_vertex(CUBE_INDICES@[3 * t + 2] as int).position);
    let u = b.minus(a);
    let v = c.minus(a);
    lemma_small_product(u.y, v.z);
    lemma_small_product(u.z, v.y);
    lemma_small_product(u.z, v.x);
    lemma_small_product(u.x, v.z);
    lemma_small_product(u.x, v.y);
    lemma_small_product(u.y, v.x);
}

/// The bytes that one component of an attribute takes in a vertex buffer: it
/// is stored as a 32-bit floating-point number.
pub const COMPONENT_BYTES: u64 = 4;

/// The components of each attribute of a vertex.
pub const ATTRIBUTE_COMPONENTS: u32 = 3;

/// The attributes of a vertex: position, colour, normal.
pub const ATTRIBUTE_COUNT: u32 = 3;

/// How often the vertex stage moves on to the next element of a buffer.
#[derive(Clone, Copy, Debug, PartialEq, Eq)]
pub enum StepMode {
    Vertex,
    Instance,
}

/// One input of the vertex stage: a vector of `components` 32-bit
/// floating-point numbers that starts `offset` bytes into each vertex.
#[derive(Clone, Copy, Debug, PartialEq, Eq)]
pub struct VertexAttribute {
    pub shader_location: u32,
    pub offset: u64,
    pub components: u32,
}

impl VertexAttribute {
    /// The first byte after the attribute.
    pub open spec fn end(self) -> int {
        self.offset + self.components * COMPONENT_BYTES
    }
}

/// How the vertex stage finds the attributes in a buffer of vertices.
#[derive(Debug, PartialEq, Eq)]
pub struct VertexBufferLayout {
    pub array_stride: u64,
    pub step_mode: StepMode,
    pub attributes: Vec<VertexAttribute>,
}

impl VertexBufferLayout {
    /// The attributes lie one behind the other from the start of the vertex
    /// and fill it: none overlaps another, none reaches beyond the stride.
    pub open spec fn packed(self) -> bool {
        &&& forall|i: int|
            0 <= i < self.attributes@.len() ==> (#[trigger] self.attributes@[i]).offset == (if i
                == 0 {
                0
            } else {
                self.attributes@[i - 1].end()
            })
        &&& self.array_stride == (if self.attributes@.len() == 0 {
            0
        } else {
            self.attributes@[self.attributes@.len() - 1].end()
        })
    }
}

impl Vertex {
    /// The layout of a buffer of vertices: attribute `i` is read at shader
    /// location `i`, and each attribute starts where the one before it ends.
    pub fn buffer_layout() -> (layout: VertexBufferLayout)
        ensures
            layout.step_mode == StepMode::Vertex,
            layout.array_stride == 36,
            layout.attributes@.len() == 3,
            forall|i: int|
                0 <= i < 3 ==> #[trigger] layout.attributes@[i] == (VertexAttribute {
                    shader_location: i as u32,
                    offset: (12 * i) as u64,
                    components: 3,
                }),
            layout.packed(),
    {
        let mut attributes: Vec<VertexAttribute> = Vec::new();
        let mut offset: u64 = 0;
        let mut location: u32 = 0;
        while location < ATTRIBUTE_COUNT
            invariant
                location <= ATTRIBUTE_COUNT,
                offset == 12 * location,
                attributes@.len() == location,
                forall|i: int|
                    0 <= i < location ==> #[trigger] attributes@[i] == (VertexAttribute {
                        shader_location: i as u32,
                        offset: (12 * i) as u64,
                        components: 3,
                    }),
            decreases ATTRIBUTE_COUNT - location,
        {
            attributes.push(
                VertexAttribute {
                    shader_location: location,
                    offset,
                    components: ATTRIBUTE_COMPONENTS,
                },
            );
            offset += ATTRIBUTE_COMPONENTS as u64 * COMPONENT_BYTES;
            location += 1;
        }
        VertexBufferLayout { array_stride: offset, step_mode: StepMode::Vertex, attributes }
    }
}

/// `bytes` holds `values` two bytes to a value, the low byte first.
pub open spec fn stored_low_first(values: Seq<u16>, bytes: Seq<u8>) -> bool {
    &&& bytes.len() == 2 * values.len()
    &&& forall|i: int|
        0 <= i < values.len() ==> #[trigger] values[i] == bytes[2 * i] + 256 * bytes[2 * i + 1]
}

/// `bytes` holds `values` two bytes to a value, the high byte first.
pub open spec fn stored_high_first(values: Seq<u16>, bytes: Seq<u8>) -> bool {
    &&& bytes.len() == 2 * values.len()
    &&& forall|i: int|
        0 <= i < values.len() ==> #[trigger] values[i] == 256 * bytes[2 * i] + bytes[2 * i + 1]
}

/// `bytes` holds `values` as the memory of some machine holds them.
pub open spec fn stored(values: Seq<u16>, bytes: Seq<u8>) -> bool {
    stored_low_first(values, bytes) || stored_high_first(values, bytes)
}

/// The bytes of a list of indices as this machine's memory holds them.
///
/// Calls `bytemuck::cast_slice` from `u16` to `u8`, which reads the same
/// memory as bytes. That cast never fails: a byte needs no alignment and any
/// length in bytes is a whole number of bytes. Trusted: the result has two
/// bytes for each index, and all indices are stored in one byte order, the
/// machine's own, which is either the low byte first or the high byte first.
#[verifier::external_body]
pub(crate) fn index_bytes(indices: &[u16]) -> (bytes: Vec<u8>)
    ensures
        stored(indices@, bytes@),
{
    bytemuck::cast_slice::<u16, u8>(indices).to_vec()
}

} // verus!
