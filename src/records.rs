use vstd::prelude::*;
use crate::bytes::{i32_at, u32_at, u8_at};
use crate::reader::{ascii_text_at, bytes_at, text_at, BSPReader};
use crate::text::all_ascii;

verus! {

/// A record type of a fixed-record lump: its byte size, and how one record
/// is decoded from bytes.
pub trait Record: Sized {
    /// The byte size of one record.
    spec fn spec_size() -> nat;

    /// The bytes of `d` from `p` hold a record: its text fields, if any, are
    /// valid UTF-8 (as ASCII bytes always are).
    spec fn readable(d: Seq<u8>, p: int) -> bool;

    /// `self` is the record that the bytes of `d` from `p` encode.
    spec fn decoded_from(&self, d: Seq<u8>, p: int) -> bool;

    /// The byte size of one record.
    fn size() -> (r: usize)
        ensures
            r == Self::spec_size(),
            0 < r <= 104,
    ;

    /// Decodes one record at the reader's position, which moves past it.
    fn decode(reader: &mut BSPReader) -> (r: Option<Self>)
        requires
            old(reader).pos() + Self::spec_size() <= old(reader).bytes().len(),
        ensures
            final(reader).bytes() == old(reader).bytes(),
            final(reader).pos() == old(reader).pos() + Self::spec_size(),
            r is Some <==> Self::readable(old(reader).bytes(), old(reader).pos()),
            r is Some ==> r->0.decoded_from(old(reader).bytes(), old(reader).pos()),
    ;
}

/// A record whose bytes begin with a 64-byte name field.
pub trait NamedRecord: Record {
    /// The record's name.
    spec fn name_text(&self) -> Seq<char>;

    /// A record whose name field is ASCII can be read, and its name is that
    /// field's characters up to the first NUL.
    proof fn lemma_ascii_name(d: Seq<u8>, p: int, x: Self)
        requires
            all_ascii(bytes_at(d, p, 64)),
        ensures
            Self::readable(d, p),
            x.decoded_from(d, p) ==> x.name_text() == ascii_text_at(d, p, 64),
    ;
}

/// A surface texture: its name and its flag words.
#[derive(Debug)]
pub struct Texture {
    pub name: String,
    pub flags: i32,
    pub contents: i32,
}

/// A node of the space-partition tree.
#[derive(Debug, Clone, Copy)]
pub struct Node {
    pub plane: i32,
    pub children: [i32; 2],
    pub mins: [i32; 3],
    pub maxs: [i32; 3],
}

/// The node stored at byte `p` of `d`.
pub open spec fn node_at(d: Seq<u8>, p: int) -> Node {
    Node {
        plane: i32_at(d, p),
        children: [i32_at(d, p + 4), i32_at(d, p + 8)],
        mins: [i32_at(d, p + 12), i32_at(d, p + 16), i32_at(d, p + 20)],
        maxs: [i32_at(d, p + 24), i32_at(d, p + 28), i32_at(d, p + 32)],
    }
}

impl Record for i32 {
    open spec fn spec_size() -> nat {
        4
    }

    open spec fn readable(d: Seq<u8>, p: int) -> bool {
        true
    }

    open spec fn decoded_from(&self, d: Seq<u8>, p: int) -> bool {
        *self == i32_at(d, p)
    }

    fn size() -> (r: usize) {
        4
    }

    fn decode(reader: &mut BSPReader) -> (r: Option<i32>) {
        Some(reader.next_i32())
    }
}

impl Record for Node {
    open spec fn spec_size() -> nat {
        36
    }

    open spec fn readable(d: Seq<u8>, p: int) -> bool {
        true
    }

    open spec fn decoded_from(&self, d: Seq<u8>, p: int) -> bool {
        *self == node_at(d, p)
    }

    fn size() -> (r: usize) {
        36
    }

    fn decode(reader: &mut BSPReader) -> (r: Option<Node>) {
        let plane = reader.next_i32();
        let c0 = reader.next_i32();
        let c1 = reader.next_i32();
        let mn0 = reader.next_i32();
        let mn1 = reader.next_i32();
        let mn2 = reader.next_i32();
        let mx0 = reader.next_i32();
        let mx1 = reader.next_i32();
        let mx2 = reader.next_i32();
        Some(Node { plane, children: [c0, c1], mins: [mn0, mn1, mn2], maxs: [mx0, mx1, mx2] })
    }
}

impl Record for Texture {
    open spec fn spec_size() -> nat {
        72
    }

    open spec fn readable(d: Seq<u8>, p: int) -> bool {
        text_at(d, p, 64) is Some || all_ascii(bytes_at(d, p, 64))
    }

    open spec fn decoded_from(&self, d: Seq<u8>, p: int) -> bool {
        &&& text_at(d, p, 64) == Some(self.name@)
        &&& all_ascii(bytes_at(d, p, 64)) ==> self.name@ == ascii_text_at(d, p, 64)
        &&& self.flags == i32_at(d, p + 64)
        &&& self.contents == i32_at(d, p + 68)
    }

    fn size() -> (r: usize) {
        72
    }

    fn decode(reader: &mut BSPReader) -> (r: Option<Texture>) {
        let name = reader.next_text(64);
        let flags = reader.next_i32();
        let contents = reader.next_i32();
        match name {
            Some(name) => Some(Texture { name, flags, contents }),
            None => None,
        }
    }
}

/// A plane: unit normal and distance from the origin, as float bit patterns.
#[derive(Debug, Clone, Copy)]
pub struct Plane {
    pub normal: [u32; 3],
    pub dist: u32,
}

/// The plane stored at byte `p` of `d`.
pub open spec fn plane_at(d: Seq<u8>, p: int) -> Plane {
    Plane {
        normal: [u32_at(d, p), u32_at(d, p + 4), u32_at(d, p + 8)],
        dist: u32_at(d, p + 12),
    }
}

impl Record for Plane {
    open spec fn spec_size() -> nat {
        16
    }

    open spec fn readable(d: Seq<u8>, p: int) -> bool {
        true
    }

    open spec fn decoded_from(&self, d: Seq<u8>, p: int) -> bool {
        *self == plane_at(d, p)
    }

    fn size() -> (r: usize) {
        16
    }

    fn decode(reader: &mut BSPReader) -> (r: Option<Plane>) {
        let v0 = reader.next_u32();
        let v1 = reader.next_u32();
        let v2 = reader.next_u32();
        let v3 = reader.next_u32();
        Some(
            Plane {
                normal: [v0, v1, v2],
                dist: v3,
            },
        )
    }
}

/// A leaf of the space-partition tree: its cluster, bounds, and ranges of
/// the leaf-face and leaf-brush sequences.
#[derive(Debug, Clone, Copy)]
pub struct Leaf {
    pub cluster: i32,
    pub area: i32,
    pub mins: [i32; 3],
    pub maxs: [i32; 3],
    pub leafface: i32,
    pub n_leaffaces: i32,
    pub leafbrush: i32,
    pub n_leafbrushes: i32,
}

/// The leaf stored at byte `p` of `d`.
pub open spec fn leaf_at(d: Seq<u8>, p: int) -> Leaf {
    Leaf {
        cluster: i32_at(d, p),
        area: i32_at(d, p + 4),
        mins: [i32_at(d, p + 8), i32_at(d, p + 12), i32_at(d, p + 16)],
        maxs: [i32_at(d, p + 20), i32_at(d, p + 24), i32_at(d, p + 28)],
        leafface: i32_at(d, p + 32),
        n_leaffaces: i32_at(d, p + 36),
        leafbrush: i32_at(d, p + 40),
        n_leafbrushes: i32_at(d, p + 44),
    }
}

impl Record for Leaf {
    open spec fn spec_size() -> nat {
        48
    }

    open spec fn readable(d: Seq<u8>, p: int) -> bool {
        true
    }

    open spec fn decoded_from(&self, d: Seq<u8>, p: int) -> bool {
        *self == leaf_at(d, p)
    }

    fn size() -> (r: usize) {
        48
    }

    fn decode(reader: &mut BSPReader) -> (r: Option<Leaf>) {
        let v0 = reader.next_i32();
        let v1 = reader.next_i32();
        let v2 = reader.next_i32();
        let v3 = reader.next_i32();
        let v4 = reader.next_i32();
        let v5 = reader.next_i32();
        let v6 = reader.next_i32();
        let v7 = reader.next_i32();
        let v8 = reader.next_i32();
        let v9 = reader.next_i32();
        let v10 = reader.next_i32();
        let v11 = reader.next_i32();
        Some(
            Leaf {
                cluster: v0,
                area: v1,
                mins: [v2, v3, v4],
                maxs: [v5, v6, v7],
                leafface: v8,
                n_leaffaces: v9,
                leafbrush: v10,
                n_leafbrushes: v11,
            },
        )
    }
}

/// A model: its bounds (float bit patterns) and ranges of the face and brush sequences.
#[derive(Debug, Clone, Copy)]
pub struct Model {
    pub mins: [u32; 3],
    pub maxs: [u32; 3],
    pub face: i32,
    pub n_faces: i32,
    pub brush: i32,
    pub n_brushes: i32,
}

/// The model stored at byte `p` of `d`.
pub open spec fn model_at(d: Seq<u8>, p: int) -> Model {
    Model {
        mins: [u32_at(d, p), u32_at(d, p + 4), u32_at(d, p + 8)],
        maxs: [u32_at(d, p + 12), u32_at(d, p + 16), u32_at(d, p + 20)],
        face: i32_at(d, p + 24),
        n_faces: i32_at(d, p + 28),
        brush: i32_at(d, p + 32),
        n_brushes: i32_at(d, p + 36),
    }
}

impl Record for Model {
    open spec fn spec_size() -> nat {
        40
    }

    open spec fn readable(d: Seq<u8>, p: int) -> bool {
        true
    }

    open spec fn decoded_from(&self, d: Seq<u8>, p: int) -> bool {
        *self == model_at(d, p)
    }

    fn size() -> (r: usize) {
        40
    }

    fn decode(reader: &mut BSPReader) -> (r: Option<Model>) {
        let v0 = reader.next_u32();
        let v1 = reader.next_u32();
        let v2 = reader.next_u32();
        let v3 = reader.next_u32();
        let v4 = reader.next_u32();
        let v5 = reader.next_u32();
        let v6 = reader.next_i32();
        let v7 = reader.next_i32();
        let v8 = reader.next_i32();
        let v9 = reader.next_i32();
        Some(
            Model {
                mins: [v0, v1, v2],
                maxs: [v3, v4, v5],
                face: v6,
                n_faces: v7,
                brush: v8,
                n_brushes: v9,
            },
        )
    }
}

/// A convex brush: a range of the brush-side sequence and a texture index.
#[derive(Debug, Clone, Copy)]
pub struct Brush {
    pub brushside: i32,
    pub n_brushsides: i32,
    pub texture: i32,
}

/// The brush stored at byte `p` of `d`.
pub open spec fn brush_at(d: Seq<u8>, p: int) -> Brush {
    Brush {
        brushside: i32_at(d, p),
        n_brushsides: i32_at(d, p + 4),
        texture: i32_at(d, p + 8),
    }
}

impl Record for Brush {
    open spec fn spec_size() -> nat {
        12
    }

    open spec fn readable(d: Seq<u8>, p: int) -> bool {
        true
    }

    open spec fn decoded_from(&self, d: Seq<u8>, p: int) -> bool {
        *self == brush_at(d, p)
    }

    fn size() -> (r: usize) {
        12
    }

    fn decode(reader: &mut BSPReader) -> (r: Option<Brush>) {
        let v0 = reader.next_i32();
        let v1 = reader.next_i32();
        let v2 = reader.next_i32();
        Some(
            Brush {
                brushside: v0,
                n_brushsides: v1,
                texture: v2,
            },
        )
    }
}

/// One side of a brush: a plane index and a texture index.
#[derive(Debug, Clone, Copy)]
pub struct Brushside {
    pub plane: i32,
    pub texture: i32,
}

/// The brushside stored at byte `p` of `d`.
pub open spec fn brushside_at(d: Seq<u8>, p: int) -> Brushside {
    Brushside {
        plane: i32_at(d, p),
        texture: i32_at(d, p + 4),
    }
}

impl Record for Brushside {
    open spec fn spec_size() -> nat {
        8
    }

    open spec fn readable(d: Seq<u8>, p: int) -> bool {
        true
    }

    open spec fn decoded_from(&self, d: Seq<u8>, p: int) -> bool {
        *self == brushside_at(d, p)
    }

    fn size() -> (r: usize) {
        8
    }

    fn decode(reader: &mut BSPReader) -> (r: Option<Brushside>) {
        let v0 = reader.next_i32();
        let v1 = reader.next_i32();
        Some(
            Brushside {
                plane: v0,
                texture: v1,
            },
        )
    }
}

/// A vertex: position, two texture coordinate pairs and normal as float bit
/// patterns, and an RGBA colour.
#[derive(Debug, Clone, Copy)]
pub struct Vertex {
    pub position: [u32; 3],
    pub texcoord: [[u32; 2]; 2],
    pub normal: [u32; 3],
    pub color: [u8; 4],
}

/// The vertex stored at byte `p` of `d`.
pub open spec fn vertex_at(d: Seq<u8>, p: int) -> Vertex {
    Vertex {
        position: [u32_at(d, p), u32_at(d, p + 4), u32_at(d, p + 8)],
        texcoord: [[u32_at(d, p + 12), u32_at(d, p + 16)], [u32_at(d, p + 20), u32_at(d, p + 24)]],
        normal: [u32_at(d, p + 28), u32_at(d, p + 32), u32_at(d, p + 36)],
        color: [u8_at(d, p + 40), u8_at(d, p + 41), u8_at(d, p + 42), u8_at(d, p + 43)],
    }
}

impl Record for Vertex {
    open spec fn spec_size() -> nat {
        44
    }

    open spec fn readable(d: Seq<u8>, p: int) -> bool {
        true
    }

    open spec fn decoded_from(&self, d: Seq<u8>, p: int) -> bool {
        *self == vertex_at(d, p)
    }

    fn size() -> (r: usize) {
        44
    }

    fn decode(reader: &mut BSPReader) -> (r: Option<Vertex>) {
        let v0 = reader.next_u32();
        let v1 = reader.next_u32();
        let v2 = reader.next_u32();
        let v3 = reader.next_u32();
        let v4 = reader.next_u32();
        let v5 = reader.next_u32();
        let v6 = reader.next_u32();
        let v7 = reader.next_u32();
        let v8 = reader.next_u32();
        let v9 = reader.next_u32();
        let v10 = reader.next_u8();
        let v11 = reader.next_u8();
        let v12 = reader.next_u8();
        let v13 = reader.next_u8();
        Some(
            Vertex {
                position: [v0, v1, v2],
                texcoord: [[v3, v4], [v5, v6]],
                normal: [v7, v8, v9],
                color: [v10, v11, v12, v13],
            },
        )
    }
}

/// A surface: its texture, effect and type, ranges of the vertex and
/// mesh-vertex sequences, and its lightmap placement (float fields as bit
/// patterns).
#[derive(Debug, Clone, Copy)]
pub struct Face {
    pub texture: i32,
    pub effect: i32,
    pub f_type: i32,
    pub vertex: i32,
    pub n_vertexes: i32,
    pub meshvert: i32,
    pub n_meshverts: i32,
    pub lm_index: i32,
    pub lm_start: [i32; 2],
    pub lm_size: [i32; 2],
    pub lm_origin: [u32; 3],
    pub lm_vecs: [[u32; 3]; 2],
    pub normal: [u32; 3],
    pub size: [i32; 2],
}

/// The face stored at byte `p` of `d`.
pub open spec fn face_at(d: Seq<u8>, p: int) -> Face {
    Face {
        texture: i32_at(d, p),
        effect: i32_at(d, p + 4),
        f_type: i32_at(d, p + 8),
        vertex: i32_at(d, p + 12),
        n_vertexes: i32_at(d, p + 16),
        meshvert: i32_at(d, p + 20),
        n_meshverts: i32_at(d, p + 24),
        lm_index: i32_at(d, p + 28),
        lm_start: [i32_at(d, p + 32), i32_at(d, p + 36)],
        lm_size: [i32_at(d, p + 40), i32_at(d, p + 44)],
        lm_origin: [u32_at(d, p + 48), u32_at(d, p + 52), u32_at(d, p + 56)],
        lm_vecs: [[u32_at(d, p + 60), u32_at(d, p + 64), u32_at(d, p + 68)], [u32_at(d, p + 72), u32_at(d, p + 76), u32_at(d, p + 80)]],
        normal: [u32_at(d, p + 84), u32_at(d, p + 88), u32_at(d, p + 92)],
        size: [i32_at(d, p + 96), i32_at(d, p + 100)],
    }
}

impl Record for Face {
    open spec fn spec_size() -> nat {
        104
    }

    open spec fn readable(d: Seq<u8>, p: int) -> bool {
        true
    }

    open spec fn decoded_from(&self, d: Seq<u8>, p: int) -> bool {
        *self == face_at(d, p)
    }

    fn size() -> (r: usize) {
        104
    }

    fn decode(reader: &mut BSPReader) -> (r: Option<Face>) {
        let v0 = reader.next_i32();
        let v1 = reader.next_i32();
        let v2 = reader.next_i32();
        let v3 = reader.next_i32();
        let v4 = reader.next_i32();
        let v5 = reader.next_i32();
        let v6 = reader.next_i32();
        let v7 = reader.next_i32();
        let v8 = reader.next_i32();
        let v9 = reader.next_i32();
        let v10 = reader.next_i32();
        let v11 = reader.next_i32();
        let v12 = reader.next_u32();
        let v13 = reader.next_u32();
        let v14 = reader.next_u32();
        let v15 = reader.next_u32();
        let v16 = reader.next_u32();
        let v17 = reader.next_u32();
        let v18 = reader.next_u32();
        let v19 = reader.next_u32();
        let v20 = reader.next_u32();
        let v21 = reader.next_u32();
        let v22 = reader.next_u32();
        let v23 = reader.next_u32();
        let v24 = reader.next_i32();
        let v25 = reader.next_i32();
        Some(
            Face {
                texture: v0,
                effect: v1,
                f_type: v2,
                vertex: v3,
                n_vertexes: v4,
                meshvert: v5,
                n_meshverts: v6,
                lm_index: v7,
                lm_start: [v8, v9],
                lm_size: [v10, v11],
                lm_origin: [v12, v13, v14],
                lm_vecs: [[v15, v16, v17], [v18, v19, v20]],
                normal: [v21, v22, v23],
                size: [v24, v25],
            },
        )
    }
}

/// A volumetric effect: its shader name, a brush index and one word of
/// unknown use.
#[derive(Debug)]
pub struct Effect {
    pub name: String,
    pub brush: i32,
    pub unknown: i32,
}

impl Record for Effect {
    open spec fn spec_size() -> nat {
        72
    }

    open spec fn readable(d: Seq<u8>, p: int) -> bool {
        text_at(d, p, 64) is Some || all_ascii(bytes_at(d, p, 64))
    }

    open spec fn decoded_from(&self, d: Seq<u8>, p: int) -> bool {
        &&& text_at(d, p, 64) == Some(self.name@)
        &&& all_ascii(bytes_at(d, p, 64)) ==> self.name@ == ascii_text_at(d, p, 64)
        &&& self.brush == i32_at(d, p + 64)
        &&& self.unknown == i32_at(d, p + 68)
    }

    fn size() -> (r: usize) {
        72
    }

    fn decode(reader: &mut BSPReader) -> (r: Option<Effect>) {
        let name = reader.next_text(64);
        let brush = reader.next_i32();
        let unknown = reader.next_i32();
        match name {
            Some(name) => Some(Effect { name, brush, unknown }),
            None => None,
        }
    }
}

impl NamedRecord for Texture {
    open spec fn name_text(&self) -> Seq<char> {
        self.name@
    }

    proof fn lemma_ascii_name(d: Seq<u8>, p: int, x: Texture) {
    }
}

impl NamedRecord for Effect {
    open spec fn name_text(&self) -> Seq<char> {
        self.name@
    }

    proof fn lemma_ascii_name(d: Seq<u8>, p: int, x: Effect) {
    }
}

} // verus!
