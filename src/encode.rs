use vstd::prelude::*;
use crate::bytes::{i32_at, le_u32, u32_at};
use crate::error::BspError;
use crate::header::{lump_in_bounds, Direntry};
use crate::lumps::{lump_result, lump_unreadable, record_count, record_offset};
use crate::records::{
    brush_at, brushside_at, face_at, leaf_at, model_at, node_at, plane_at, vertex_at, Brush,
    Brushside, Effect, Face, Leaf, Model, Node, Plane, Record, Texture, Vertex,
};
use crate::reader::bytes_at;
use crate::text::{all_ascii, ascii_chars, field_text, until_nul};

verus! {

/// The four little-endian bytes of the unsigned 32-bit value `u`.
pub open spec fn word_bytes(u: int) -> Seq<u8> {
    seq![
        (u % 256) as u8,
        ((u / 256) % 256) as u8,
        (((u / 256) / 256) % 256) as u8,
        (((u / 256) / 256) / 256) as u8,
    ]
}

/// The unsigned 32-bit word whose bits are those of the signed value `v`.
pub open spec fn i32_word(v: i32) -> int {
    if v < 0 {
        v + 0x1_0000_0000
    } else {
        v as int
    }
}

/// `ws` holds unsigned 32-bit values only.
pub open spec fn all_words(ws: Seq<int>) -> bool {
    forall|i: int| 0 <= i < ws.len() ==> 0 <= #[trigger] ws[i] < 0x1_0000_0000
}

/// The little-endian bytes of a sequence of 32-bit words, word after word.
pub open spec fn words_bytes(ws: Seq<int>) -> Seq<u8>
    decreases ws.len(),
{
    if ws.len() == 0 {
        Seq::empty()
    } else {
        words_bytes(ws.drop_last()) + word_bytes(ws.last())
    }
}

/// Reading back a word that was written little-endian gives the word.
pub proof fn lemma_word_round_trip(u: int)
    requires
        0 <= u < 0x1_0000_0000,
    ensures
        le_u32(word_bytes(u), 0) == u,
{
}

/// Where the four bytes of `d` from `p` are the word `u` written
/// little-endian, the word is read back there.
proof fn lemma_word_at(u: int, d: Seq<u8>, p: int)
    requires
        0 <= u < 0x1_0000_0000,
        0 <= p,
        p + 4 <= d.len(),
        bytes_at(d, p, 4) == word_bytes(u),
    ensures
        le_u32(d, p) == u,
{
    lemma_word_round_trip(u);
    assert(bytes_at(d, p, 4)[0] == d[p]);
    assert(bytes_at(d, p, 4)[1] == d[p + 1]);
    assert(bytes_at(d, p, 4)[2] == d[p + 2]);
    assert(bytes_at(d, p, 4)[3] == d[p + 3]);
}

/// Reading back a signed 32-bit value written little-endian (as `read_int`
/// does) gives the value, wherever it stands.
pub proof fn lemma_i32_round_trip(v: i32, d: Seq<u8>, p: int)
    requires
        0 <= p,
        p + 4 <= d.len(),
        bytes_at(d, p, 4) == word_bytes(i32_word(v)),
    ensures
        i32_at(d, p) == v,
{
    lemma_word_at(i32_word(v), d, p);
}

/// Reading back the bit pattern of a float written little-endian (as
/// `read_float` does) gives the same bits, wherever it stands.
pub proof fn lemma_u32_round_trip(u: u32, d: Seq<u8>, p: int)
    requires
        0 <= p,
        p + 4 <= d.len(),
        bytes_at(d, p, 4) == word_bytes(u as int),
    ensures
        u32_at(d, p) == u,
{
    lemma_word_at(u as int, d, p);
}

/// The little-endian bytes of `n` words are `4 * n` bytes long.
pub proof fn lemma_words_len(ws: Seq<int>)
    ensures
        words_bytes(ws).len() == 4 * ws.len(),
    decreases ws.len(),
{
    if ws.len() > 0 {
        lemma_words_len(ws.drop_last());
    }
}

/// Where the bytes of `d` from `p` are the words `ws` written little-endian,
/// word `k` is read back at byte `p + 4 * k`.
pub proof fn lemma_words_bytes(ws: Seq<int>, k: int, d: Seq<u8>, p: int)
    requires
        all_words(ws),
        0 <= k < ws.len(),
        0 <= p,
        p + 4 * ws.len() <= d.len(),
        bytes_at(d, p, 4 * ws.len() as int) == words_bytes(ws),
    ensures
        le_u32(d, p + 4 * k) == ws[k],
    decreases ws.len(),
{
    let init = ws.drop_last();
    let b = words_bytes(ws);
    lemma_words_len(init);
    assert(b == words_bytes(init) + word_bytes(ws.last()));
    if k < init.len() {
        assert(bytes_at(d, p, 4 * init.len() as int) =~= words_bytes(init)) by {
            assert forall|j: int| 0 <= j < 4 * init.len() implies bytes_at(d, p, 4 * init.len() as int)[j]
                == words_bytes(init)[j] by {
                assert(bytes_at(d, p, 4 * ws.len() as int)[j] == b[j]);
            }
        }
        lemma_words_bytes(init, k, d, p);
        assert(init[k] == ws[k]);
    } else {
        lemma_word_round_trip(ws.last());
        let w = word_bytes(ws.last());
        assert(bytes_at(d, p, 4 * ws.len() as int)[4 * k] == w[0]);
        assert(bytes_at(d, p, 4 * ws.len() as int)[4 * k + 1] == w[1]);
        assert(bytes_at(d, p, 4 * ws.len() as int)[4 * k + 2] == w[2]);
        assert(bytes_at(d, p, 4 * ws.len() as int)[4 * k + 3] == w[3]);
    }
}

/// Four bytes packed little-endian into a word unpack to the same bytes.
proof fn lemma_bytes_word(c0: u8, c1: u8, c2: u8, c3: u8)
    ensures
        word_bytes(c0 + 256 * c1 + 65536 * c2 + 16777216 * c3) == seq![c0, c1, c2, c3],
{
    let w = c0 + 256 * c1 + 65536 * c2 + 16777216 * c3;
    assert(w % 256 == c0);
    assert(w / 256 == c1 + 256 * c2 + 65536 * c3);
    assert((w / 256) % 256 == c1);
    assert((w / 256) / 256 == c2 + 256 * c3);
    assert(((w / 256) / 256) % 256 == c2);
    assert(((w / 256) / 256) / 256 == c3);
    assert(word_bytes(w) =~= seq![c0, c1, c2, c3]);
}

/// A record type whose every value has a byte layout that decodes back to it.
pub trait Encoded: Record {
    /// The bytes of the record in its layout.
    spec fn encoding(&self) -> Seq<u8>;

    /// A record takes at least one byte.
    proof fn lemma_size_positive()
        ensures
            Self::spec_size() > 0,
    ;

    /// Where the bytes of `d` from `p` are the layout of `x`, they can be read
    /// and decode to `x` and nothing else.
    proof fn lemma_decode_encoding(x: Self, d: Seq<u8>, p: int)
        requires
            0 <= p,
            p + Self::spec_size() <= d.len(),
            bytes_at(d, p, Self::spec_size() as int) == x.encoding(),
        ensures
            x.encoding().len() == Self::spec_size(),
            Self::readable(d, p),
            forall|y: Self| #[trigger] y.decoded_from(d, p) ==> y == x,
    ;
}

impl Encoded for i32 {
    open spec fn encoding(&self) -> Seq<u8> {
        words_bytes(seq![i32_word(*self)])
    }

    proof fn lemma_size_positive() {
    }

    proof fn lemma_decode_encoding(x: i32, d: Seq<u8>, p: int) {
        let ws = seq![i32_word(x)];
        lemma_words_len(ws);
        lemma_words_bytes(ws, 0, d, p);
    }
}

/// The words of a plane, in the order of its byte layout.
pub open spec fn plane_words(x: Plane) -> Seq<int> {
    seq![
        x.normal[0] as int,
        x.normal[1] as int,
        x.normal[2] as int,
        x.dist as int,
    ]
}

/// A plane written in its byte layout.
pub open spec fn encode_plane(x: Plane) -> Seq<u8> {
    words_bytes(plane_words(x))
}

/// Decoding a plane written in its byte layout gives it back, wherever the
/// layout stands.
#[verifier::spinoff_prover]
pub proof fn lemma_plane_round_trip(x: Plane, d: Seq<u8>, p: int)
    requires
        0 <= p,
        p + 16 <= d.len(),
        bytes_at(d, p, 16) == encode_plane(x),
    ensures
        encode_plane(x).len() == Plane::spec_size(),
        plane_at(d, p) == x,
{
    let ws = plane_words(x);
    assert(all_words(ws));
    lemma_words_len(ws);
    lemma_words_bytes(ws, 0, d, p);
    lemma_words_bytes(ws, 1, d, p);
    lemma_words_bytes(ws, 2, d, p);
    lemma_words_bytes(ws, 3, d, p);
    let y = plane_at(d, p);
    assert(y.normal =~= x.normal);
}

impl Encoded for Plane {
    open spec fn encoding(&self) -> Seq<u8> {
        encode_plane(*self)
    }

    proof fn lemma_size_positive() {
    }

    proof fn lemma_decode_encoding(x: Plane, d: Seq<u8>, p: int) {
        lemma_plane_round_trip(x, d, p);
    }
}

/// The words of a node, in the order of its byte layout.
pub open spec fn node_words(x: Node) -> Seq<int> {
    seq![
        i32_word(x.plane),
        i32_word(x.children[0]),
        i32_word(x.children[1]),
        i32_word(x.mins[0]),
        i32_word(x.mins[1]),
        i32_word(x.mins[2]),
        i32_word(x.maxs[0]),
        i32_word(x.maxs[1]),
        i32_word(x.maxs[2]),
    ]
}

/// A node written in its byte layout.
pub open spec fn encode_node(x: Node) -> Seq<u8> {
    words_bytes(node_words(x))
}

/// Decoding a node written in its byte layout gives it back, wherever the
/// layout stands.
#[verifier::spinoff_prover]
pub proof fn lemma_node_round_trip(x: Node, d: Seq<u8>, p: int)
    requires
        0 <= p,
        p + 36 <= d.len(),
        bytes_at(d, p, 36) == encode_node(x),
    ensures
        encode_node(x).len() == Node::spec_size(),
        node_at(d, p) == x,
{
    let ws = node_words(x);
    assert(all_words(ws));
    lemma_words_len(ws);
    lemma_words_bytes(ws, 0, d, p);
    lemma_words_bytes(ws, 1, d, p);
    lemma_words_bytes(ws, 2, d, p);
    lemma_words_bytes(ws, 3, d, p);
    lemma_words_bytes(ws, 4, d, p);
    lemma_words_bytes(ws, 5, d, p);
    lemma_words_bytes(ws, 6, d, p);
    lemma_words_bytes(ws, 7, d, p);
    lemma_words_bytes(ws, 8, d, p);
    let y = node_at(d, p);
    assert(y.children =~= x.children);
    assert(y.mins =~= x.mins);
    assert(y.maxs =~= x.maxs);
}

impl Encoded for Node {
    open spec fn encoding(&self) -> Seq<u8> {
        encode_node(*self)
    }

    proof fn lemma_size_positive() {
    }

    proof fn lemma_decode_encoding(x: Node, d: Seq<u8>, p: int) {
        lemma_node_round_trip(x, d, p);
    }
}

/// The words of a leaf, in the order of its byte layout.
pub open spec fn leaf_words(x: Leaf) -> Seq<int> {
    seq![
        i32_word(x.cluster),
        i32_word(x.area),
        i32_word(x.mins[0]),
        i32_word(x.mins[1]),
        i32_word(x.mins[2]),
        i32_word(x.maxs[0]),
        i32_word(x.maxs[1]),
        i32_word(x.maxs[2]),
        i32_word(x.leafface),
        i32_word(x.n_leaffaces),
        i32_word(x.leafbrush),
        i32_word(x.n_leafbrushes),
    ]
}

/// A leaf written in its byte layout.
pub open spec fn encode_leaf(x: Leaf) -> Seq<u8> {
    words_bytes(leaf_words(x))
}

/// Decoding a leaf written in its byte layout gives it back, wherever the
/// layout stands.
#[verifier::spinoff_prover]
pub proof fn lemma_leaf_round_trip(x: Leaf, d: Seq<u8>, p: int)
    requires
        0 <= p,
        p + 48 <= d.len(),
        bytes_at(d, p, 48) == encode_leaf(x),
    ensures
        encode_leaf(x).len() == Leaf::spec_size(),
        leaf_at(d, p) == x,
{
    let ws = leaf_words(x);
    assert(all_words(ws));
    lemma_words_len(ws);
    lemma_words_bytes(ws, 0, d, p);
    lemma_words_bytes(ws, 1, d, p);
    lemma_words_bytes(ws, 2, d, p);
    lemma_words_bytes(ws, 3, d, p);
    lemma_words_bytes(ws, 4, d, p);
    lemma_words_bytes(ws, 5, d, p);
    lemma_words_bytes(ws, 6, d, p);
    lemma_words_bytes(ws, 7, d, p);
    lemma_words_bytes(ws, 8, d, p);
    lemma_words_bytes(ws, 9, d, p);
    lemma_words_bytes(ws, 10, d, p);
    lemma_words_bytes(ws, 11, d, p);
    let y = leaf_at(d, p);
    assert(y.mins =~= x.mins);
    assert(y.maxs =~= x.maxs);
}

impl Encoded for Leaf {
    open spec fn encoding(&self) -> Seq<u8> {
        encode_leaf(*self)
    }

    proof fn lemma_size_positive() {
    }

    proof fn lemma_decode_encoding(x: Leaf, d: Seq<u8>, p: int) {
        lemma_leaf_round_trip(x, d, p);
    }
}

/// The words of a model, in the order of its byte layout.
pub open spec fn model_words(x: Model) -> Seq<int> {
    seq![
        x.mins[0] as int,
        x.mins[1] as int,
        x.mins[2] as int,
        x.maxs[0] as int,
        x.maxs[1] as int,
        x.maxs[2] as int,
        i32_word(x.face),
        i32_word(x.n_faces),
        i32_word(x.brush),
        i32_word(x.n_brushes),
    ]
}

/// A model written in its byte layout.
pub open spec fn encode_model(x: Model) -> Seq<u8> {
    words_bytes(model_words(x))
}

/// Decoding a model written in its byte layout gives it back, wherever the
/// layout stands.
#[verifier::spinoff_prover]
pub proof fn lemma_model_round_trip(x: Model, d: Seq<u8>, p: int)
    requires
        0 <= p,
        p + 40 <= d.len(),
        bytes_at(d, p, 40) == encode_model(x),
    ensures
        encode_model(x).len() == Model::spec_size(),
        model_at(d, p) == x,
{
    let ws = model_words(x);
    assert(all_words(ws));
    lemma_words_len(ws);
    lemma_words_bytes(ws, 0, d, p);
    lemma_words_bytes(ws, 1, d, p);
    lemma_words_bytes(ws, 2, d, p);
    lemma_words_bytes(ws, 3, d, p);
    lemma_words_bytes(ws, 4, d, p);
    lemma_words_bytes(ws, 5, d, p);
    lemma_words_bytes(ws, 6, d, p);
    lemma_words_bytes(ws, 7, d, p);
    lemma_words_bytes(ws, 8, d, p);
    lemma_words_bytes(ws, 9, d, p);
    let y = model_at(d, p);
    assert(y.mins =~= x.mins);
    assert(y.maxs =~= x.maxs);
}

impl Encoded for Model {
    open spec fn encoding(&self) -> Seq<u8> {
        encode_model(*self)
    }

    proof fn lemma_size_positive() {
    }

    proof fn lemma_decode_encoding(x: Model, d: Seq<u8>, p: int) {
        lemma_model_round_trip(x, d, p);
    }
}

/// The words of a brush, in the order of its byte layout.
pub open spec fn brush_words(x: Brush) -> Seq<int> {
    seq![
        i32_word(x.brushside),
        i32_word(x.n_brushsides),
        i32_word(x.texture),
    ]
}

/// A brush written in its byte layout.
pub open spec fn encode_brush(x: Brush) -> Seq<u8> {
    words_bytes(brush_words(x))
}

/// Decoding a brush written in its byte layout gives it back, wherever the
/// layout stands.
#[verifier::spinoff_prover]
pub proof fn lemma_brush_round_trip(x: Brush, d: Seq<u8>, p: int)
    requires
        0 <= p,
        p + 12 <= d.len(),
        bytes_at(d, p, 12) == encode_brush(x),
    ensures
        encode_brush(x).len() == Brush::spec_size(),
        brush_at(d, p) == x,
{
    let ws = brush_words(x);
    assert(all_words(ws));
    lemma_words_len(ws);
    lemma_words_bytes(ws, 0, d, p);
    lemma_words_bytes(ws, 1, d, p);
    lemma_words_bytes(ws, 2, d, p);
    let y = brush_at(d, p);
}

impl Encoded for Brush {
    open spec fn encoding(&self) -> Seq<u8> {
        encode_brush(*self)
    }

    proof fn lemma_size_positive() {
    }

    proof fn lemma_decode_encoding(x: Brush, d: Seq<u8>, p: int) {
        lemma_brush_round_trip(x, d, p);
    }
}

/// The words of a brushside, in the order of its byte layout.
pub open spec fn brushside_words(x: Brushside) -> Seq<int> {
    seq![
        i32_word(x.plane),
        i32_word(x.texture),
    ]
}

/// A brushside written in its byte layout.
pub open spec fn encode_brushside(x: Brushside) -> Seq<u8> {
    words_bytes(brushside_words(x))
}

/// Decoding a brushside written in its byte layout gives it back, wherever the
/// layout stands.
#[verifier::spinoff_prover]
pub proof fn lemma_brushside_round_trip(x: Brushside, d: Seq<u8>, p: int)
    requires
        0 <= p,
        p + 8 <= d.len(),
        bytes_at(d, p, 8) == encode_brushside(x),
    ensures
        encode_brushside(x).len() == Brushside::spec_size(),
        brushside_at(d, p) == x,
{
    let ws = brushside_words(x);
    assert(all_words(ws));
    lemma_words_len(ws);
    lemma_words_bytes(ws, 0, d, p);
    lemma_words_bytes(ws, 1, d, p);
    let y = brushside_at(d, p);
}

impl Encoded for Brushside {
    open spec fn encoding(&self) -> Seq<u8> {
        encode_brushside(*self)
    }

    proof fn lemma_size_positive() {
    }

    proof fn lemma_decode_encoding(x: Brushside, d: Seq<u8>, p: int) {
        lemma_brushside_round_trip(x, d, p);
    }
}

/// The words of a vertex, in the order of its byte layout.
pub open spec fn vertex_words(x: Vertex) -> Seq<int> {
    seq![
        x.position[0] as int,
        x.position[1] as int,
        x.position[2] as int,
        x.texcoord[0][0] as int,
        x.texcoord[0][1] as int,
        x.texcoord[1][0] as int,
        x.texcoord[1][1] as int,
        x.normal[0] as int,
        x.normal[1] as int,
        x.normal[2] as int,
        x.color[0] + 256 * x.color[1] + 65536 * x.color[2] + 16777216 * x.color[3],
    ]
}

/// A vertex written in its byte layout.
pub open spec fn encode_vertex(x: Vertex) -> Seq<u8> {
    words_bytes(vertex_words(x))
}

/// Decoding a vertex written in its byte layout gives it back, wherever the
/// layout stands.
#[verifier::spinoff_prover]
pub proof fn lemma_vertex_round_trip(x: Vertex, d: Seq<u8>, p: int)
    requires
        0 <= p,
        p + 44 <= d.len(),
        bytes_at(d, p, 44) == encode_vertex(x),
    ensures
        encode_vertex(x).len() == Vertex::spec_size(),
        vertex_at(d, p) == x,
{
    let ws = vertex_words(x);
    assert(all_words(ws));
    lemma_words_len(ws);
    let e = encode_vertex(x);
    assert(e == words_bytes(ws.drop_last()) + word_bytes(ws.last()));
    lemma_words_len(ws.drop_last());
    lemma_bytes_word(x.color[0], x.color[1], x.color[2], x.color[3]);
    assert(bytes_at(d, p, 44)[40] == x.color[0]);
    assert(bytes_at(d, p, 44)[41] == x.color[1]);
    assert(bytes_at(d, p, 44)[42] == x.color[2]);
    assert(bytes_at(d, p, 44)[43] == x.color[3]);
    let ww = ws.drop_last();
    assert(bytes_at(d, p, 40) =~= words_bytes(ww)) by {
        assert forall|j: int| 0 <= j < 40 implies bytes_at(d, p, 40)[j] == words_bytes(ww)[j] by {
            assert(bytes_at(d, p, 44)[j] == e[j]);
        }
    }
    lemma_words_bytes(ww, 0, d, p);
    lemma_words_bytes(ww, 1, d, p);
    lemma_words_bytes(ww, 2, d, p);
    lemma_words_bytes(ww, 3, d, p);
    lemma_words_bytes(ww, 4, d, p);
    lemma_words_bytes(ww, 5, d, p);
    lemma_words_bytes(ww, 6, d, p);
    lemma_words_bytes(ww, 7, d, p);
    lemma_words_bytes(ww, 8, d, p);
    lemma_words_bytes(ww, 9, d, p);
    let y = vertex_at(d, p);
    assert(y.position =~= x.position);
    assert(y.texcoord[0] =~= x.texcoord[0]);
    assert(y.texcoord[1] =~= x.texcoord[1]);
    assert(y.texcoord =~= x.texcoord);
    assert(y.normal =~= x.normal);
    assert(y.color =~= x.color);
}

impl Encoded for Vertex {
    open spec fn encoding(&self) -> Seq<u8> {
        encode_vertex(*self)
    }

    proof fn lemma_size_positive() {
    }

    proof fn lemma_decode_encoding(x: Vertex, d: Seq<u8>, p: int) {
        lemma_vertex_round_trip(x, d, p);
    }
}

/// The words of a face, in the order of its byte layout.
pub open spec fn face_words(x: Face) -> Seq<int> {
    seq![
        i32_word(x.texture),
        i32_word(x.effect),
        i32_word(x.f_type),
        i32_word(x.vertex),
        i32_word(x.n_vertexes),
        i32_word(x.meshvert),
        i32_word(x.n_meshverts),
        i32_word(x.lm_index),
        i32_word(x.lm_start[0]),
        i32_word(x.lm_start[1]),
        i32_word(x.lm_size[0]),
        i32_word(x.lm_size[1]),
        x.lm_origin[0] as int,
        x.lm_origin[1] as int,
        x.lm_origin[2] as int,
        x.lm_vecs[0][0] as int,
        x.lm_vecs[0][1] as int,
        x.lm_vecs[0][2] as int,
        x.lm_vecs[1][0] as int,
        x.lm_vecs[1][1] as int,
        x.lm_vecs[1][2] as int,
        x.normal[0] as int,
        x.normal[1] as int,
        x.normal[2] as int,
        i32_word(x.size[0]),
        i32_word(x.size[1]),
    ]
}

/// A face written in its byte layout.
pub open spec fn encode_face(x: Face) -> Seq<u8> {
    words_bytes(face_words(x))
}

/// Decoding a face written in its byte layout gives it back, wherever the
/// layout stands.
#[verifier::spinoff_prover]
#[verifier::rlimit(100)]
pub proof fn lemma_face_round_trip(x: Face, d: Seq<u8>, p: int)
    requires
        0 <= p,
        p + 104 <= d.len(),
        bytes_at(d, p, 104) == encode_face(x),
    ensures
        encode_face(x).len() == Face::spec_size(),
        face_at(d, p) == x,
{
    let ws = face_words(x);
    assert(all_words(ws));
    lemma_words_len(ws);
    lemma_words_bytes(ws, 0, d, p);
    lemma_words_bytes(ws, 1, d, p);
    lemma_words_bytes(ws, 2, d, p);
    lemma_words_bytes(ws, 3, d, p);
    lemma_words_bytes(ws, 4, d, p);
    lemma_words_bytes(ws, 5, d, p);
    lemma_words_bytes(ws, 6, d, p);
    lemma_words_bytes(ws, 7, d, p);
    lemma_words_bytes(ws, 8, d, p);
    lemma_words_bytes(ws, 9, d, p);
    lemma_words_bytes(ws, 10, d, p);
    lemma_words_bytes(ws, 11, d, p);
    lemma_words_bytes(ws, 12, d, p);
    lemma_words_bytes(ws, 13, d, p);
    lemma_words_bytes(ws, 14, d, p);
    lemma_words_bytes(ws, 15, d, p);
    lemma_words_bytes(ws, 16, d, p);
    lemma_words_bytes(ws, 17, d, p);
    lemma_words_bytes(ws, 18, d, p);
    lemma_words_bytes(ws, 19, d, p);
    lemma_words_bytes(ws, 20, d, p);
    lemma_words_bytes(ws, 21, d, p);
    lemma_words_bytes(ws, 22, d, p);
    lemma_words_bytes(ws, 23, d, p);
    lemma_words_bytes(ws, 24, d, p);
    lemma_words_bytes(ws, 25, d, p);
    let y = face_at(d, p);
    assert(y.lm_start =~= x.lm_start);
    assert(y.lm_size =~= x.lm_size);
    assert(y.lm_origin =~= x.lm_origin);
    assert(y.lm_vecs[0] =~= x.lm_vecs[0]);
    assert(y.lm_vecs[1] =~= x.lm_vecs[1]);
    assert(y.lm_vecs =~= x.lm_vecs);
    assert(y.normal =~= x.normal);
    assert(y.size =~= x.size);
}

impl Encoded for Face {
    open spec fn encoding(&self) -> Seq<u8> {
        encode_face(*self)
    }

    proof fn lemma_size_positive() {
    }

    proof fn lemma_decode_encoding(x: Face, d: Seq<u8>, p: int) {
        lemma_face_round_trip(x, d, p);
    }
}

/// A record made of a 64-byte text field `name` and two signed words,
/// written in its byte layout (the layout of textures and of effects).
pub open spec fn encode_named(name: Seq<u8>, a: i32, b: i32) -> Seq<u8> {
    name + words_bytes(seq![i32_word(a), i32_word(b)])
}

/// Where the bytes of `d` from `p` are a named record written in its layout,
/// its name field and its two words stand where the decoder reads them.
proof fn lemma_named_layout(name: Seq<u8>, a: i32, b: i32, d: Seq<u8>, p: int)
    requires
        name.len() == 64,
        0 <= p,
        p + 72 <= d.len(),
        bytes_at(d, p, 72) == encode_named(name, a, b),
    ensures
        encode_named(name, a, b).len() == 72,
        bytes_at(d, p, 64) == name,
        i32_at(d, p + 64) == a,
        i32_at(d, p + 68) == b,
{
    let ws = seq![i32_word(a), i32_word(b)];
    lemma_words_len(ws);
    let e = encode_named(name, a, b);
    assert(bytes_at(d, p, 64) =~= name) by {
        assert forall|j: int| 0 <= j < 64 implies bytes_at(d, p, 64)[j] == name[j] by {
            assert(bytes_at(d, p, 72)[j] == e[j]);
        }
    }
    assert(bytes_at(d, p + 64, 8) =~= words_bytes(ws)) by {
        assert forall|j: int| 0 <= j < 8 implies bytes_at(d, p + 64, 8)[j] == words_bytes(ws)[j] by {
            assert(bytes_at(d, p, 72)[64 + j] == e[64 + j]);
            assert(e[64 + j] == words_bytes(ws)[j]);
        }
    }
    lemma_words_bytes(ws, 0, d, p + 64);
    lemma_words_bytes(ws, 1, d, p + 64);
}

/// Decoding a texture written in its byte layout gives it back, wherever the
/// layout stands, where its 64-byte name field holds its name (as UTF-8, and
/// as ASCII where it is).
pub proof fn lemma_texture_round_trip(x: Texture, name: Seq<u8>, d: Seq<u8>, p: int)
    requires
        name.len() == 64,
        field_text(name) == Some(x.name@),
        all_ascii(name) ==> x.name@ == until_nul(ascii_chars(name)),
        0 <= p,
        p + 72 <= d.len(),
        bytes_at(d, p, 72) == encode_named(name, x.flags, x.contents),
    ensures
        encode_named(name, x.flags, x.contents).len() == Texture::spec_size(),
        x.decoded_from(d, p),
{
    lemma_named_layout(name, x.flags, x.contents, d, p);
}

/// Decoding an effect written in its byte layout gives it back, wherever the
/// layout stands, where its 64-byte name field holds its name (as UTF-8, and
/// as ASCII where it is).
pub proof fn lemma_effect_round_trip(x: Effect, name: Seq<u8>, d: Seq<u8>, p: int)
    requires
        name.len() == 64,
        field_text(name) == Some(x.name@),
        all_ascii(name) ==> x.name@ == until_nul(ascii_chars(name)),
        0 <= p,
        p + 72 <= d.len(),
        bytes_at(d, p, 72) == encode_named(name, x.brush, x.unknown),
    ensures
        encode_named(name, x.brush, x.unknown).len() == Effect::spec_size(),
        x.decoded_from(d, p),
{
    lemma_named_layout(name, x.brush, x.unknown, d, p);
}

/// A lump whose records are the layouts of `xs`, one after another, decodes
/// to `xs`: every field comes back exactly, in file order.
pub proof fn lemma_lump_round_trip<T: Encoded>(
    d: Seq<u8>,
    de: Direntry,
    xs: Seq<T>,
    r: Result<Vec<T>, BspError>,
)
    requires
        lump_result(d, de, r),
        lump_in_bounds(d.len() as int, de),
        record_count(de, T::spec_size()) == xs.len(),
        forall|i: int|
            0 <= i < xs.len() ==> bytes_at(d, #[trigger] record_offset(de, T::spec_size(), i), T::spec_size() as int)
                == xs[i].encoding(),
    ensures
        r is Ok,
        r->Ok_0@ == xs,
{
    T::lemma_size_positive();
    assert forall|i: int| 0 <= i < xs.len() implies 0 <= #[trigger] record_offset(
        de,
        T::spec_size(),
        i,
    ) && record_offset(de, T::spec_size(), i) + T::spec_size() <= d.len() by {
        let z = T::spec_size() as int;
        assert(0 <= i * z) by (nonlinear_arith)
            requires
                0 <= i,
                z > 0,
        ;
        assert(i * z + z <= de.length) by (nonlinear_arith)
            requires
                i + 1 <= xs.len(),
                xs.len() == (de.length as int) / z,
                0 <= de.length,
                z > 0,
        ;
    }
    assert(!lump_unreadable::<T>(d, de)) by {
        assert forall|i: int| 0 <= i < record_count(de, T::spec_size()) implies T::readable(
            d,
            #[trigger] record_offset(de, T::spec_size(), i),
        ) by {
            T::lemma_decode_encoding(xs[i], d, record_offset(de, T::spec_size(), i));
        }
    }
    assert forall|i: int| 0 <= i < xs.len() implies r->Ok_0@[i] == xs[i] by {
        let p = record_offset(de, T::spec_size(), i);
        T::lemma_decode_encoding(xs[i], d, p);
        assert(r->Ok_0@[i].decoded_from(d, p));
    }
    assert(r->Ok_0@ =~= xs);
}


} // verus!
