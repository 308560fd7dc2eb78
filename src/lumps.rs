use vstd::prelude::*;
use crate::error::BspError;
use crate::header::{lump_in_bounds, Direntries, Direntry};
use crate::reader::{ascii_text_at, bytes_at, BSPReader};
use crate::text::all_ascii;
use crate::records::{
    Brush, Brushside, Effect, Face, Leaf, Model, NamedRecord, Node, Plane, Record, Texture, Vertex,
};

verus! {

/// How many whole records of `size` bytes the lump of `de` holds; bytes past
/// the last whole record are not decoded.
pub open spec fn record_count(de: Direntry, size: nat) -> int {
    de.length as int / size as int
}

/// The byte offset of record `i` of the lump of `de`.
pub open spec fn record_offset(de: Direntry, size: nat, i: int) -> int {
    de.offset + i * size
}

/// Where decoding the lump of `de` as records of `size` bytes leaves the read
/// position: just past its last whole record.
pub open spec fn lump_end(de: Direntry, size: nat) -> int {
    record_offset(de, size, record_count(de, size))
}

/// `v` holds, in file order, one record for each whole record of the lump
/// of `de` in `d`.
pub open spec fn decoded_lump<T: Record>(d: Seq<u8>, de: Direntry, v: Seq<T>) -> bool {
    &&& v.len() == record_count(de, T::spec_size())
    &&& forall|i: int|
        0 <= i < v.len() ==> #[trigger] v[i].decoded_from(
            d,
            record_offset(de, T::spec_size(), i),
        )
}

/// Some whole record of the lump of `de` in `d` cannot be decoded.
pub open spec fn lump_unreadable<T: Record>(d: Seq<u8>, de: Direntry) -> bool {
    exists|i: int|
        0 <= i < record_count(de, T::spec_size()) && !T::readable(
            d,
            #[trigger] record_offset(de, T::spec_size(), i),
        )
}

/// What decoding the lump of `de` in `d` as records of type `T` gives: an
/// out-of-range error where the lump does not lie inside `d`, an
/// invalid-text error where a record's text is not UTF-8, and else every
/// whole record in file order.
pub open spec fn lump_result<T: Record>(
    d: Seq<u8>,
    de: Direntry,
    r: Result<Vec<T>, BspError>,
) -> bool {
    if !lump_in_bounds(d.len() as int, de) {
        r == Err::<Vec<T>, BspError>(BspError::OutOfRange)
    } else if lump_unreadable::<T>(d, de) {
        r == Err::<Vec<T>, BspError>(BspError::InvalidText)
    } else {
        r is Ok && decoded_lump(d, de, r->Ok_0@)
    }
}

proof fn lemma_record_fits(count: int, size: int, length: int, i: int)
    requires
        0 < size,
        0 <= length,
        count == length / size,
        0 <= i < count,
    ensures
        (i + 1) * size <= length,
        i * size >= 0,
{
    assert((i + 1) * size <= count * size) by (nonlinear_arith)
        requires
            i + 1 <= count,
            0 < size,
    ;
    assert(count * size <= length) by (nonlinear_arith)
        requires
            count == length / size,
            0 < size,
            0 <= length,
    ;
    assert(i * size >= 0) by (nonlinear_arith)
        requires
            0 <= i,
            0 < size,
    ;
}

impl BSPReader {
    /// Decodes the lump of `direntry` as an array of `T` records: moves to
    /// its offset and decodes `length / size` records in file order. The
    /// lump must lie inside the buffer.
    pub fn read_list<T: Record>(&mut self, direntry: &Direntry) -> (r: Result<Vec<T>, BspError>)
        ensures
            final(self).bytes() == old(self).bytes(),
            lump_result(old(self).bytes(), *direntry, r),
            r is Ok ==> final(self).pos() == lump_end(*direntry, T::spec_size()),
    {
        let ghost d = self.bytes();
        let n = self.len();
        if direntry.offset < 0 || direntry.length < 0 || direntry.offset as usize > n
            || direntry.length as usize > n - direntry.offset as usize {
            return Err(BspError::OutOfRange);
        }
        let offset = direntry.offset as usize;
        let size = T::size();
        let entries = direntry.length as usize / size;
        self.jump(offset);
        let mut list: Vec<T> = Vec::new();
        let mut i: usize = 0;
        while i < entries
            invariant
                self.bytes() == d,
                old(self).bytes() == d,
                d.len() == n,
                lump_in_bounds(n as int, *direntry),
                offset == direntry.offset,
                size == T::spec_size(),
                0 < size,
                entries == record_count(*direntry, T::spec_size()),
                i <= entries,
                self.pos() == record_offset(*direntry, T::spec_size(), i as int),
                list@.len() == i,
                forall|j: int|
                    0 <= j < i ==> #[trigger] list@[j].decoded_from(
                        d,
                        record_offset(*direntry, T::spec_size(), j),
                    ),
                forall|j: int|
                    0 <= j < i ==> T::readable(
                        d,
                        #[trigger] record_offset(*direntry, T::spec_size(), j),
                    ),
            decreases entries - i,
        {
            proof {
                lemma_record_fits(entries as int, size as int, direntry.length as int, i as int);
                assert(record_offset(*direntry, T::spec_size(), i + 1) == self.pos() + size) by (nonlinear_arith)
                    requires
                        self.pos() == record_offset(*direntry, T::spec_size(), i as int),
                        size == T::spec_size(),
                ;
            }
            match T::decode(self) {
                Some(x) => {
                    list.push(x);
                },
                None => {
                    assert(!T::readable(d, record_offset(*direntry, T::spec_size(), i as int)));
                    return Err(BspError::InvalidText);
                },
            }
            i = i + 1;
        }
        proof {
            assert(!lump_unreadable::<T>(d, *direntry)) by {
                assert forall|j: int| 0 <= j < entries implies T::readable(
                    d,
                    #[trigger] record_offset(*direntry, T::spec_size(), j),
                ) by {}
            }
        }
        Ok(list)
    }

    /// Decodes the texture lump.
    pub fn read_textures(&mut self, direntries: &Direntries) -> (r: Result<Vec<Texture>, BspError>)
        ensures
            final(self).bytes() == old(self).bytes(),
            lump_result(old(self).bytes(), direntries.textures, r),
            r is Ok ==> final(self).pos() == lump_end(direntries.textures, Texture::spec_size()),
    {
        self.read_list(&direntries.textures)
    }

    /// Decodes the node lump.
    pub fn read_nodes(&mut self, direntries: &Direntries) -> (r: Result<Vec<Node>, BspError>)
        ensures
            final(self).bytes() == old(self).bytes(),
            lump_result(old(self).bytes(), direntries.nodes, r),
            r is Ok ==> final(self).pos() == lump_end(direntries.nodes, Node::spec_size()),
    {
        self.read_list(&direntries.nodes)
    }

    /// Decodes the leaf-face lump: indices into the face sequence.
    pub fn read_leaffaces(&mut self, direntries: &Direntries) -> (r: Result<Vec<i32>, BspError>)
        ensures
            final(self).bytes() == old(self).bytes(),
            lump_result(old(self).bytes(), direntries.leaffaces, r),
            r is Ok ==> final(self).pos() == lump_end(direntries.leaffaces, <i32 as Record>::spec_size()),
    {
        self.read_list(&direntries.leaffaces)
    }
    /// Decodes the plane lump.
    pub fn read_planes(&mut self, direntries: &Direntries) -> (r: Result<Vec<Plane>, BspError>)
        ensures
            final(self).bytes() == old(self).bytes(),
            lump_result(old(self).bytes(), direntries.planes, r),
            r is Ok ==> final(self).pos() == lump_end(direntries.planes, Plane::spec_size()),
    {
        self.read_list(&direntries.planes)
    }

    /// Decodes the leaf lump.
    pub fn read_leafs(&mut self, direntries: &Direntries) -> (r: Result<Vec<Leaf>, BspError>)
        ensures
            final(self).bytes() == old(self).bytes(),
            lump_result(old(self).bytes(), direntries.leafs, r),
            r is Ok ==> final(self).pos() == lump_end(direntries.leafs, Leaf::spec_size()),
    {
        self.read_list(&direntries.leafs)
    }

    /// Decodes the leaf-brush lump: indices into the brush sequence.
    pub fn read_leafbrushes(&mut self, direntries: &Direntries) -> (r: Result<Vec<i32>, BspError>)
        ensures
            final(self).bytes() == old(self).bytes(),
            lump_result(old(self).bytes(), direntries.leafbrushes, r),
            r is Ok ==> final(self).pos() == lump_end(direntries.leafbrushes, <i32 as Record>::spec_size()),
    {
        self.read_list(&direntries.leafbrushes)
    }

    /// Decodes the model lump.
    pub fn read_models(&mut self, direntries: &Direntries) -> (r: Result<Vec<Model>, BspError>)
        ensures
            final(self).bytes() == old(self).bytes(),
            lump_result(old(self).bytes(), direntries.models, r),
            r is Ok ==> final(self).pos() == lump_end(direntries.models, Model::spec_size()),
    {
        self.read_list(&direntries.models)
    }

    /// Decodes the brush lump.
    pub fn read_brushes(&mut self, direntries: &Direntries) -> (r: Result<Vec<Brush>, BspError>)
        ensures
            final(self).bytes() == old(self).bytes(),
            lump_result(old(self).bytes(), direntries.brushes, r),
            r is Ok ==> final(self).pos() == lump_end(direntries.brushes, Brush::spec_size()),
    {
        self.read_list(&direntries.brushes)
    }

    /// Decodes the brush-side lump.
    pub fn read_brushsides(&mut self, direntries: &Direntries) -> (r: Result<Vec<Brushside>, BspError>)
        ensures
            final(self).bytes() == old(self).bytes(),
            lump_result(old(self).bytes(), direntries.brushsides, r),
            r is Ok ==> final(self).pos() == lump_end(direntries.brushsides, Brushside::spec_size()),
    {
        self.read_list(&direntries.brushsides)
    }

    /// Decodes the vertex lump, 44 bytes per vertex.
    pub fn read_vertexes(&mut self, direntries: &Direntries) -> (r: Result<Vec<Vertex>, BspError>)
        ensures
            final(self).bytes() == old(self).bytes(),
            lump_result(old(self).bytes(), direntries.vertexes, r),
            r is Ok ==> final(self).pos() == lump_end(direntries.vertexes, Vertex::spec_size()),
    {
        self.read_list(&direntries.vertexes)
    }

    /// Decodes the mesh-vertex lump: vertex offsets relative to a face's first vertex.
    pub fn read_meshverts(&mut self, direntries: &Direntries) -> (r: Result<Vec<i32>, BspError>)
        ensures
            final(self).bytes() == old(self).bytes(),
            lump_result(old(self).bytes(), direntries.meshverts, r),
            r is Ok ==> final(self).pos() == lump_end(direntries.meshverts, <i32 as Record>::spec_size()),
    {
        self.read_list(&direntries.meshverts)
    }

    /// Decodes the effect lump.
    pub fn read_effects(&mut self, direntries: &Direntries) -> (r: Result<Vec<Effect>, BspError>)
        ensures
            final(self).bytes() == old(self).bytes(),
            lump_result(old(self).bytes(), direntries.effects, r),
            r is Ok ==> final(self).pos() == lump_end(direntries.effects, Effect::spec_size()),
    {
        self.read_list(&direntries.effects)
    }

    /// Decodes the face lump.
    pub fn read_faces(&mut self, direntries: &Direntries) -> (r: Result<Vec<Face>, BspError>)
        ensures
            final(self).bytes() == old(self).bytes(),
            lump_result(old(self).bytes(), direntries.faces, r),
            r is Ok ==> final(self).pos() == lump_end(direntries.faces, Face::spec_size()),
    {
        self.read_list(&direntries.faces)
    }
}

/// A lump that decodes holds `length / size` records: the bytes of a last
/// partial record are not decoded and raise no error.
pub proof fn lemma_record_count<T: Record>(d: Seq<u8>, de: Direntry, r: Result<Vec<T>, BspError>)
    requires
        lump_result(d, de, r),
        r is Ok,
    ensures
        r->Ok_0@.len() == de.length as int / T::spec_size() as int,
        lump_in_bounds(d.len() as int, de),
{
}

/// A lump that does not lie wholly inside the buffer is never decoded short:
/// decoding it fails with `OutOfRange`.
pub proof fn lemma_out_of_bounds<T: Record>(d: Seq<u8>, de: Direntry, r: Result<Vec<T>, BspError>)
    requires
        lump_result(d, de, r),
        d.len() < de.offset + de.length,
    ensures
        r == Err::<Vec<T>, BspError>(BspError::OutOfRange),
{
}

/// A lump of named records inside the buffer whose name fields are all
/// ASCII decodes, each name being its field's characters up to the first NUL.
pub proof fn lemma_ascii_names<T: NamedRecord>(
    d: Seq<u8>,
    de: Direntry,
    r: Result<Vec<T>, BspError>,
)
    requires
        lump_result(d, de, r),
        lump_in_bounds(d.len() as int, de),
        forall|i: int|
            0 <= i < record_count(de, T::spec_size()) ==> all_ascii(
                #[trigger] bytes_at(d, record_offset(de, T::spec_size(), i), 64),
            ),
    ensures
        r is Ok,
        forall|i: int|
            0 <= i < r->Ok_0@.len() ==> (#[trigger] r->Ok_0@[i]).name_text() == ascii_text_at(
                d,
                record_offset(de, T::spec_size(), i),
                64,
            ),
{
    assert(!lump_unreadable::<T>(d, de)) by {
        assert forall|i: int| 0 <= i < record_count(de, T::spec_size()) implies T::readable(
            d,
            #[trigger] record_offset(de, T::spec_size(), i),
        ) by {
            let p = record_offset(de, T::spec_size(), i);
            assert(all_ascii(bytes_at(d, p, 64)));
            T::lemma_ascii_name(d, p, arbitrary());
        }
    }
    assert forall|i: int| 0 <= i < r->Ok_0@.len() implies (#[trigger] r->Ok_0@[i]).name_text()
        == ascii_text_at(d, record_offset(de, T::spec_size(), i), 64) by {
        let p = record_offset(de, T::spec_size(), i);
        assert(all_ascii(bytes_at(d, p, 64)));
        T::lemma_ascii_name(d, p, r->Ok_0@[i]);
    }
}

} // verus!
