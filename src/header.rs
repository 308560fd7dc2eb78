use vstd::prelude::*;
use crate::bytes::i32_at;
use crate::error::BspError;
use crate::reader::{bytes_at, BSPReader};
use crate::text::{all_ascii, ascii_chars, utf8_text};

verus! {

/// Where a lump lies in the file: a byte offset and a byte length.
#[derive(Debug, Clone, Copy, PartialEq, Eq, Structural)]
pub struct Direntry {
    pub offset: i32,
    pub length: i32,
}

/// The seventeen directory entries, in the order in which the file stores them.
#[derive(Debug, Clone, Copy, PartialEq, Eq, Structural)]
pub struct Direntries {
    pub entities: Direntry,
    pub textures: Direntry,
    pub planes: Direntry,
    pub nodes: Direntry,
    pub leafs: Direntry,
    pub leaffaces: Direntry,
    pub leafbrushes: Direntry,
    pub models: Direntry,
    pub brushes: Direntry,
    pub brushsides: Direntry,
    pub vertexes: Direntry,
    pub meshverts: Direntry,
    pub effects: Direntry,
    pub faces: Direntry,
    pub lightmaps: Direntry,
    pub lightvols: Direntry,
    pub visdata: Direntry,
}

/// The file header: magic tag, format version and lump directory.
#[derive(Debug)]
pub struct Header {
    pub magic: String,
    pub version: i32,
    pub direntries: Direntries,
}

/// The number of directory entries.
pub const DIRENTRY_COUNT: usize = 17;

/// The byte size of the header: tag, version, and eight bytes per entry.
pub const HEADER_SIZE: usize = 144;

/// The format version this decoder reads.
pub const BSP_VERSION: i32 = 46;

/// The bytes of the magic tag "IBSP".
pub open spec fn magic_tag() -> Seq<u8> {
    seq![0x49u8, 0x42u8, 0x53u8, 0x50u8]
}

/// The directory entry stored at byte `p` of `d`.
pub open spec fn direntry_at(d: Seq<u8>, p: int) -> Direntry {
    Direntry { offset: i32_at(d, p), length: i32_at(d, p + 4) }
}

/// The seventeen directory entries stored from byte `p` of `d`.
pub open spec fn direntries_at(d: Seq<u8>, p: int) -> Direntries {
    Direntries {
        entities: direntry_at(d, p),
        textures: direntry_at(d, p + 8),
        planes: direntry_at(d, p + 16),
        nodes: direntry_at(d, p + 24),
        leafs: direntry_at(d, p + 32),
        leaffaces: direntry_at(d, p + 40),
        leafbrushes: direntry_at(d, p + 48),
        models: direntry_at(d, p + 56),
        brushes: direntry_at(d, p + 64),
        brushsides: direntry_at(d, p + 72),
        vertexes: direntry_at(d, p + 80),
        meshverts: direntry_at(d, p + 88),
        effects: direntry_at(d, p + 96),
        faces: direntry_at(d, p + 104),
        lightmaps: direntry_at(d, p + 112),
        lightvols: direntry_at(d, p + 120),
        visdata: direntry_at(d, p + 128),
    }
}

/// `d` holds a header at byte `p`, with the right tag and version.
pub open spec fn header_ok(d: Seq<u8>, p: int) -> bool {
    &&& p + HEADER_SIZE <= d.len()
    &&& bytes_at(d, p, 4) == magic_tag()
    &&& i32_at(d, p + 4) == BSP_VERSION
}

/// The lump that `de` locates lies wholly inside a buffer of `n` bytes.
pub open spec fn lump_in_bounds(n: int, de: Direntry) -> bool {
    &&& 0 <= de.offset
    &&& 0 <= de.length
    &&& de.offset + de.length <= n
}

impl BSPReader {
    /// The directory entry at the read position, where it is known to be there.
    fn next_direntry(&mut self) -> (r: Direntry)
        requires
            old(self).pos() + 8 <= old(self).bytes().len(),
        ensures
            final(self).bytes() == old(self).bytes(),
            final(self).pos() == old(self).pos() + 8,
            r == direntry_at(old(self).bytes(), old(self).pos()),
    {
        let offset = self.next_i32();
        let length = self.next_i32();
        Direntry { offset, length }
    }

    /// Reads one directory entry (offset, then length) at the read position.
    pub fn read_direntry(&mut self) -> (r: Result<Direntry, BspError>)
        ensures
            final(self).bytes() == old(self).bytes(),
            old(self).pos() + 8 <= old(self).bytes().len() ==> r == Ok::<Direntry, BspError>(
                direntry_at(old(self).bytes(), old(self).pos()),
            ) && final(self).pos() == old(self).pos() + 8,
            old(self).pos() + 8 > old(self).bytes().len() ==> r == Err::<Direntry, BspError>(
                BspError::OutOfRange,
            ),
    {
        let n = self.len();
        let p = self.position();
        if p <= n && 8 <= n - p {
            Ok(self.next_direntry())
        } else {
            Err(BspError::OutOfRange)
        }
    }

    /// Reads the seventeen directory entries at the read position, in order.
    pub fn read_direntries(&mut self) -> (r: Result<Direntries, BspError>)
        ensures
            final(self).bytes() == old(self).bytes(),
            old(self).pos() + 136 <= old(self).bytes().len() ==> r == Ok::<Direntries, BspError>(
                direntries_at(old(self).bytes(), old(self).pos()),
            ) && final(self).pos() == old(self).pos() + 136,
            old(self).pos() + 136 > old(self).bytes().len() ==> r == Err::<Direntries, BspError>(
                BspError::OutOfRange,
            ),
    {
        let n = self.len();
        let p = self.position();
        if !(p <= n && 136 <= n - p) {
            return Err(BspError::OutOfRange);
        }
        let entities = self.next_direntry();
        let textures = self.next_direntry();
        let planes = self.next_direntry();
        let nodes = self.next_direntry();
        let leafs = self.next_direntry();
        let leaffaces = self.next_direntry();
        let leafbrushes = self.next_direntry();
        let models = self.next_direntry();
        let brushes = self.next_direntry();
        let brushsides = self.next_direntry();
        let vertexes = self.next_direntry();
        let meshverts = self.next_direntry();
        let effects = self.next_direntry();
        let faces = self.next_direntry();
        let lightmaps = self.next_direntry();
        let lightvols = self.next_direntry();
        let visdata = self.next_direntry();
        Ok(
            Direntries {
                entities,
                textures,
                planes,
                nodes,
                leafs,
                leaffaces,
                leafbrushes,
                models,
                brushes,
                brushsides,
                vertexes,
                meshverts,
                effects,
                faces,
                lightmaps,
                lightvols,
                visdata,
            },
        )
    }

    /// Reads the header at the read position (the start of a file, for a
    /// fresh reader). Too few bytes for it, a tag other than "IBSP" or a
    /// version other than 46 are refused.
    pub fn read_header(&mut self) -> (r: Result<Header, BspError>)
        ensures
            final(self).bytes() == old(self).bytes(),
            r is Ok <==> header_ok(old(self).bytes(), old(self).pos()),
            r is Ok ==> {
                &&& r->Ok_0.magic@ == ascii_chars(magic_tag())
                &&& r->Ok_0.version == BSP_VERSION
                &&& r->Ok_0.direntries == direntries_at(old(self).bytes(), old(self).pos() + 8)
                &&& final(self).pos() == old(self).pos() + HEADER_SIZE
            },
            old(self).pos() + HEADER_SIZE > old(self).bytes().len() ==> r == Err::<
                Header,
                BspError,
            >(BspError::OutOfRange),
            old(self).pos() + HEADER_SIZE <= old(self).bytes().len() && bytes_at(
                old(self).bytes(),
                old(self).pos(),
                4,
            ) != magic_tag() ==> r == Err::<Header, BspError>(BspError::BadMagic),
            old(self).pos() + HEADER_SIZE <= old(self).bytes().len() && bytes_at(
                old(self).bytes(),
                old(self).pos(),
                4,
            ) == magic_tag() && i32_at(old(self).bytes(), old(self).pos() + 4) != BSP_VERSION
                ==> r == Err::<Header, BspError>(BspError::BadVersion),
    {
        let n = self.len();
        let p = self.position();
        if !(p <= n && HEADER_SIZE <= n - p) {
            return Err(BspError::OutOfRange);
        }
        let ghost d = self.bytes();
        if !(self.byte_at(p) == 0x49 && self.byte_at(p + 1) == 0x42 && self.byte_at(p + 2) == 0x53
            && self.byte_at(p + 3) == 0x50) {
            proof {
                if bytes_at(d, p as int, 4) == magic_tag() {
                    assert(bytes_at(d, p as int, 4)[0] == 0x49u8);
                    assert(bytes_at(d, p as int, 4)[1] == 0x42u8);
                    assert(bytes_at(d, p as int, 4)[2] == 0x53u8);
                    assert(bytes_at(d, p as int, 4)[3] == 0x50u8);
                }
            }
            return Err(BspError::BadMagic);
        }
        proof {
            assert(bytes_at(d, p as int, 4) =~= magic_tag());
            assert(all_ascii(bytes_at(d, p as int, 4)));
        }
        let magic = match self.next_raw_text(4) {
            Some(s) => s,
            None => {
                return Err(BspError::InvalidText);
            },
        };
        let version = self.next_i32();
        if version != BSP_VERSION {
            return Err(BspError::BadVersion);
        }
        let direntries = self.read_direntries();
        match direntries {
            Ok(direntries) => Ok(Header { magic, version, direntries }),
            Err(e) => Err(e),
        }
    }

    /// Reads the entity lump: all of its bytes, decoded as UTF-8 text.
    pub fn read_entities(&mut self, direntries: &Direntries) -> (r: Result<String, BspError>)
        ensures
            final(self).bytes() == old(self).bytes(),
            !lump_in_bounds(old(self).bytes().len() as int, direntries.entities) ==> r == Err::<
                String,
                BspError,
            >(BspError::OutOfRange),
            lump_in_bounds(old(self).bytes().len() as int, direntries.entities) ==> {
                let b = bytes_at(
                    old(self).bytes(),
                    direntries.entities.offset as int,
                    direntries.entities.length as int,
                );
                &&& utf8_text(b) is None ==> r == Err::<String, BspError>(BspError::InvalidText)
                &&& utf8_text(b) is Some ==> r is Ok && utf8_text(b) == Some(r->Ok_0@)
                &&& all_ascii(b) ==> r is Ok && r->Ok_0@ == ascii_chars(b)
                &&& r is Ok ==> final(self).pos() == direntries.entities.offset
                    + direntries.entities.length
            },
    {
        let de = direntries.entities;
        let n = self.len();
        if de.offset < 0 || de.length < 0 || de.offset as usize > n || de.length as usize > n
            - de.offset as usize {
            return Err(BspError::OutOfRange);
        }
        self.jump(de.offset as usize);
        match self.next_raw_text(de.length as usize) {
            Some(s) => Ok(s),
            None => Err(BspError::InvalidText),
        }
    }
}

} // verus!
