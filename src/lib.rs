//! Decoder for the lump-directory level-geometry format ("IBSP", version 46).
//!
//! A file is a header (magic tag, version, seventeen directory entries) followed
//! by lumps: byte regions that hold either an array of fixed-size records or a
//! text blob. `BSPReader` owns the bytes and a read position, and decodes each
//! lump into typed records in file order. Every integer and float is
//! little-endian; floats are handed out as their IEEE-754 bit patterns.

pub mod error;
pub mod bytes;
pub mod text;
pub mod reader;
pub mod header;
pub mod records;
pub mod lumps;
pub mod mesh;
pub mod encode;
