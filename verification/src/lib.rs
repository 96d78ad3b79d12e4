pub mod algorithm;
pub mod casecmp;
pub mod codec;
pub mod error;

pub use algorithm::CompressionType;
pub use codec::ArchiveEntry;
pub use codec::is_normal_path;
pub use error::CompressionError;
pub use error::ErrorKind;

use vstd::prelude::*;
use crate::algorithm::valid_level;
use crate::codec::{decoded_of, normal_tree, tree_view, untar_of};

verus! {

/// One compression job: where the tree comes from, the directory and file
/// name the archive goes to, and the algorithm and level to compress with.
pub struct Compressor {
    pub from: String,
    pub target: String,
    pub file_name: String,
    pub comp_type: CompressionType,
    pub comp_level: u32,
}

impl Compressor {
    /// A job is well formed when its level is legal for its algorithm.
    pub open spec fn wf(&self) -> bool {
        valid_level(self.comp_type, self.comp_level)
    }

    /// Validates the level against the algorithm before anything else is
    /// done; an illegal pairing is rejected with no side effect.
    pub fn new(
        from: String,
        target: String,
        file_name: String,
        comp_type: CompressionType,
        comp_level: u32,
    ) -> (r: Result<Compressor, CompressionError>)
        ensures
            valid_level(comp_type, comp_level) ==> (r matches Ok(c) && c.wf() && c.from@ == from@
                && c.target@ == target@ && c.file_name@ == file_name@ && c.comp_type == comp_type
                && c.comp_level == comp_level),
            !valid_level(comp_type, comp_level) ==> (r matches Err(e)
                && e.kind is InvalidLevel),
    {
        if (comp_type != CompressionType::ZSTD && comp_level > 9) || comp_level > 21 {
            return Err(CompressionError::new(ErrorKind::InvalidLevel));
        }
        Ok(Compressor { from, target, file_name, comp_type, comp_level })
    }

    /// Packs the tree into a tar stream, then compresses that stream with
    /// the job's algorithm at the job's level. Succeeds whenever every path
    /// is in the plain relative form the archive layer keeps verbatim, and
    /// then yields a non-empty archive that decodes and unpacks back to
    /// exactly the given tree.
    pub fn compress(&self, tree: &Vec<ArchiveEntry>) -> (r: Result<Vec<u8>, CompressionError>)
        requires
            self.wf(),
        ensures
            normal_tree(tree_view(tree@)) ==> r is Ok,
            r matches Ok(out) ==> out@.len() > 0,
            r matches Ok(out) ==> normal_tree(tree_view(tree@)) ==> (exists|t: Seq<u8>|
                #![auto]
                decoded_of(self.comp_type, out@) == Some(t) && untar_of(t) == Some(
                    tree_view(tree@),
                )),
            r matches Err(e) ==> e.kind is Other,
    {
        match self.do_it(tree) {
            Ok(out) => Ok(out),
            Err(x) => Err(CompressionError::new(ErrorKind::Other(x))),
        }
    }

    fn do_it(&self, tree: &Vec<ArchiveEntry>) -> (r: Result<Vec<u8>, String>)
        requires
            self.wf(),
        ensures
            normal_tree(tree_view(tree@)) ==> r is Ok,
            r matches Ok(out) ==> out@.len() > 0,
            r matches Ok(out) ==> normal_tree(tree_view(tree@)) ==> (exists|t: Seq<u8>|
                #![auto]
                decoded_of(self.comp_type, out@) == Some(t) && untar_of(t) == Some(
                    tree_view(tree@),
                )),
    {
        let tar_bytes = match codec::tar_pack(tree) {
            Ok(b) => b,
            Err(x) => {
                return Err(x);
            },
        };
        match self.comp_type {
            CompressionType::GZIP => codec::gzip_encode(&tar_bytes, self.comp_level),
            CompressionType::ZSTD => codec::zstd_encode(&tar_bytes, self.comp_level),
            CompressionType::LZ4 => codec::lz4_encode(&tar_bytes, self.comp_level),
            CompressionType::XZ => codec::xz_encode(&tar_bytes, self.comp_level),
        }
    }
}

/// One decompression job: the archive to read, the directory its contents
/// go to, and the algorithm the archive was compressed with.
pub struct Decompressor {
    pub source: String,
    pub target_dir: String,
    pub comp_type: CompressionType,
}

impl Decompressor {
    /// Records a decompression job; construction never fails.
    pub fn new(source: String, target_dir: String, comp_type: CompressionType) -> (r:
        Decompressor)
        ensures
            r.source@ == source@,
            r.target_dir@ == target_dir@,
            r.comp_type == comp_type,
    {
        Decompressor { source, target_dir, comp_type }
    }

    /// Decodes the archive with the job's algorithm and unpacks the tar
    /// stream inside it. Succeeds exactly on archives both layers accept,
    /// and then returns the stored entries; a stream either layer rejects
    /// (a wrong algorithm included) is a single uniform failure.
    pub fn decompress(&self, data: &Vec<u8>) -> (r: Result<Vec<ArchiveEntry>, CompressionError>)
        ensures
            r matches Ok(v) ==> (exists|t: Seq<u8>|
                #![auto]
                decoded_of(self.comp_type, data@) == Some(t) && untar_of(t) == Some(
                    tree_view(v@),
                )),
            decoded_of(self.comp_type, data@) matches Some(t) ==> untar_of(t) matches Some(es)
                ==> (r matches Ok(v) && tree_view(v@) == es),
            r matches Err(e) ==> e.kind is Other,
    {
        match self.do_it(data) {
            Ok(v) => Ok(v),
            Err(x) => Err(CompressionError::new(ErrorKind::Other(x))),
        }
    }

    fn do_it(&self, data: &Vec<u8>) -> (r: Result<Vec<ArchiveEntry>, String>)
        ensures
            r matches Ok(v) ==> (exists|t: Seq<u8>|
                #![auto]
                decoded_of(self.comp_type, data@) == Some(t) && untar_of(t) == Some(
                    tree_view(v@),
                )),
            decoded_of(self.comp_type, data@) matches Some(t) ==> untar_of(t) matches Some(es)
                ==> (r matches Ok(v) && tree_view(v@) == es),
    {
        let decoded = match self.comp_type {
            CompressionType::GZIP => codec::gzip_decode(data),
            CompressionType::ZSTD => codec::zstd_decode(data),
            CompressionType::LZ4 => codec::lz4_decode(data),
            CompressionType::XZ => codec::xz_decode(data),
        };
        let plain = match decoded {
            Ok(p) => p,
            Err(x) => {
                return Err(x);
            },
        };
        codec::tar_unpack(&plain)
    }
}

/// Round trip: for any tree of plain relative paths, any algorithm, and any
/// level legal for it, compressing and then decompressing succeeds and
/// restores a tree with the same relative paths and the same file contents.
pub fn round_trip(c: &Compressor, d: &Decompressor, tree: &Vec<ArchiveEntry>) -> (r: Result<
    Vec<ArchiveEntry>,
    CompressionError,
>)
    requires
        c.wf(),
        d.comp_type == c.comp_type,
        normal_tree(tree_view(tree@)),
    ensures
        r is Ok,
        r matches Ok(v) ==> tree_view(v@) == tree_view(tree@),
{
    let archive = match c.compress(tree) {
        Ok(a) => a,
        Err(e) => {
            return Err(e);
        },
    };
    let restored = d.decompress(&archive);
    assert(restored is Ok);
    restored
}

} // verus!
