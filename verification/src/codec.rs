use vstd::prelude::*;
use vstd::string::StrSliceExecFns;
use crate::algorithm::CompressionType;

verus! {

/// One file of a directory tree: its path relative to the tree's root, and
/// its contents.
#[derive(Debug, Clone, PartialEq)]
pub struct ArchiveEntry {
    pub path: String,
    pub data: Vec<u8>,
}

impl View for ArchiveEntry {
    type V = (Seq<char>, Seq<u8>);

    open spec fn view(&self) -> (Seq<char>, Seq<u8>) {
        (self.path@, self.data@)
    }
}

/// The abstract value of a tree: each entry's path and contents, in order.
pub open spec fn tree_view(es: Seq<ArchiveEntry>) -> Seq<(Seq<char>, Seq<u8>)> {
    es.map_values(|e: ArchiveEntry| e@)
}

/// Whether a `.` or `..` path component begins at position `i` of `p`.
pub open spec fn dot_component_at(p: Seq<char>, i: int) -> bool {
    &&& 0 <= i < p.len()
    &&& p[i] == '.'
    &&& (i + 1 == p.len() || p[i + 1] == '/' || (p[i + 1] == '.' && (i + 2 == p.len() || p[i + 2]
        == '/')))
}

/// A relative path in the plain form the archive layer stores verbatim:
/// nonempty, `/`-separated components, no component empty or `.` or `..`,
/// and no nul character.
pub open spec fn normal_path(p: Seq<char>) -> bool {
    &&& p.len() > 0
    &&& p[0] != '/'
    &&& p[p.len() - 1] != '/'
    &&& (forall|i: int| 0 <= i < p.len() ==> p[i] != '\0')
    &&& (forall|i: int| 0 <= i && i + 1 < p.len() ==> !(#[trigger] p[i] == '/' && p[i + 1] == '/'))
    &&& !dot_component_at(p, 0)
    &&& (forall|i: int| 0 <= i < p.len() && p[i] == '/' ==> !dot_component_at(p, i + 1))
}

/// Whether every path of the tree is in the plain relative form above.
pub open spec fn normal_tree(es: Seq<(Seq<char>, Seq<u8>)>) -> bool {
    forall|i: int| 0 <= i < es.len() ==> normal_path(es[i].0)
}

/// What reading a tar stream yields: the entries' paths and contents, or
/// nothing when the stream is not a well-formed tar stream.
pub uninterp spec fn untar_of(bytes: Seq<u8>) -> Option<Seq<(Seq<char>, Seq<u8>)>>;

/// What decoding a gzip stream yields, or nothing on a malformed stream.
pub uninterp spec fn gunzip_of(bytes: Seq<u8>) -> Option<Seq<u8>>;

/// What decoding a zstd stream yields, or nothing on a malformed stream.
pub uninterp spec fn unzstd_of(bytes: Seq<u8>) -> Option<Seq<u8>>;

/// What decoding an xz stream yields, or nothing on a malformed stream.
pub uninterp spec fn unxz_of(bytes: Seq<u8>) -> Option<Seq<u8>>;

/// What decoding an lz4 frame yields, or nothing on a malformed frame.
pub uninterp spec fn unlz4_of(bytes: Seq<u8>) -> Option<Seq<u8>>;

/// What decoding a stream with the given algorithm yields.
pub open spec fn decoded_of(t: CompressionType, bytes: Seq<u8>) -> Option<Seq<u8>> {
    match t {
        CompressionType::GZIP => gunzip_of(bytes),
        CompressionType::ZSTD => unzstd_of(bytes),
        CompressionType::XZ => unxz_of(bytes),
        CompressionType::LZ4 => unlz4_of(bytes),
    }
}

/// Whether a `.` or `..` component begins at character `k` of the string.
fn dot_at(s: &str, k: usize) -> (b: bool)
    ensures
        b == dot_component_at(s@, k as int),
{
    let n = s.unicode_len();
    if k >= n {
        return false;
    }
    if s.get_char(k) != '.' {
        return false;
    }
    if k + 1 == n {
        return true;
    }
    if s.get_char(k + 1) == '/' {
        return true;
    }
    if s.get_char(k + 1) == '.' {
        if k + 2 == n {
            return true;
        }
        if s.get_char(k + 2) == '/' {
            return true;
        }
    }
    false
}

/// Decides `normal_path`: whether a stored entry path is in the plain
/// relative form, so that extracting it cannot escape the target directory.
pub fn is_normal_path(s: &str) -> (b: bool)
    ensures
        b == normal_path(s@),
{
    let n = s.unicode_len();
    if n == 0 {
        return false;
    }
    if s.get_char(0) == '/' {
        return false;
    }
    if s.get_char(n - 1) == '/' {
        return false;
    }
    if dot_at(s, 0) {
        return false;
    }
    let mut i: usize = 0;
    while i < n
        invariant
            i <= n,
            n == s@.len(),
            forall|j: int| 0 <= j < i ==> s@[j] != '\0',
            forall|j: int|
                0 <= j < i && j + 1 < s@.len() ==> !(#[trigger] s@[j] == '/' && s@[j + 1] == '/'),
            forall|j: int| 0 <= j < i && s@[j] == '/' ==> !dot_component_at(s@, j + 1),
        decreases n - i,
    {
        let c = s.get_char(i);
        if c == '\0' {
            return false;
        }
        if c == '/' {
            if i + 1 < n && s.get_char(i + 1) == '/' {
                return false;
            }
            if dot_at(s, i + 1) {
                return false;
            }
        }
        i = i + 1;
    }
    true
}

/// Relies on `tar::Builder` (`append_data`, `into_inner`) over an in-memory
/// sink: entries whose paths are already in the plain relative form are
/// stored verbatim and read back unchanged by `tar::Archive`, and packing
/// such a tree always succeeds (every write goes to the in-memory sink).
#[verifier::external_body]
pub(crate) fn tar_pack(entries: &Vec<ArchiveEntry>) -> (r: Result<Vec<u8>, String>)
    ensures
        normal_tree(tree_view(entries@)) ==> r is Ok,
        r matches Ok(out) ==> normal_tree(tree_view(entries@)) ==> untar_of(out@) == Some(
            tree_view(entries@),
        ),
{
    let mut builder = tar::Builder::new(Vec::new());
    for e in entries.iter() {
        let mut header = tar::Header::new_gnu();
        header.set_size(e.data.len() as u64);
        header.set_mode(0o644);
        if let Err(x) = builder.append_data(&mut header, &e.path, e.data.as_slice()) {
            return Err(x.to_string());
        }
    }
    builder.into_inner().map_err(|x| x.to_string())
}

/// Relies on `tar::Archive` (`entries`, `Entry::path`, reading an entry)
/// over an in-memory source: yields each entry's path and contents in order.
#[verifier::external_body]
pub(crate) fn tar_unpack(data: &Vec<u8>) -> (r: Result<Vec<ArchiveEntry>, String>)
    ensures
        r matches Ok(v) ==> untar_of(data@) == Some(tree_view(v@)),
        r is Err ==> untar_of(data@) is None,
{
    let mut archive = tar::Archive::new(data.as_slice());
    let mut out: Vec<ArchiveEntry> = Vec::new();
    for next in archive.entries().map_err(|x| x.to_string())? {
        let mut entry = next.map_err(|x| x.to_string())?;
        let path = entry.path().map_err(|x| x.to_string())?.to_string_lossy().into_owned();
        let mut contents = Vec::new();
        std::io::Read::read_to_end(&mut entry, &mut contents).map_err(|x| x.to_string())?;
        out.push(ArchiveEntry { path, data: contents });
    }
    Ok(out)
}

/// Relies on `flate2::write::GzEncoder` (`write_all`, `finish`) over an
/// in-memory sink: writing to a `Vec` cannot fail, so encoding always
/// succeeds; the stream begins with the mandatory gzip header, so it is
/// never empty; and it decodes back to the input.
#[verifier::external_body]
pub(crate) fn gzip_encode(data: &Vec<u8>, level: u32) -> (r: Result<Vec<u8>, String>)
    requires
        level <= 9,
    ensures
        r is Ok,
        r matches Ok(out) ==> out@.len() > 0 && gunzip_of(out@) == Some(data@),
{
    let mut enc = flate2::write::GzEncoder::new(Vec::new(), flate2::Compression::new(level));
    if let Err(x) = std::io::Write::write_all(&mut enc, data.as_slice()) {
        return Err(x.to_string());
    }
    enc.finish().map_err(|x| x.to_string())
}

/// Relies on `flate2::read::GzDecoder`: decoding is a function of the bytes
/// alone, succeeding exactly on well-formed gzip streams.
#[verifier::external_body]
pub(crate) fn gzip_decode(data: &Vec<u8>) -> (r: Result<Vec<u8>, String>)
    ensures
        r matches Ok(v) ==> gunzip_of(data@) == Some(v@),
        r is Err ==> gunzip_of(data@) is None,
{
    let mut dec = flate2::read::GzDecoder::new(data.as_slice());
    let mut out = Vec::new();
    match std::io::Read::read_to_end(&mut dec, &mut out) {
        Ok(_) => Ok(out),
        Err(x) => Err(x.to_string()),
    }
}

/// Relies on `zstd::stream::Encoder` (`new`, `write_all`, `finish`) over an
/// in-memory sink: levels 0 through 21 are accepted (0 selects the default)
/// and writing to a `Vec` cannot fail, so encoding always succeeds; the
/// frame begins with the mandatory magic number, so the output is never
/// empty; and it decodes back to the input.
#[verifier::external_body]
pub(crate) fn zstd_encode(data: &Vec<u8>, level: u32) -> (r: Result<Vec<u8>, String>)
    requires
        level <= 21,
    ensures
        r is Ok,
        r matches Ok(out) ==> out@.len() > 0 && unzstd_of(out@) == Some(data@),
{
    let mut enc = match zstd::stream::Encoder::new(Vec::new(), level as i32) {
        Ok(e) => e,
        Err(x) => return Err(x.to_string()),
    };
    if let Err(x) = std::io::Write::write_all(&mut enc, data.as_slice()) {
        return Err(x.to_string());
    }
    enc.finish().map_err(|x| x.to_string())
}

/// Relies on `zstd::stream::Decoder`: decoding is a function of the bytes
/// alone, succeeding exactly on well-formed zstd streams.
#[verifier::external_body]
pub(crate) fn zstd_decode(data: &Vec<u8>) -> (r: Result<Vec<u8>, String>)
    ensures
        r matches Ok(v) ==> unzstd_of(data@) == Some(v@),
        r is Err ==> unzstd_of(data@) is None,
{
    let mut dec = match zstd::stream::Decoder::new(data.as_slice()) {
        Ok(d) => d,
        Err(x) => return Err(x.to_string()),
    };
    let mut out = Vec::new();
    match std::io::Read::read_to_end(&mut dec, &mut out) {
        Ok(_) => Ok(out),
        Err(x) => Err(x.to_string()),
    }
}

/// Relies on `xz2::write::XzEncoder` (`new`, `write_all`, `finish`) over an
/// in-memory sink: `new` panics on a preset above 9, so such levels are
/// excluded here; for the admitted presets, writing to a `Vec` cannot fail,
/// so encoding always succeeds; the stream carries the mandatory xz header
/// and footer, so it is never empty; and it decodes back to the input.
#[verifier::external_body]
pub(crate) fn xz_encode(data: &Vec<u8>, level: u32) -> (r: Result<Vec<u8>, String>)
    requires
        level <= 9,
    ensures
        r is Ok,
        r matches Ok(out) ==> out@.len() > 0 && unxz_of(out@) == Some(data@),
{
    let mut enc = xz2::write::XzEncoder::new(Vec::new(), level);
    if let Err(x) = std::io::Write::write_all(&mut enc, data.as_slice()) {
        return Err(x.to_string());
    }
    enc.finish().map_err(|x| x.to_string())
}

/// Relies on `xz2::read::XzDecoder`: decoding is a function of the bytes
/// alone, succeeding exactly on well-formed xz streams.
#[verifier::external_body]
pub(crate) fn xz_decode(data: &Vec<u8>) -> (r: Result<Vec<u8>, String>)
    ensures
        r matches Ok(v) ==> unxz_of(data@) == Some(v@),
        r is Err ==> unxz_of(data@) is None,
{
    let mut dec = xz2::read::XzDecoder::new(data.as_slice());
    let mut out = Vec::new();
    match std::io::Read::read_to_end(&mut dec, &mut out) {
        Ok(_) => Ok(out),
        Err(x) => Err(x.to_string()),
    }
}

/// Relies on `lz4::EncoderBuilder` (`level`, `build`) and `Encoder::finish`
/// over an in-memory sink: building with the admitted levels and writing to
/// a `Vec` cannot fail, so encoding always succeeds; the frame begins with
/// the mandatory magic number, so the output is never empty; and it decodes
/// back to the input.
#[verifier::external_body]
pub(crate) fn lz4_encode(data: &Vec<u8>, level: u32) -> (r: Result<Vec<u8>, String>)
    requires
        level <= 9,
    ensures
        r is Ok,
        r matches Ok(out) ==> out@.len() > 0 && unlz4_of(out@) == Some(data@),
{
    let mut enc = match lz4::EncoderBuilder::new().level(level).build(Vec::new()) {
        Ok(e) => e,
        Err(x) => return Err(x.to_string()),
    };
    if let Err(x) = std::io::Write::write_all(&mut enc, data.as_slice()) {
        return Err(x.to_string());
    }
    let (out, result) = enc.finish();
    match result {
        Ok(()) => Ok(out),
        Err(x) => Err(x.to_string()),
    }
}

/// Relies on `lz4::Decoder`: decoding is a function of the bytes alone,
/// succeeding exactly on well-formed lz4 frames.
#[verifier::external_body]
pub(crate) fn lz4_decode(data: &Vec<u8>) -> (r: Result<Vec<u8>, String>)
    ensures
        r matches Ok(v) ==> unlz4_of(data@) == Some(v@),
        r is Err ==> unlz4_of(data@) is None,
{
    let mut dec = match lz4::Decoder::new(data.as_slice()) {
        Ok(d) => d,
        Err(x) => return Err(x.to_string()),
    };
    let mut out = Vec::new();
    match std::io::Read::read_to_end(&mut dec, &mut out) {
        Ok(_) => Ok(out),
        Err(x) => Err(x.to_string()),
    }
}

} // verus!
