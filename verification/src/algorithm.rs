use vstd::prelude::*;
use crate::casecmp::{chars_eq_ci, seq_eq_ci, str_eq_ci};
use crate::error::{CompressionError, ErrorKind};

verus! {

/// The closed set of supported compression transforms.
#[derive(PartialEq, Eq, Structural, Copy, Clone, Debug)]
pub enum CompressionType {
    LZ4,
    GZIP,
    ZSTD,
    XZ,
}

/// Which textual names parse to which algorithm, up to ASCII case; every
/// other name is rejected.
pub open spec fn parse_spec(s: Seq<char>) -> Option<CompressionType> {
    if seq_eq_ci(s, "lz4"@) {
        Some(CompressionType::LZ4)
    } else if seq_eq_ci(s, "gzip"@) {
        Some(CompressionType::GZIP)
    } else if seq_eq_ci(s, "zstd"@) {
        Some(CompressionType::ZSTD)
    } else if seq_eq_ci(s, "xz"@) {
        Some(CompressionType::XZ)
    } else {
        None
    }
}

/// The canonical lowercase rendering of each algorithm.
pub open spec fn render_spec(t: CompressionType) -> Seq<char> {
    match t {
        CompressionType::LZ4 => "lz4"@,
        CompressionType::GZIP => "gzip"@,
        CompressionType::ZSTD => "zstd"@,
        CompressionType::XZ => "xz"@,
    }
}

/// The legal compression levels: ZSTD accepts 0 through 21, every other
/// algorithm accepts 0 through 9.
pub open spec fn valid_level(t: CompressionType, level: u32) -> bool {
    if t == CompressionType::ZSTD {
        level <= 21
    } else {
        level <= 9
    }
}

/// Checks a compression level against the chosen algorithm's legal range;
/// a pure check with no side effect.
pub fn validate_level(t: CompressionType, level: u32) -> (r: bool)
    ensures
        r == valid_level(t, level),
{
    !((t != CompressionType::ZSTD && level > 9) || level > 21)
}

impl CompressionType {
    /// Parses a caller-supplied algorithm name, case-insensitively; fails
    /// closed on anything but the four supported names.
    pub fn new(symbol: &str) -> (r: Result<CompressionType, CompressionError>)
        ensures
            r matches Ok(t) ==> parse_spec(symbol@) == Some(t),
            r matches Err(e) ==> parse_spec(symbol@) is None && e.kind is UnknownType,
    {
        if str_eq_ci(symbol, "lz4") {
            Ok(CompressionType::LZ4)
        } else if str_eq_ci(symbol, "gzip") {
            Ok(CompressionType::GZIP)
        } else if str_eq_ci(symbol, "zstd") {
            Ok(CompressionType::ZSTD)
        } else if str_eq_ci(symbol, "xz") {
            Ok(CompressionType::XZ)
        } else {
            Err(CompressionError::new(ErrorKind::UnknownType))
        }
    }

    /// Renders the algorithm back to its canonical name; total, never fails.
    pub fn render(&self) -> (r: &'static str)
        ensures
            r@ == render_spec(*self),
    {
        match self {
            CompressionType::LZ4 => "lz4",
            CompressionType::GZIP => "gzip",
            CompressionType::ZSTD => "zstd",
            CompressionType::XZ => "xz",
        }
    }
}

/// Parsing is a left inverse of rendering: the canonical name of every
/// algorithm parses back to that algorithm.
pub proof fn lemma_parse_render(t: CompressionType)
    ensures
        parse_spec(render_spec(t)) == Some(t),
{
    reveal_strlit("lz4");
    reveal_strlit("gzip");
    reveal_strlit("zstd");
    reveal_strlit("xz");
    assert(seq_eq_ci("lz4"@, "lz4"@));
    assert(seq_eq_ci("gzip"@, "gzip"@));
    assert(seq_eq_ci("zstd"@, "zstd"@));
    assert(seq_eq_ci("xz"@, "xz"@));
    assert(!chars_eq_ci("zstd"@[0], "gzip"@[0]));
    assert(!seq_eq_ci("gzip"@, "lz4"@));
    assert(!seq_eq_ci("zstd"@, "lz4"@));
    assert(!seq_eq_ci("zstd"@, "gzip"@));
    assert(!seq_eq_ci("xz"@, "lz4"@));
    assert(!seq_eq_ci("xz"@, "gzip"@));
    assert(!seq_eq_ci("xz"@, "zstd"@));
}

} // verus!
