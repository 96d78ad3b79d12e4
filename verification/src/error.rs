use vstd::prelude::*;
use vstd::string::StringExecFns;

verus! {

/// The kinds of failure this library reports: the two validation failures
/// (a level outside the algorithm's range, an unrecognized algorithm name),
/// two reserved path-existence kinds, and a catch-all that carries the
/// underlying failure's description.
#[derive(Debug, Clone)]
pub enum ErrorKind {
    InvalidLevel,
    UnknownType,
    UnreachableTarget,
    SourceDoesNotExists,
    Other(String),
}

/// Lowercasing of a character sequence, as `str::to_lowercase` computes it.
pub uninterp spec fn lower_of(s: Seq<char>) -> Seq<char>;

/// ASCII text with no uppercase letter: what lowercasing leaves unchanged.
pub open spec fn ascii_caseless(s: Seq<char>) -> bool {
    forall|i: int|
        0 <= i < s.len() ==> ((#[trigger] s[i]) as u32 <= 127 && !(65 <= s[i] as u32 <= 90))
}

/// Relies on `str::to_lowercase`: the result depends on the characters
/// alone, and characters with no lowercase mapping — ASCII without
/// uppercase letters included — are kept as they are.
#[verifier::external_body]
fn lowercase(s: &str) -> (r: String)
    ensures
        r@ == lower_of(s@),
        ascii_caseless(s@) ==> r@ == s@,
{
    s.to_lowercase()
}

/// The human-readable description of each error kind.
pub open spec fn kind_message_spec(k: ErrorKind) -> Seq<char> {
    match k {
        ErrorKind::InvalidLevel => "Ordered compression level is wrong for this type."@,
        ErrorKind::UnknownType => "Ordered compression type does not recognized"@,
        ErrorKind::UnreachableTarget => "The target does not reachable"@,
        ErrorKind::SourceDoesNotExists => "The source does not exists"@,
        ErrorKind::Other(x) => x@,
    }
}

impl ErrorKind {
    /// Reads an error kind back from its symbolic name: the name is
    /// lowercased and compared to the four known tokens exactly; an
    /// unrecognized name is kept, lowercased, as the catch-all kind.
    pub fn new_by_string(symbol: &str) -> (r: ErrorKind)
        ensures
            lower_of(symbol@) == "invalidlevel"@ ==> r is InvalidLevel,
            lower_of(symbol@) == "unkowntype"@ ==> r is UnknownType,
            lower_of(symbol@) == "unreachabletarget"@ ==> r is UnreachableTarget,
            lower_of(symbol@) == "sourcedoesnotexists"@ ==> r is SourceDoesNotExists,
            lower_of(symbol@) != "invalidlevel"@ && lower_of(symbol@) != "unkowntype"@ && lower_of(
                symbol@,
            ) != "unreachabletarget"@ && lower_of(symbol@) != "sourcedoesnotexists"@ ==> (
            r matches ErrorKind::Other(m) && m@ == lower_of(symbol@)),
    {
        proof {
            reveal_strlit("invalidlevel");
            reveal_strlit("unkowntype");
            reveal_strlit("unreachabletarget");
            reveal_strlit("sourcedoesnotexists");
            // the four tokens differ pairwise already by their lengths
            assert("invalidlevel"@.len() == 12);
            assert("unkowntype"@.len() == 10);
            assert("unreachabletarget"@.len() == 17);
            assert("sourcedoesnotexists"@.len() == 19);
        }
        let lowered = lowercase(symbol);
        if lowered == String::from_str("invalidlevel") {
            ErrorKind::InvalidLevel
        } else if lowered == String::from_str("unkowntype") {
            ErrorKind::UnknownType
        } else if lowered == String::from_str("unreachabletarget") {
            ErrorKind::UnreachableTarget
        } else if lowered == String::from_str("sourcedoesnotexists") {
            ErrorKind::SourceDoesNotExists
        } else {
            ErrorKind::Other(lowered)
        }
    }

    /// The description of this error kind, suitable for direct display.
    pub fn message(&self) -> (r: String)
        ensures
            r@ == kind_message_spec(*self),
    {
        match self {
            ErrorKind::InvalidLevel => String::from_str(
                "Ordered compression level is wrong for this type.",
            ),
            ErrorKind::UnknownType => String::from_str(
                "Ordered compression type does not recognized",
            ),
            ErrorKind::UnreachableTarget => String::from_str("The target does not reachable"),
            ErrorKind::SourceDoesNotExists => String::from_str("The source does not exists"),
            ErrorKind::Other(x) => x.clone(),
        }
    }
}

/// The uniform error both orchestrators surface at the boundary.
#[derive(Debug, Clone)]
pub struct CompressionError {
    pub kind: ErrorKind,
}

impl CompressionError {
    /// Wraps an error kind into the boundary error type.
    pub fn new(kind: ErrorKind) -> (r: CompressionError)
        ensures
            r.kind == kind,
    {
        CompressionError { kind }
    }

    /// The full description of this error, suitable for direct display.
    pub fn message(&self) -> (r: String)
        ensures
            r@ == "Compression Error: "@ + kind_message_spec(self.kind),
    {
        let m = self.kind.message();
        String::from_str("Compression Error: ").concat(m.as_str())
    }
}

} // verus!
