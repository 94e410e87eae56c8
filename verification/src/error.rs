//! What can go wrong, and how it is told to the user.

use vstd::prelude::*;

verus! {

/// Every way in which an operation of Prist can fail.
#[derive(Debug)]
pub enum PristError {
    /// No environment of this name is installed.
    EnvNotFound(String),
    /// An environment of this name is installed already.
    EnvAlreadyExists(String),
    /// The reference stands for no entry of the release feed.
    UnresolvedRef(String),
    /// The release feed could not be had.
    ReleaseFeed(String),
    /// The release feed names no current release for this channel.
    NoCurrentRelease(String),
    /// What was downloaded is not what was expected.
    ChecksumMismatch { what: String, expected: String, actual: String },
    /// There is no engine for this revision.
    EngineArtifact(String),
    /// The reference is of no known form.
    InvalidRef(String),
    /// The shared repository is missing or broken.
    BareCorrupt(String),
    /// An environment lost its tie to the shared repository.
    AlternatesBroken(String),
    /// The file system failed.
    Io(String),
    /// Git failed.
    Git(String),
    /// The network failed.
    Http(String),
    /// A document is no valid JSON.
    Json(String),
    /// Anything else, told in words.
    Other(String),
}

/// What a fallible operation of Prist returns.
pub type Result<T> = std::result::Result<T, PristError>;

impl PristError {
    /// An error told in the words `s`.
    pub fn msg(s: String) -> (r: Self)
        ensures
            r == PristError::Other(s),
    {
        PristError::Other(s)
    }

    /// What the user reads.
    pub open spec fn told(&self) -> Seq<char> {
        match self {
            PristError::EnvNotFound(n) => "environment '"@ + n@ + "' not found"@,
            PristError::EnvAlreadyExists(n) => "environment '"@ + n@
                + "' already exists; remove it first with `prist rm "@ + n@ + "`"@,
            PristError::UnresolvedRef(n) => "version or channel '"@ + n@
                + "' could not be resolved against the release feed"@,
            PristError::ReleaseFeed(e) => "release feed fetch failed: "@ + e@,
            PristError::NoCurrentRelease(n) =>
                "release feed is empty or has no current release for platform '"@ + n@ + "'"@,
            PristError::ChecksumMismatch { what, expected, actual } => "engine hash mismatch for "@
                + what@ + ": expected "@ + expected@ + ", got "@ + actual@,
            PristError::EngineArtifact(h) => "engine artifact unavailable for hash '"@ + h@ + "'"@,
            PristError::InvalidRef(n) => "invalid reference '"@ + n@
                + "': must be a semantic version (3.0.1), a channel (stable/beta/dev/master), or a 40-char commit hash"@,
            PristError::BareCorrupt(p) => "bare repository is missing or corrupt at "@ + p@
                + "; run `prist repair`"@,
            PristError::AlternatesBroken(n) => "alternates file for env '"@ + n@
                + "' is missing or points to a non-existent object store"@,
            PristError::Io(e) => "I/O error: "@ + e@,
            PristError::Git(e) => "git error: "@ + e@,
            PristError::Http(e) => "http error: "@ + e@,
            PristError::Json(e) => "json error: "@ + e@,
            PristError::Other(e) => e@,
        }
    }

    /// What the user reads.
    pub fn message(&self) -> (r: String)
        ensures
            r@ == self.told(),
    {
        match self {
            PristError::EnvNotFound(n) => "environment '".to_string().concat(n.as_str()).concat(
                "' not found",
            ),
            PristError::EnvAlreadyExists(n) => "environment '".to_string().concat(
                n.as_str(),
            ).concat("' already exists; remove it first with `prist rm ").concat(n.as_str()).concat(
                "`",
            ),
            PristError::UnresolvedRef(n) => "version or channel '".to_string().concat(
                n.as_str(),
            ).concat("' could not be resolved against the release feed"),
            PristError::ReleaseFeed(e) => "release feed fetch failed: ".to_string().concat(
                e.as_str(),
            ),
            PristError::NoCurrentRelease(n) =>
                "release feed is empty or has no current release for platform '".to_string().concat(
                n.as_str(),
            ).concat("'"),
            PristError::ChecksumMismatch { what, expected, actual } =>
                "engine hash mismatch for ".to_string().concat(what.as_str()).concat(
                ": expected ",
            ).concat(expected.as_str()).concat(", got ").concat(actual.as_str()),
            PristError::EngineArtifact(h) =>
                "engine artifact unavailable for hash '".to_string().concat(h.as_str()).concat("'"),
            PristError::InvalidRef(n) => "invalid reference '".to_string().concat(
                n.as_str(),
            ).concat(
                "': must be a semantic version (3.0.1), a channel (stable/beta/dev/master), or a 40-char commit hash",
            ),
            PristError::BareCorrupt(p) =>
                "bare repository is missing or corrupt at ".to_string().concat(p.as_str()).concat(
                "; run `prist repair`",
            ),
            PristError::AlternatesBroken(n) => "alternates file for env '".to_string().concat(
                n.as_str(),
            ).concat("' is missing or points to a non-existent object store"),
            PristError::Io(e) => "I/O error: ".to_string().concat(e.as_str()),
            PristError::Git(e) => "git error: ".to_string().concat(e.as_str()),
            PristError::Http(e) => "http error: ".to_string().concat(e.as_str()),
            PristError::Json(e) => "json error: ".to_string().concat(e.as_str()),
            PristError::Other(e) => e.clone(),
        }
    }
}

} // verus!
