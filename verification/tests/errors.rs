use prist::error::PristError;

#[test]
fn errors_are_told() {
    let s = |t: &str| t.to_string();
    let told = [
        (PristError::EnvNotFound(s("a")), "environment 'a' not found"),
        (
            PristError::EnvAlreadyExists(s("a")),
            "environment 'a' already exists; remove it first with `prist rm a`",
        ),
        (
            PristError::UnresolvedRef(s("r")),
            "version or channel 'r' could not be resolved against the release feed",
        ),
        (PristError::ReleaseFeed(s("e")), "release feed fetch failed: e"),
        (
            PristError::NoCurrentRelease(s("dev")),
            "release feed is empty or has no current release for platform 'dev'",
        ),
        (
            PristError::ChecksumMismatch { what: s("w"), expected: s("x"), actual: s("y") },
            "engine hash mismatch for w: expected x, got y",
        ),
        (PristError::EngineArtifact(s("h")), "engine artifact unavailable for hash 'h'"),
        (
            PristError::InvalidRef(s("r")),
            "invalid reference 'r': must be a semantic version (3.0.1), a channel (stable/beta/dev/master), or a 40-char commit hash",
        ),
        (
            PristError::BareCorrupt(s("/p")),
            "bare repository is missing or corrupt at /p; run `prist repair`",
        ),
        (
            PristError::AlternatesBroken(s("a")),
            "alternates file for env 'a' is missing or points to a non-existent object store",
        ),
        (PristError::Io(s("e")), "I/O error: e"),
        (PristError::Git(s("e")), "git error: e"),
        (PristError::Http(s("e")), "http error: e"),
        (PristError::Json(s("e")), "json error: e"),
        (PristError::msg(s("e")), "e"),
    ];
    for (e, want) in told {
        assert_eq!(e.message(), want);
    }
}
