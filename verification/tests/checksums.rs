use prist::checksum::{check, verify, Checksum};
use prist::engine::{answered, Artifact, Download};
use prist::error::PristError;
use prist::paths::Location;

const ABC: &str = "ba7816bf8f01cfea414140de5dae2223b00361a396177a9cb410ff61f20015ad";
const NOTHING: &str = "e3b0c44298fc1c149afbf4c8996fb92427ae41e4649b934ca495991b7852b855";

fn artifact(sha256: Option<&str>) -> Artifact {
    Artifact {
        relative_path: "linux/sdk.zip".to_string(),
        url: "https://example.org/sdk.zip".to_string(),
        sha256: sha256.map(|s| s.to_string()),
    }
}

#[test]
fn checksums_are_known_values() {
    let mut sum = Checksum::new();
    sum.absorb(b"abc");
    assert_eq!(sum.finish(), ABC);
    assert_eq!(Checksum::new().finish(), NOTHING);
}

#[test]
fn pieces_do_not_matter() {
    let mut sum = Checksum::new();
    sum.absorb(b"a");
    sum.absorb(b"");
    sum.absorb(b"bc");
    assert_eq!(sum.finish(), ABC);
}

#[test]
fn wrong_checksums_are_told() {
    assert!(verify("x", Some(ABC), b"abc").is_ok());
    assert!(verify("x", None, b"abc").is_ok());
    let e = verify("https://x", Some(NOTHING), b"abc").unwrap_err();
    assert_eq!(
        e.message(),
        format!("checksum mismatch for https://x: expected {NOTHING}, got {ABC}")
    );
    assert!(matches!(check("x", Some("a"), "b"), Err(PristError::Other(_))));
    assert!(check("x", Some("a"), "a").is_ok());
    assert!(check("x", None, "b").is_ok());
}

#[test]
fn downloads_are_kept_by_their_checksum() {
    let mut d = Download::new(artifact(Some(ABC)));
    let dest = d.destination(&Location::at("/cache"));
    assert_eq!(dest.base, "/cache");
    assert_eq!(dest.parts, ["linux/sdk.zip"]);
    d.receive(b"ab");
    d.receive(b"c");
    assert!(d.finish().is_ok());

    let mut d = Download::new(artifact(Some(ABC)));
    d.receive(b"abd");
    assert!(d.finish().unwrap_err().message().starts_with(
        "checksum mismatch for linux/sdk.zip: expected ba7816bf"
    ));

    let d = Download::new(artifact(None));
    assert!(d.finish().is_ok());
}

#[test]
fn servers_answer_well_with_two_hundreds() {
    assert!(answered("u", 200, "200 OK").is_ok());
    assert!(answered("u", 299, "299").is_ok());
    assert_eq!(
        answered("u", 404, "404 Not Found").unwrap_err().message(),
        "u returned HTTP 404 Not Found"
    );
    assert!(answered("u", 199, "199").is_err());
    assert!(answered("u", 300, "300").is_err());
}
