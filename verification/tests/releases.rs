use prist::error::PristError;
use prist::members::{Member, MemberValue};
use prist::releases::{
    is_channel, known_release, looks_like_commit_hash, CurrentRelease, Platform, Release,
    ReleaseFeed,
};

const STABLE: &str = "aaaaaaaaaaaaaaaaaaaaaaaaaaaaaaaaaaaaaaaa";
const BETA: &str = "bbbbbbbbbbbbbbbbbbbbbbbbbbbbbbbbbbbbbbbb";
const OLD: &str = "cccccccccccccccccccccccccccccccccccccccc";

fn release(hash: &str, channel: &str, version: &str) -> Release {
    Release {
        hash: Some(hash.to_string()),
        channel: Some(channel.to_string()),
        version: Some(version.to_string()),
        archive: Some(format!("{channel}/{version}.zip")),
        ..Default::default()
    }
}

fn feed() -> ReleaseFeed {
    ReleaseFeed {
        base_url: Some("https://example.org/flutter//".to_string()),
        current_release: CurrentRelease {
            stable: Some(STABLE.to_string()),
            beta: Some(BETA.to_string()),
            dev: None,
        },
        releases: vec![
            release(BETA, "beta", "3.47.0-0.1.pre"),
            release(STABLE, "stable", "3.44.7"),
            release(OLD, "stable", "v1.12.13"),
            release(OLD, "stable", "3.44.7"),
        ],
    }
}

#[test]
fn channels_are_known_by_name() {
    assert!(is_channel("stable"));
    assert!(is_channel("beta"));
    assert!(is_channel("dev"));
    assert!(is_channel("master"));
    assert!(!is_channel("Stable"));
    assert!(!is_channel(""));
}

#[test]
fn commit_hashes_are_forty_hex_digits() {
    assert!(looks_like_commit_hash(STABLE));
    assert!(looks_like_commit_hash("0123456789ABCDEFabcdef0123456789ABCDEF01"));
    assert!(!looks_like_commit_hash(&STABLE[1..]));
    assert!(!looks_like_commit_hash("gaaaaaaaaaaaaaaaaaaaaaaaaaaaaaaaaaaaaaaa"));
    assert!(!looks_like_commit_hash(""));
}

#[test]
fn platforms_have_names() {
    assert_eq!(Platform::host("linux").map(|p| p.as_str()), Some("linux"));
    assert_eq!(Platform::host("macos").map(|p| p.as_str()), Some("macos"));
    assert_eq!(Platform::host("windows").map(|p| p.as_str()), Some("windows"));
    assert_eq!(
        ReleaseFeed::feed_url(Platform::Macos),
        "https://storage.googleapis.com/flutter_infra_release/releases/releases_macos.json"
    );
}

#[test]
fn channels_resolve_to_their_current_release() {
    let f = feed();
    let r = f.resolve("stable").unwrap();
    assert_eq!(r.commit_hash(), Some(STABLE));
    assert_eq!(r.version.as_deref(), Some("3.44.7"));
    let r = f.resolve("beta").unwrap();
    assert_eq!(r.version.as_deref(), Some("3.47.0-0.1.pre"));
}

#[test]
fn channel_without_current_release_is_refused() {
    let f = feed();
    assert!(matches!(f.resolve("dev"), Err(PristError::NoCurrentRelease(n)) if n == "dev"));
    let mut f = feed();
    f.current_release.stable = Some("dddd".to_string());
    assert!(matches!(f.resolve("stable"), Err(PristError::UnresolvedRef(n)) if n == "stable"));
}

#[test]
fn versions_resolve_with_or_without_v() {
    let f = feed();
    assert_eq!(f.resolve("3.44.7").unwrap().commit_hash(), Some(STABLE));
    assert_eq!(f.resolve("v3.44.7").unwrap().commit_hash(), Some(STABLE));
    assert_eq!(f.resolve("1.12.13").unwrap().commit_hash(), Some(OLD));
    assert_eq!(f.resolve("v1.12.13").unwrap().commit_hash(), Some(OLD));
    assert_eq!(f.resolve("vv3.44.7").unwrap().commit_hash(), Some(STABLE));
}

#[test]
fn anything_else_is_a_tag() {
    let r = feed().resolve("my-tag").unwrap();
    assert_eq!(r.version.as_deref(), Some("my-tag"));
    assert_eq!(r.commit_hash(), Some("my-tag"));
    assert_eq!(r.channel, None);
}

#[test]
fn master_and_commits_need_no_feed() {
    let f = feed();
    let m = known_release("master").unwrap();
    assert_eq!(m.channel.as_deref(), Some("master"));
    assert_eq!(m.version.as_deref(), Some("master"));
    assert_eq!(m.commit_hash(), None);
    assert_eq!(f.resolve("master").unwrap().version, m.version);
    let c = known_release(OLD).unwrap();
    assert_eq!(c.commit_hash(), Some(OLD));
    assert_eq!(c.version, None);
    assert_eq!(f.resolve(OLD).unwrap().version, None);
    assert!(known_release("stable").is_none());
}

#[test]
fn entries_are_found_in_order() {
    let f = feed();
    assert_eq!(f.find_by_version("3.44.7").unwrap().commit_hash(), Some(STABLE));
    assert!(f.find_by_version("9").is_none());
    assert_eq!(f.find_by_hash(OLD).unwrap().version.as_deref(), Some("v1.12.13"));
    assert!(f.find_by_hash("x").is_none());
    assert_eq!(f.newest_on_channel("stable").unwrap().commit_hash(), Some(STABLE));
    assert!(f.newest_on_channel("dev").is_none());
    assert_eq!(f.current_hash("beta"), Some(BETA));
    assert_eq!(f.current_hash("master"), None);
}

#[test]
fn archive_addresses_have_one_slash() {
    let f = feed();
    assert_eq!(
        f.releases[1].archive_url(&f).as_deref(),
        Some("https://example.org/flutter/stable/3.44.7.zip")
    );
    assert_eq!(Release::master().archive_url(&f), None);
    let mut f = feed();
    f.base_url = None;
    assert_eq!(f.releases[1].archive_url(&f), None);
}

#[test]
fn feed_answers_well_with_two_hundreds() {
    assert!(ReleaseFeed::answered(Platform::Linux, 200, "200 OK").is_ok());
    match ReleaseFeed::answered(Platform::Linux, 503, "503 Service Unavailable") {
        Err(PristError::ReleaseFeed(m)) => assert_eq!(
            m,
            "feed https://storage.googleapis.com/flutter_infra_release/releases/releases_linux.json returned HTTP 503 Service Unavailable"
        ),
        r => panic!("{r:?}"),
    }
    assert!(ReleaseFeed::answered(Platform::Linux, 300, "").is_err());
}

#[test]
fn feeds_of_a_new_shape_serve() {
    let text = |key: &str, value: &str| Member {
        key: key.to_string(),
        value: MemberValue::Text(value.to_string()),
    };
    let odd = |key: &str| Member { key: key.to_string(), value: MemberValue::Other };
    let entries = vec![
        vec![text("hash", STABLE), text("version", "3.44.7"), odd("channel"), text("new", "x")],
        vec![],
        vec![text("version", "1"), text("version", "2")],
    ];
    let feed = ReleaseFeed::from_members(
        &vec![odd("base_url")],
        &vec![text("stable", STABLE), odd("beta")],
        &entries,
    );
    assert_eq!(feed.base_url, None);
    assert_eq!(feed.current_hash("beta"), None);
    assert_eq!(feed.releases.len(), 3);
    assert_eq!(feed.releases[0].channel, None);
    assert_eq!(feed.releases[1].hash, None);
    assert_eq!(feed.releases[2].version.as_deref(), Some("2"));
    assert_eq!(feed.resolve("stable").unwrap().version.as_deref(), Some("3.44.7"));
    let full = ["dart_sdk_version", "dart_sdk_arch", "release_date", "archive", "sha256"];
    let r = Release::from_members(&full.iter().map(|k| text(k, k)).collect());
    assert_eq!(r.dart_sdk_version.as_deref(), Some(full[0]));
    assert_eq!(r.dart_sdk_arch.as_deref(), Some(full[1]));
    assert_eq!(r.release_date.as_deref(), Some(full[2]));
    assert_eq!(r.archive.as_deref(), Some(full[3]));
    assert_eq!(r.sha256.as_deref(), Some(full[4]));
}
