//! The Flutter release feed and how a reference is resolved against it.

use vstd::prelude::*;

use crate::error::{PristError, Result};
use crate::members::{Held, Member, held, text_at, text_of};
use crate::text::{begins, borrowed, copied, opt_str, opt_text, same, trim_back, trim_front, without_leading, without_trailing, chars_of, starts_with};

verus! {

/// The operating system families for which Flutter is released.
#[derive(Debug, Clone, Copy, PartialEq, Eq, Hash, Structural)]
pub enum Platform {
    Linux,
    Macos,
    Windows,
}

impl Platform {
    /// The platform of the operating system that calls itself `target_os`;
    /// there is none for a system on which Prist does not run.
    pub fn host(target_os: &str) -> (r: Option<Self>)
        ensures
            r == Self::named(target_os@),
    {
        if same(target_os, "linux") {
            Some(Platform::Linux)
        } else if same(target_os, "macos") {
            Some(Platform::Macos)
        } else if same(target_os, "windows") {
            Some(Platform::Windows)
        } else {
            None
        }
    }

    /// The platform of this name.
    pub open spec fn named(name: Seq<char>) -> Option<Self> {
        if name == "linux"@ {
            Some(Platform::Linux)
        } else if name == "macos"@ {
            Some(Platform::Macos)
        } else if name == "windows"@ {
            Some(Platform::Windows)
        } else {
            None
        }
    }

    /// The name of the platform in the address of its feed.
    pub open spec fn name(self) -> Seq<char> {
        match self {
            Platform::Linux => "linux"@,
            Platform::Macos => "macos"@,
            Platform::Windows => "windows"@,
        }
    }

    /// The name of the platform in the address of its feed, e.g. `linux`.
    pub fn as_str(&self) -> (r: &'static str)
        ensures
            r@ == self.name(),
    {
        match self {
            Platform::Linux => "linux",
            Platform::Macos => "macos",
            Platform::Windows => "windows",
        }
    }
}

/// `s` is one of the channels that the feed lists, or `master`.
pub open spec fn channel_name(s: Seq<char>) -> bool {
    s == "stable"@ || s == "beta"@ || s == "dev"@ || s == "master"@
}

/// Whether `s` names a known channel.
pub fn is_channel(s: &str) -> (r: bool)
    ensures
        r == channel_name(s@),
{
    same(s, "stable") || same(s, "beta") || same(s, "dev") || same(s, "master")
}

/// `c` is an ASCII hexadecimal digit of either case.
pub open spec fn hex_digit(c: char) -> bool {
    ('0' <= c && c <= '9') || ('a' <= c && c <= 'f') || ('A' <= c && c <= 'F')
}

/// `s` is 40 hexadecimal digits.
pub open spec fn commit_like(s: Seq<char>) -> bool {
    s.len() == 40 && forall|i: int| 0 <= i < s.len() ==> hex_digit(#[trigger] s[i])
}

/// Whether `s` looks like a git commit hash: 40 hexadecimal digits.
pub fn looks_like_commit_hash(s: &str) -> (r: bool)
    ensures
        r == commit_like(s@),
{
    let v = chars_of(s);
    if v.len() != 40 {
        return false;
    }
    let mut i: usize = 0;
    while i < v.len()
        invariant
            v@ == s@,
            i <= v@.len(),
            forall|j: int| 0 <= j < i ==> hex_digit(#[trigger] v@[j]),
        decreases v@.len() - i,
    {
        let c = v[i];
        if !(('0' <= c && c <= '9') || ('a' <= c && c <= 'f') || ('A' <= c && c <= 'F')) {
            assert(!hex_digit(s@[i as int]));
            return false;
        }
        i += 1;
    }
    true
}

/// One entry of the release feed.
#[derive(Debug)]
pub struct Release {
    /// Commit hash of the Flutter repository at this release.
    pub hash: Option<String>,
    /// Channel: stable, beta or dev.
    pub channel: Option<String>,
    /// Version, e.g. `3.44.7` or `3.47.0-0.1.pre`.
    pub version: Option<String>,
    /// Version of the Dart SDK.
    pub dart_sdk_version: Option<String>,
    /// Architecture of the Dart SDK.
    pub dart_sdk_arch: Option<String>,
    /// Date of the release.
    pub release_date: Option<String>,
    /// Path of the archive below the feed's base address.
    pub archive: Option<String>,
    /// SHA-256 of the archive.
    pub sha256: Option<String>,
}

/// A release as the texts it holds.
#[verifier::ext_equal]
pub struct ReleaseView {
    pub hash: Option<Seq<char>>,
    pub channel: Option<Seq<char>>,
    pub version: Option<Seq<char>>,
    pub dart_sdk_version: Option<Seq<char>>,
    pub dart_sdk_arch: Option<Seq<char>>,
    pub release_date: Option<Seq<char>>,
    pub archive: Option<Seq<char>>,
    pub sha256: Option<Seq<char>>,
}

impl View for Release {
    type V = ReleaseView;

    open spec fn view(&self) -> ReleaseView {
        ReleaseView {
            hash: opt_text(self.hash),
            channel: opt_text(self.channel),
            version: opt_text(self.version),
            dart_sdk_version: opt_text(self.dart_sdk_version),
            dart_sdk_arch: opt_text(self.dart_sdk_arch),
            release_date: opt_text(self.release_date),
            archive: opt_text(self.archive),
            sha256: opt_text(self.sha256),
        }
    }
}

impl ReleaseView {
    /// The release of which nothing is known.
    pub open spec fn unknown() -> Self {
        ReleaseView {
            hash: None,
            channel: None,
            version: None,
            dart_sdk_version: None,
            dart_sdk_arch: None,
            release_date: None,
            archive: None,
            sha256: None,
        }
    }

    /// The head of the repository, which the feed does not list.
    pub open spec fn master() -> Self {
        ReleaseView { channel: Some("master"@), version: Some("master"@), ..Self::unknown() }
    }

    /// The release at one commit.
    pub open spec fn for_commit(hash: Seq<char>) -> Self {
        ReleaseView { hash: Some(hash), ..Self::unknown() }
    }

    /// The release at a git tag that the feed does not list.
    pub open spec fn for_tag(tag: Seq<char>) -> Self {
        ReleaseView { hash: Some(tag), version: Some(tag), ..Self::unknown() }
    }

    /// The address of the archive below `base`.
    pub open spec fn archive_url(self, base: Option<Seq<char>>) -> Option<Seq<char>> {
        match (base, self.archive) {
            (Some(b), Some(a)) => Some(trim_back(b, |c: char| c == '/') + "/"@ + a),
            _ => None,
        }
    }
}

impl Clone for Release {
    fn clone(&self) -> (r: Self)
        ensures
            r == *self,
    {
        Release {
            hash: copied(&self.hash),
            channel: copied(&self.channel),
            version: copied(&self.version),
            dart_sdk_version: copied(&self.dart_sdk_version),
            dart_sdk_arch: copied(&self.dart_sdk_arch),
            release_date: copied(&self.release_date),
            archive: copied(&self.archive),
            sha256: copied(&self.sha256),
        }
    }
}

impl Default for Release {
    fn default() -> (r: Self)
        ensures
            r@ == ReleaseView::unknown(),
    {
        Release {
            hash: None,
            channel: None,
            version: None,
            dart_sdk_version: None,
            dart_sdk_arch: None,
            release_date: None,
            archive: None,
            sha256: None,
        }
    }
}

impl Release {
    /// The release that stands for the head of the repository.
    pub fn master() -> (r: Self)
        ensures
            r@ == ReleaseView::master(),
    {
        Release {
            channel: Some("master".to_string()),
            version: Some("master".to_string()),
            ..Default::default()
        }
    }

    /// The release that stands for one commit.
    pub fn for_commit(hash: &str) -> (r: Self)
        ensures
            r@ == ReleaseView::for_commit(hash@),
    {
        Release { hash: Some(hash.to_string()), ..Default::default() }
    }

    /// The commit hash of the release.
    pub fn commit_hash(&self) -> (r: Option<&str>)
        ensures
            opt_str(r) == self@.hash,
    {
        borrowed(&self.hash)
    }

    /// The address of the release's archive, where both it and the feed's base
    /// address are known.
    pub fn archive_url(&self, feed: &ReleaseFeed) -> (r: Option<String>)
        ensures
            opt_text(r) == self@.archive_url(feed@.base_url),
    {
        match (&feed.base_url, &self.archive) {
            (Some(base), Some(archive)) => Some(
                without_trailing(base.as_str(), '/').concat("/").concat(archive.as_str()),
            ),
            _ => None,
        }
    }
}

/// The current commit of each channel.
#[derive(Debug)]
pub struct CurrentRelease {
    pub stable: Option<String>,
    pub beta: Option<String>,
    pub dev: Option<String>,
}

/// The release feed.
#[derive(Debug)]
pub struct ReleaseFeed {
    pub base_url: Option<String>,
    pub current_release: CurrentRelease,
    pub releases: Vec<Release>,
}

/// A feed as the texts it holds.
pub struct FeedView {
    pub base_url: Option<Seq<char>>,
    pub stable: Option<Seq<char>>,
    pub beta: Option<Seq<char>>,
    pub dev: Option<Seq<char>>,
    pub releases: Seq<ReleaseView>,
}

/// Why a channel stands for no release.
pub enum Refusal {
    /// The feed names no current commit for the channel.
    NoCurrent,
    /// No entry of the feed is at the channel's current commit.
    Unresolved,
}

/// The first release in `rs` of which `p` holds.
pub open spec fn first_where(
    rs: Seq<ReleaseView>,
    p: spec_fn(ReleaseView) -> bool,
) -> Option<ReleaseView>
    decreases rs.len(),
{
    if rs.len() == 0 {
        None
    } else if p(rs[0]) {
        Some(rs[0])
    } else {
        first_where(rs.drop_first(), p)
    }
}

impl FeedView {
    /// The current commit of a channel.
    pub open spec fn current_hash(self, channel: Seq<char>) -> Option<Seq<char>> {
        if channel == "stable"@ {
            self.stable
        } else if channel == "beta"@ {
            self.beta
        } else if channel == "dev"@ {
            self.dev
        } else {
            None
        }
    }

    /// The first entry at a commit.
    pub open spec fn by_hash(self, hash: Seq<char>) -> Option<ReleaseView> {
        first_where(self.releases, |r: ReleaseView| r.hash == Some(hash))
    }

    /// The first entry of a version.
    pub open spec fn by_version(self, version: Seq<char>) -> Option<ReleaseView> {
        first_where(self.releases, |r: ReleaseView| r.version == Some(version))
    }

    /// The first entry of a channel.
    pub open spec fn by_channel(self, channel: Seq<char>) -> Option<ReleaseView> {
        first_where(self.releases, |r: ReleaseView| r.channel == Some(channel))
    }

    /// The entry of a version, however the reference writes the leading `v`.
    pub open spec fn by_any_version(self, reference: Seq<char>) -> Option<ReleaseView> {
        let with_v = if starts_with(reference, seq!['v']) {
            reference
        } else {
            seq!['v'] + reference
        };
        let without_v = trim_front(reference, |c: char| c == 'v');
        match self.by_version(reference) {
            Some(r) => Some(r),
            None => match self.by_version(with_v) {
                Some(r) => Some(r),
                None => self.by_version(without_v),
            },
        }
    }

    /// What a reference stands for.
    pub open spec fn resolution(self, reference: Seq<char>) -> std::result::Result<
        ReleaseView,
        Refusal,
    > {
        if reference == "master"@ {
            Ok(ReleaseView::master())
        } else if channel_name(reference) {
            match self.current_hash(reference) {
                None => Err(Refusal::NoCurrent),
                Some(hash) => match self.by_hash(hash) {
                    None => Err(Refusal::Unresolved),
                    Some(r) => Ok(r),
                },
            }
        } else if commit_like(reference) {
            Ok(ReleaseView::for_commit(reference))
        } else {
            match self.by_any_version(reference) {
                Some(r) => Ok(r),
                None => Ok(ReleaseView::for_tag(reference)),
            }
        }
    }
}

impl View for ReleaseFeed {
    type V = FeedView;

    open spec fn view(&self) -> FeedView {
        FeedView {
            base_url: opt_text(self.base_url),
            stable: opt_text(self.current_release.stable),
            beta: opt_text(self.current_release.beta),
            dev: opt_text(self.current_release.dev),
            releases: self.releases@.map_values(|r: Release| r@),
        }
    }
}

/// Where the feeds are kept.
pub const FEED_BASE: &'static str = "https://storage.googleapis.com/flutter_infra_release/releases";

/// Whether an optional text is exactly `s`.
fn is_text(o: &Option<String>, s: &str) -> (r: bool)
    ensures
        r == (opt_text(*o) == Some(s@)),
{
    match o {
        Some(t) => same(t.as_str(), s),
        None => false,
    }
}

/// The address of a platform's feed.
pub open spec fn feed_address(platform: Platform) -> Seq<char> {
    FEED_BASE@ + "/releases_"@ + platform.name() + ".json"@
}

/// The first entry after which nothing matches earlier is the first where `p` holds.
proof fn lemma_first_where(rs: Seq<ReleaseView>, p: spec_fn(ReleaseView) -> bool, i: int)
    requires
        0 <= i <= rs.len(),
        forall|j: int| 0 <= j < i ==> !p(#[trigger] rs[j]),
        i < rs.len() ==> p(rs[i]),
    ensures
        first_where(rs, p) == (if i < rs.len() {
            Some(rs[i])
        } else {
            None::<ReleaseView>
        }),
    decreases i,
{
    if i > 0 {
        let t = rs.drop_first();
        assert forall|j: int| 0 <= j < i - 1 implies !p(#[trigger] t[j]) by {
            assert(t[j] == rs[j + 1]);
        }
        if i < rs.len() {
            assert(t[i - 1] == rs[i]);
        }
        lemma_first_where(t, p, i - 1);
    }
}

impl ReleaseFeed {
    /// The address of a platform's feed.
    pub fn feed_url(platform: Platform) -> (r: String)
        ensures
            r@ == feed_address(platform),
    {
        FEED_BASE.to_string().concat("/releases_").concat(platform.as_str()).concat(".json")
    }

    /// Whether the server of the feed answered well, by the status that it gave.
    pub fn answered(platform: Platform, status: u16, told: &str) -> (r: Result<()>)
        ensures
            match r {
                Ok(_) => 200 <= status < 300,
                Err(PristError::ReleaseFeed(m)) => !(200 <= status < 300) && m@ == "feed "@
                    + feed_address(platform) + " returned HTTP "@ + told@,
                Err(_) => false,
            },
    {
        if 200 <= status && status < 300 {
            Ok(())
        } else {
            Err(
                PristError::ReleaseFeed(
                    "feed ".to_string().concat(Self::feed_url(platform).as_str()).concat(
                        " returned HTTP ",
                    ).concat(told),
                ),
            )
        }
    }

    /// The current commit of a channel, if the feed names one.
    pub fn current_hash(&self, channel: &str) -> (r: Option<&str>)
        ensures
            opt_str(r) == self@.current_hash(channel@),
    {
        if same(channel, "stable") {
            borrowed(&self.current_release.stable)
        } else if same(channel, "beta") {
            borrowed(&self.current_release.beta)
        } else if same(channel, "dev") {
            borrowed(&self.current_release.dev)
        } else {
            None
        }
    }

    /// The first entry at the commit `hash`.
    pub fn find_by_hash(&self, hash: &str) -> (r: Option<&Release>)
        ensures
            (match r {
                Some(e) => Some(e@),
                None => None,
            }) == self@.by_hash(hash@),
            match r {
                Some(e) => exists|i: int|
                    0 <= i < self.releases@.len() && *e == #[trigger] self.releases@[i] && (
                    e.hash matches Some(t) && t@ == hash@) && forall|j: int|
                        0 <= j < i ==> !((#[trigger] self.releases@[j]).hash matches Some(t)
                            && t@ == hash@),
                None => forall|j: int|
                    0 <= j < self.releases@.len() ==> !((#[trigger] self.releases@[j]).hash matches Some(
                        t,
                    ) && t@ == hash@),
            },
    {
        let ghost p = |e: ReleaseView| e.hash == Some(hash@);
        let mut i: usize = 0;
        while i < self.releases.len()
            invariant
                i <= self.releases@.len(),
                p == (|e: ReleaseView| e.hash == Some(hash@)),
                forall|j: int| 0 <= j < i ==> !p(#[trigger] self@.releases[j]),
                forall|j: int|
                    0 <= j < i ==> !((#[trigger] self.releases@[j]).hash matches Some(t) && t@
                        == hash@),
            decreases self.releases@.len() - i,
        {
            assert(self@.releases[i as int] == self.releases@[i as int]@);
            if is_text(&self.releases[i].hash, hash) {
                let ghost found = self.releases@[i as int];
                proof {
                    assert(found.hash matches Some(t) && t@ == hash@);
                    lemma_first_where(self@.releases, p, i as int);
                }
                return Some(&self.releases[i]);
            }
            i += 1;
        }
        proof {
            lemma_first_where(self@.releases, p, i as int);
        }
        None
    }

    /// The first, and so the newest, entry of exactly this version.
    pub fn find_by_version(&self, version: &str) -> (r: Option<&Release>)
        ensures
            (match r {
                Some(e) => Some(e@),
                None => None,
            }) == self@.by_version(version@),
            match r {
                Some(e) => exists|i: int|
                    0 <= i < self.releases@.len() && *e == #[trigger] self.releases@[i] && (
                    e.version matches Some(t) && t@ == version@) && forall|j: int|
                        0 <= j < i ==> !((#[trigger] self.releases@[j]).version matches Some(t)
                            && t@ == version@),
                None => forall|j: int|
                    0 <= j < self.releases@.len() ==> !((#[trigger] self.releases@[j]).version matches Some(
                        t,
                    ) && t@ == version@),
            },
    {
        let ghost p = |e: ReleaseView| e.version == Some(version@);
        let mut i: usize = 0;
        while i < self.releases.len()
            invariant
                i <= self.releases@.len(),
                p == (|e: ReleaseView| e.version == Some(version@)),
                forall|j: int| 0 <= j < i ==> !p(#[trigger] self@.releases[j]),
                forall|j: int|
                    0 <= j < i ==> !((#[trigger] self.releases@[j]).version matches Some(t) && t@
                        == version@),
            decreases self.releases@.len() - i,
        {
            assert(self@.releases[i as int] == self.releases@[i as int]@);
            if is_text(&self.releases[i].version, version) {
                let ghost found = self.releases@[i as int];
                proof {
                    assert(found.version matches Some(t) && t@ == version@);
                    lemma_first_where(self@.releases, p, i as int);
                }
                return Some(&self.releases[i]);
            }
            i += 1;
        }
        proof {
            lemma_first_where(self@.releases, p, i as int);
        }
        None
    }

    /// The first, and so the newest, entry of a channel.
    pub fn newest_on_channel(&self, channel: &str) -> (r: Option<&Release>)
        ensures
            (match r {
                Some(e) => Some(e@),
                None => None,
            }) == self@.by_channel(channel@),
            match r {
                Some(e) => exists|i: int|
                    0 <= i < self.releases@.len() && *e == #[trigger] self.releases@[i] && (
                    e.channel matches Some(t) && t@ == channel@) && forall|j: int|
                        0 <= j < i ==> !((#[trigger] self.releases@[j]).channel matches Some(t)
                            && t@ == channel@),
                None => forall|j: int|
                    0 <= j < self.releases@.len() ==> !((#[trigger] self.releases@[j]).channel matches Some(
                        t,
                    ) && t@ == channel@),
            },
    {
        let ghost p = |e: ReleaseView| e.channel == Some(channel@);
        let mut i: usize = 0;
        while i < self.releases.len()
            invariant
                i <= self.releases@.len(),
                p == (|e: ReleaseView| e.channel == Some(channel@)),
                forall|j: int| 0 <= j < i ==> !p(#[trigger] self@.releases[j]),
                forall|j: int|
                    0 <= j < i ==> !((#[trigger] self.releases@[j]).channel matches Some(t) && t@
                        == channel@),
            decreases self.releases@.len() - i,
        {
            assert(self@.releases[i as int] == self.releases@[i as int]@);
            if is_text(&self.releases[i].channel, channel) {
                let ghost found = self.releases@[i as int];
                proof {
                    assert(found.channel matches Some(t) && t@ == channel@);
                    lemma_first_where(self@.releases, p, i as int);
                }
                return Some(&self.releases[i]);
            }
            i += 1;
        }
        proof {
            lemma_first_where(self@.releases, p, i as int);
        }
        None
    }

    /// What a reference stands for:
    /// - `stable`, `beta`, `dev`: the current release of the channel;
    /// - `master`: the head of the repository;
    /// - a commit hash: that commit;
    /// - a version, with or without a leading `v`: the first entry of that version;
    /// - anything else: the git tag of that name.
    pub fn resolve(&self, reference: &str) -> (r: Result<Release>)
        ensures
            match r {
                Ok(e) => self@.resolution(reference@) == Ok::<ReleaseView, Refusal>(e@),
                Err(PristError::NoCurrentRelease(n)) => n@ == reference@ && self@.resolution(
                    reference@,
                ) == Err::<ReleaseView, Refusal>(Refusal::NoCurrent),
                Err(PristError::UnresolvedRef(n)) => n@ == reference@ && self@.resolution(
                    reference@,
                ) == Err::<ReleaseView, Refusal>(Refusal::Unresolved),
                Err(_) => false,
            },
    {
        if same(reference, "master") {
            return Ok(Release::master());
        }
        if is_channel(reference) {
            return match self.current_hash(reference) {
                None => Err(PristError::NoCurrentRelease(reference.to_string())),
                Some(hash) => match self.find_by_hash(hash) {
                    None => Err(PristError::UnresolvedRef(reference.to_string())),
                    Some(e) => Ok(e.clone()),
                },
            };
        }
        if looks_like_commit_hash(reference) {
            return Ok(Release::for_commit(reference));
        }
        if let Some(e) = self.find_by_version(reference) {
            return Ok(e.clone());
        }
        proof {
            reveal_strlit("v");
            assert("v"@ =~= seq!['v']);
        }
        let with_v = if begins(reference, "v") {
            reference.to_string()
        } else {
            "v".to_string().concat(reference)
        };
        if let Some(e) = self.find_by_version(with_v.as_str()) {
            return Ok(e.clone());
        }
        let without_v = without_leading(reference, 'v');
        if let Some(e) = self.find_by_version(without_v.as_str()) {
            return Ok(e.clone());
        }
        Ok(
            Release {
                version: Some(reference.to_string()),
                hash: Some(reference.to_string()),
                ..Default::default()
            },
        )
    }
}

/// What a reference stands for, where no feed is needed to tell.
pub open spec fn known(reference: Seq<char>) -> Option<ReleaseView> {
    if reference == "master"@ {
        Some(ReleaseView::master())
    } else if commit_like(reference) {
        Some(ReleaseView::for_commit(reference))
    } else {
        None
    }
}

/// What a reference stands for, where no feed is needed to tell: `master` and
/// commit hashes.
pub fn known_release(reference: &str) -> (r: Option<Release>)
    ensures
        (match r {
            Some(e) => Some(e@),
            None => None,
        }) == known(reference@),
{
    if same(reference, "master") {
        return Some(Release::master());
    }
    if looks_like_commit_hash(reference) {
        return Some(Release::for_commit(reference));
    }
    None
}

/// What is known of a reference without the feed is what every feed says of it.
pub proof fn law_known_references_need_no_feed(feed: FeedView, reference: Seq<char>)
    ensures
        match known(reference) {
            Some(r) => feed.resolution(reference) == Ok::<ReleaseView, Refusal>(r),
            None => true,
        },
{
    reveal_strlit("stable");
    reveal_strlit("beta");
    reveal_strlit("dev");
    reveal_strlit("master");
}

/// A reference that is no channel stands for something in every feed, and so does
/// `master`.
pub proof fn law_only_channels_are_refused(feed: FeedView, reference: Seq<char>)
    ensures
        feed.resolution(reference) is Err ==> channel_name(reference) && reference != "master"@,
{
}

/// What is found first is in the list and fits.
proof fn lemma_first_where_fits(rs: Seq<ReleaseView>, p: spec_fn(ReleaseView) -> bool)
    ensures
        match first_where(rs, p) {
            Some(r) => rs.contains(r) && p(r),
            None => true,
        },
    decreases rs.len(),
{
    if rs.len() > 0 {
        if p(rs[0]) {
            assert(rs.contains(rs[0]));
        } else {
            let t = rs.drop_first();
            lemma_first_where_fits(t, p);
            if let Some(r) = first_where(t, p) {
                let j = choose|j: int| 0 <= j < t.len() && t[j] == r;
                assert(rs[j + 1] == r);
            }
        }
    }
}

/// A channel stands for the entry of the feed at the channel's current commit.
pub proof fn law_channel_is_its_current_release(feed: FeedView, channel: Seq<char>)
    requires
        channel_name(channel),
        channel != "master"@,
    ensures
        match feed.resolution(channel) {
            Ok(r) => feed.releases.contains(r) && r.hash is Some && r.hash == feed.current_hash(
                channel,
            ),
            Err(_) => true,
        },
{
    if let Some(hash) = feed.current_hash(channel) {
        lemma_first_where_fits(feed.releases, |r: ReleaseView| r.hash == Some(hash));
    }
}

/// A version may be written with or without a leading `v`, unless the feed lists it
/// in both ways.
pub proof fn law_leading_v_is_optional(feed: FeedView, version: Seq<char>)
    requires
        version.len() > 0 && version[0] != 'v',
        !channel_name(version) && !commit_like(version),
        feed.by_version(version) is Some <==> feed.by_version(seq!['v'] + version) is None,
    ensures
        feed.resolution(seq!['v'] + version) == feed.resolution(version),
        feed.resolution(version) is Ok,
        feed.releases.contains(feed.resolution(version)->Ok_0),
{
    reveal_strlit("stable");
    reveal_strlit("beta");
    reveal_strlit("dev");
    reveal_strlit("master");
    let long = seq!['v'] + version;
    assert(long[0] == 'v');
    assert("stable"@[0] == 's' && "beta"@[0] == 'b' && "dev"@[0] == 'd' && "master"@[0] == 'm');
    assert(!channel_name(long));
    assert(!hex_digit(long[0]));
    assert(!commit_like(long));
    assert(starts_with(long, seq!['v'])) by {
        assert(long.subrange(0, 1) =~= seq!['v']);
    }
    assert(!starts_with(version, seq!['v'])) by {
        if starts_with(version, seq!['v']) {
            assert(version.subrange(0, 1)[0] == 'v');
        }
    }
    let p = |c: char| c == 'v';
    assert(long.drop_first() =~= version);
    assert(trim_front(version, p) == version);
    assert(trim_front(long, p) == version);
    lemma_first_where_fits(feed.releases, |r: ReleaseView| r.version == Some(version));
    lemma_first_where_fits(feed.releases, |r: ReleaseView| r.version == Some(long));
}

// ---------------------------------------------------------------------------
// Reading a feed
// ---------------------------------------------------------------------------

/// The release that an entry of a feed tells of. What it does not hold as a text is left
/// open, and members that are not known are ignored.
pub open spec fn release_in(m: Map<Seq<char>, Held>) -> ReleaseView {
    ReleaseView {
        hash: text_at(m, "hash"@),
        channel: text_at(m, "channel"@),
        version: text_at(m, "version"@),
        dart_sdk_version: text_at(m, "dart_sdk_version"@),
        dart_sdk_arch: text_at(m, "dart_sdk_arch"@),
        release_date: text_at(m, "release_date"@),
        archive: text_at(m, "archive"@),
        sha256: text_at(m, "sha256"@),
    }
}

impl Release {
    /// The release that an entry of a feed tells of, whatever its shape.
    pub fn from_members(list: &Vec<Member>) -> (r: Self)
        ensures
            r@ == release_in(held(list@)),
    {
        Release {
            hash: text_of(list, "hash"),
            channel: text_of(list, "channel"),
            version: text_of(list, "version"),
            dart_sdk_version: text_of(list, "dart_sdk_version"),
            dart_sdk_arch: text_of(list, "dart_sdk_arch"),
            release_date: text_of(list, "release_date"),
            archive: text_of(list, "archive"),
            sha256: text_of(list, "sha256"),
        }
    }
}

impl ReleaseFeed {
    /// The feed that a document holds, given its members, those of its `current_release`
    /// and those of each of its `releases`. No shape of them breaks it.
    pub fn from_members(
        document: &Vec<Member>,
        current: &Vec<Member>,
        entries: &Vec<Vec<Member>>,
    ) -> (r: Self)
        ensures
            r@.base_url == text_at(held(document@), "base_url"@),
            r@.stable == text_at(held(current@), "stable"@),
            r@.beta == text_at(held(current@), "beta"@),
            r@.dev == text_at(held(current@), "dev"@),
            r@.releases.len() == entries@.len(),
            forall|i: int|
                0 <= i < entries@.len() ==> #[trigger] r@.releases[i] == release_in(
                    held(entries@[i]@),
                ),
    {
        let mut releases: Vec<Release> = Vec::new();
        let mut i: usize = 0;
        while i < entries.len()
            invariant
                i <= entries@.len(),
                releases@.len() == i,
                forall|j: int|
                    0 <= j < i ==> (#[trigger] releases@[j])@ == release_in(held(entries@[j]@)),
            decreases entries@.len() - i,
        {
            releases.push(Release::from_members(&entries[i]));
            i += 1;
        }
        ReleaseFeed {
            base_url: text_of(document, "base_url"),
            current_release: CurrentRelease {
                stable: text_of(current, "stable"),
                beta: text_of(current, "beta"),
                dev: text_of(current, "dev"),
            },
            releases,
        }
    }
}

// ---------------------------------------------------------------------------
// What a reference may stand for
// ---------------------------------------------------------------------------

/// Entry `i` of the feed states exactly the version `v`.
pub open spec fn has_version(feed: ReleaseFeed, i: int, v: Seq<char>) -> bool {
    0 <= i < feed.releases@.len() && (feed.releases@[i].version matches Some(t) && t@ == v)
}

/// Entry `i` of the feed is at exactly the commit `h`.
pub open spec fn has_hash(feed: ReleaseFeed, i: int, h: Seq<char>) -> bool {
    0 <= i < feed.releases@.len() && (feed.releases@[i].hash matches Some(t) && t@ == h)
}

/// What is found first is an entry, and no entry before it fits.
proof fn lemma_first_is_first(rs: Seq<ReleaseView>, p: spec_fn(ReleaseView) -> bool)
    ensures
        match first_where(rs, p) {
            Some(r) => exists|i: int|
                0 <= i < rs.len() && r == #[trigger] rs[i] && p(rs[i]) && forall|j: int|
                    0 <= j < i ==> !p(#[trigger] rs[j]),
            None => forall|j: int| 0 <= j < rs.len() ==> !p(#[trigger] rs[j]),
        },
    decreases rs.len(),
{
    if rs.len() > 0 && !p(rs[0]) {
        let t = rs.drop_first();
        lemma_first_is_first(t, p);
        if let Some(r) = first_where(t, p) {
            let i = choose|i: int|
                0 <= i < t.len() && r == #[trigger] t[i] && p(t[i]) && forall|j: int|
                    0 <= j < i ==> !p(#[trigger] t[j]);
            assert(rs[i + 1] == r);
            assert forall|j: int| 0 <= j < i + 1 implies !p(#[trigger] rs[j]) by {
                if j > 0 {
                    assert(t[j - 1] == rs[j]);
                }
            }
        } else {
            assert forall|j: int| 0 <= j < rs.len() implies !p(#[trigger] rs[j]) by {
                if j > 0 {
                    assert(t[j - 1] == rs[j]);
                }
            }
        }
    } else if rs.len() > 0 {
        assert(rs[0] == rs[0]);
    }
}

/// What looking for a version gives: the first entry that states exactly that version.
proof fn lemma_by_version(feed: ReleaseFeed, v: Seq<char>)
    ensures
        match feed@.by_version(v) {
            Some(r) => exists|i: int| #[trigger]
                has_version(feed, i, v) && feed.releases@[i]@ == r && forall|j: int|
                    0 <= j < i ==> !#[trigger] has_version(feed, j, v),
            None => forall|j: int| !#[trigger] has_version(feed, j, v),
        },
{
    let p = |r: ReleaseView| r.version == Some(v);
    let rs = feed@.releases;
    lemma_first_is_first(rs, p);
    assert forall|j: int| 0 <= j < rs.len() implies #[trigger] rs[j] == feed.releases@[j]@ by {}
    assert forall|j: int| 0 <= j < rs.len() implies (p(#[trigger] rs[j]) <==> has_version(
        feed,
        j,
        v,
    )) by {}
    match feed@.by_version(v) {
        Some(r) => {
            let i = choose|i: int|
                0 <= i < rs.len() && r == #[trigger] rs[i] && p(rs[i]) && forall|j: int|
                    0 <= j < i ==> !p(#[trigger] rs[j]);
            assert(has_version(feed, i, v));
            assert forall|j: int| 0 <= j < i implies !#[trigger] has_version(feed, j, v) by {
                assert(!p(rs[j]));
            }
        },
        None => {
            assert forall|j: int| !#[trigger] has_version(feed, j, v) by {
                if 0 <= j < rs.len() {
                    assert(!p(rs[j]));
                }
            }
        },
    }
}

/// What looking for a commit gives: the first entry that is at exactly that commit.
proof fn lemma_by_hash(feed: ReleaseFeed, h: Seq<char>)
    ensures
        match feed@.by_hash(h) {
            Some(r) => exists|i: int| #[trigger]
                has_hash(feed, i, h) && feed.releases@[i]@ == r && forall|j: int|
                    0 <= j < i ==> !#[trigger] has_hash(feed, j, h),
            None => forall|j: int| !#[trigger] has_hash(feed, j, h),
        },
{
    let p = |r: ReleaseView| r.hash == Some(h);
    let rs = feed@.releases;
    lemma_first_is_first(rs, p);
    assert forall|j: int| 0 <= j < rs.len() implies (p(#[trigger] rs[j]) <==> has_hash(
        feed,
        j,
        h,
    )) by {
        assert(rs[j] == feed.releases@[j]@);
    }
    match feed@.by_hash(h) {
        Some(r) => {
            let i = choose|i: int|
                0 <= i < rs.len() && r == #[trigger] rs[i] && p(rs[i]) && forall|j: int|
                    0 <= j < i ==> !p(#[trigger] rs[j]);
            assert(has_hash(feed, i, h));
            assert forall|j: int| 0 <= j < i implies !#[trigger] has_hash(feed, j, h) by {
                assert(!p(rs[j]));
            }
        },
        None => {
            assert forall|j: int| !#[trigger] has_hash(feed, j, h) by {
                if 0 <= j < rs.len() {
                    assert(!p(rs[j]));
                }
            }
        },
    }
}

/// `bare` is `reference` without the `v`s at its front.
pub open spec fn without_vs(reference: Seq<char>, bare: Seq<char>) -> bool {
    exists|k: int|
        0 <= k <= reference.len() && bare == #[trigger] reference.skip(k) && (forall|j: int|
            0 <= j < k ==> reference[j] == 'v') && (k < reference.len() ==> reference[k] != 'v')
}

/// A version stands for an entry of exactly that version, or of that version with a `v`
/// before it, or without the `v`s at its front, and never for one whose version merely
/// resembles it. Where an entry states exactly the version, it is the first of these.
/// Where no entry states any of the three, the version stands for the tag of that name.
pub proof fn law_version_is_matched_exactly(feed: ReleaseFeed, reference: Seq<char>)
    requires
        reference != "stable"@ && reference != "beta"@ && reference != "dev"@ && reference
            != "master"@,
        !(reference.len() == 40 && forall|i: int|
            0 <= i < 40 ==> "0123456789abcdefABCDEF"@.contains(#[trigger] reference[i])),
    ensures
        feed@.resolution(reference) is Ok,
        (exists|i: int| has_version(feed, i, reference)) ==> exists|i: int| #[trigger]
            has_version(feed, i, reference) && feed@.resolution(reference)->Ok_0
                == feed.releases@[i]@ && forall|j: int|
                0 <= j < i ==> !#[trigger] has_version(feed, j, reference),
        ({
            let r = feed@.resolution(reference)->Ok_0;
            ||| exists|i: int| #[trigger]
                has_version(feed, i, r.version->0) && feed.releases@[i]@ == r && r.version is Some
                    && (r.version->0 == reference || r.version->0 == seq!['v'] + reference
                    || without_vs(reference, r.version->0))
            ||| {
                &&& r.version == Some(reference) && r.hash == Some(reference)
                &&& r.channel is None && r.archive is None && r.sha256 is None
                &&& r.dart_sdk_version is None && r.dart_sdk_arch is None && r.release_date is None
                &&& forall|i: int| !#[trigger] has_version(feed, i, reference)
                &&& reference.len() > 0 && reference[0] != 'v' ==> forall|i: int|
                    !#[trigger] has_version(feed, i, seq!['v'] + reference)
                &&& forall|i: int, bare: Seq<char>|
                    without_vs(reference, bare) ==> !#[trigger] has_version(feed, i, bare)
            }
        }),
{
    reveal_strlit("0123456789abcdefABCDEF");
    let digits = "0123456789abcdefABCDEF"@;
    assert(!commit_like(reference)) by {
        if commit_like(reference) {
            assert forall|i: int| 0 <= i < 40 implies digits.contains(#[trigger] reference[i]) by {
                assert(hex_digit(reference[i]));
                lemma_hex_digits(reference[i]);
            }
        }
    }
    let p = |c: char| c == 'v';
    let k = crate::text::lemma_trim_front_shape(reference, p);
    let bare = trim_front(reference, p);
    assert(bare == reference.skip(k));
    assert(without_vs(reference, bare)) by {
        assert forall|j: int| 0 <= j < k implies reference[j] == 'v' by {
            assert(p(reference[j]));
        }
        if k < reference.len() {
            assert(!p(reference[k]));
        }
    }
    let with_v = if starts_with(reference, seq!['v']) {
        reference
    } else {
        seq!['v'] + reference
    };
    lemma_by_version(feed, reference);
    lemma_by_version(feed, with_v);
    lemma_by_version(feed, bare);
    if reference.len() > 0 && reference[0] != 'v' && starts_with(reference, seq!['v']) {
        assert(reference.subrange(0, 1)[0] == 'v');
    }
    if feed@.by_version(reference) is None && feed@.by_version(with_v) is None && feed@.by_version(
        bare,
    ) is None {
        assert forall|i: int, other: Seq<char>| without_vs(reference, other) implies
            !#[trigger] has_version(feed, i, other) by {
            let m = choose|m: int|
                0 <= m <= reference.len() && other == #[trigger] reference.skip(m) && (forall|j: int|
                    0 <= j < m ==> reference[j] == 'v') && (m < reference.len() ==> reference[m]
                    != 'v');
            if m < k {
                assert(p(reference[m]));
            } else if k < m {
                assert(!p(reference[k]));
            }
            assert(other == bare);
        }
    }
}

/// The hexadecimal digits are these.
proof fn lemma_hex_digits(c: char)
    ensures
        hex_digit(c) <==> "0123456789abcdefABCDEF"@.contains(c),
{
    reveal_strlit("0123456789abcdefABCDEF");
    let d = "0123456789abcdefABCDEF"@;
    if '0' <= c && c <= '9' {
        assert(d[c as int - '0' as int] == c);
    } else if 'a' <= c && c <= 'f' {
        assert(d[10 + c as int - 'a' as int] == c);
    } else if 'A' <= c && c <= 'F' {
        assert(d[16 + c as int - 'A' as int] == c);
    } else if d.contains(c) {
        let i = choose|i: int| 0 <= i < d.len() && d[i] == c;
        assert(hex_digit(d[i]));
    }
}

/// Forty hexadecimal digits, of either case, are a commit, and nothing else is. It stands
/// for itself alone, whatever the feed lists.
pub proof fn law_commit_stands_for_itself(feed: ReleaseFeed, reference: Seq<char>)
    ensures
        commit_like(reference) <==> reference.len() == 40 && forall|i: int|
            0 <= i < 40 ==> "0123456789abcdefABCDEF"@.contains(#[trigger] reference[i]),
        commit_like(reference) ==> (feed@.resolution(reference) matches Ok(r) && r.hash == Some(
            reference,
        ) && r.version is None && r.channel is None && r.archive is None),
{
    reveal_strlit("stable");
    reveal_strlit("beta");
    reveal_strlit("dev");
    reveal_strlit("master");
    if commit_like(reference) {
        assert forall|i: int| 0 <= i < 40 implies "0123456789abcdefABCDEF"@.contains(
            #[trigger] reference[i],
        ) by {
            lemma_hex_digits(reference[i]);
        }
    }
    if reference.len() == 40 && forall|i: int|
        0 <= i < 40 ==> "0123456789abcdefABCDEF"@.contains(#[trigger] reference[i]) {
        assert forall|i: int| 0 <= i < reference.len() implies hex_digit(#[trigger] reference[i]) by {
            lemma_hex_digits(reference[i]);
        }
    }
}

/// What the feed says is current on a channel.
pub open spec fn current_on(feed: ReleaseFeed, channel: Seq<char>, current: Option<String>) -> bool {
    ||| channel == "stable"@ && current == feed.current_release.stable
    ||| channel == "beta"@ && current == feed.current_release.beta
    ||| channel == "dev"@ && current == feed.current_release.dev
}

/// Each of the three channels stands for the first entry at the commit that the feed says
/// is current there; it is refused where the feed names no commit, and where no entry is
/// at that commit. `master` stands for the head of the repository.
pub proof fn law_channels_follow_the_feed(
    feed: ReleaseFeed,
    channel: Seq<char>,
    current: Option<String>,
)
    requires
        current_on(feed, channel, current),
    ensures
        match current {
            None => feed@.resolution(channel) == Err::<ReleaseView, Refusal>(Refusal::NoCurrent),
            Some(h) => match feed@.resolution(channel) {
                Ok(r) => exists|i: int| #[trigger]
                    has_hash(feed, i, h@) && feed.releases@[i]@ == r && forall|j: int|
                        0 <= j < i ==> !#[trigger] has_hash(feed, j, h@),
                Err(refusal) => refusal is Unresolved && forall|j: int|
                    !#[trigger] has_hash(feed, j, h@),
            },
        },
        feed@.resolution("master"@) matches Ok(m) && m.channel == Some("master"@) && m.version
            == Some("master"@) && m.hash is None && m.archive is None,
{
    reveal_strlit("stable");
    reveal_strlit("beta");
    reveal_strlit("dev");
    reveal_strlit("master");
    assert("stable"@.len() == 6 && "beta"@.len() == 4 && "dev"@.len() == 3 && "master"@.len() == 6);
    assert("stable"@[0] != "master"@[0]);
    if let Some(h) = current {
        lemma_by_hash(feed, h@);
    }
}

/// An archive's address is the base address, a slash and the archive's path; slashes at
/// the end of the base address do not matter.
pub proof fn law_archive_address(release: Release, base: Seq<char>)
    ensures
        release@.archive_url(None) is None,
        release.archive is None ==> release@.archive_url(Some(base)) is None,
        release.archive matches Some(a) ==> {
            &&& base.len() == 0 || base.last() != '/' ==> release@.archive_url(Some(base)) == Some(
                base + "/"@ + a@,
            )
            &&& release@.archive_url(Some(base.push('/'))) == release@.archive_url(Some(base))
        },
{
    let p = |c: char| c == '/';
    assert(base.push('/').drop_last() =~= base);
    assert(trim_back(base.push('/'), p) == trim_back(base, p));
}

/// The addresses of the feeds.
pub proof fn law_feed_addresses()
    ensures
        feed_address(Platform::Linux)
            == "https://storage.googleapis.com/flutter_infra_release/releases/releases_linux.json"@,
        feed_address(Platform::Macos)
            == "https://storage.googleapis.com/flutter_infra_release/releases/releases_macos.json"@,
        feed_address(Platform::Windows)
            == "https://storage.googleapis.com/flutter_infra_release/releases/releases_windows.json"@,
{
    reveal_strlit("https://storage.googleapis.com/flutter_infra_release/releases");
    reveal_strlit("/releases_");
    reveal_strlit("linux");
    reveal_strlit("macos");
    reveal_strlit("windows");
    reveal_strlit(".json");
    reveal_strlit("https://storage.googleapis.com/flutter_infra_release/releases/releases_linux.json");
    reveal_strlit("https://storage.googleapis.com/flutter_infra_release/releases/releases_macos.json");
    reveal_strlit(
        "https://storage.googleapis.com/flutter_infra_release/releases/releases_windows.json",
    );
    assert(feed_address(Platform::Linux)
        =~= "https://storage.googleapis.com/flutter_infra_release/releases/releases_linux.json"@);
    assert(feed_address(Platform::Macos)
        =~= "https://storage.googleapis.com/flutter_infra_release/releases/releases_macos.json"@);
    assert(feed_address(Platform::Windows)
        =~= "https://storage.googleapis.com/flutter_infra_release/releases/releases_windows.json"@);
}

/// The view of a release holds each of its texts, and the view of a feed each of its
/// entries, in order.
pub proof fn law_views_leave_nothing_out(release: Release, feed: ReleaseFeed, i: int)
    ensures
        release@.hash == opt_text(release.hash) && release@.channel == opt_text(release.channel)
            && release@.version == opt_text(release.version),
        release@.dart_sdk_version == opt_text(release.dart_sdk_version) && release@.dart_sdk_arch
            == opt_text(release.dart_sdk_arch),
        release@.release_date == opt_text(release.release_date) && release@.archive == opt_text(
            release.archive,
        ) && release@.sha256 == opt_text(release.sha256),
        feed@.base_url == opt_text(feed.base_url) && feed@.stable == opt_text(
            feed.current_release.stable,
        ) && feed@.beta == opt_text(feed.current_release.beta) && feed@.dev == opt_text(
            feed.current_release.dev,
        ),
        feed@.releases.len() == feed.releases@.len(),
        0 <= i < feed.releases@.len() ==> feed@.releases[i] == feed.releases@[i]@,
{
}

/// What an entry of a feed holds as a text is what the release states, member by member,
/// and nothing else is.
pub proof fn law_entry_members(m: Map<Seq<char>, Held>)
    ensures
        release_in(m).hash == if m.contains_key("hash"@) && m["hash"@] is Text {
            Some(m["hash"@]->Text_0)
        } else {
            None
        },
        release_in(m).channel == if m.contains_key("channel"@) && m["channel"@] is Text {
            Some(m["channel"@]->Text_0)
        } else {
            None
        },
        release_in(m).version == if m.contains_key("version"@) && m["version"@] is Text {
            Some(m["version"@]->Text_0)
        } else {
            None
        },
        release_in(m).dart_sdk_version == if m.contains_key("dart_sdk_version"@) && m["dart_sdk_version"@] is Text {
            Some(m["dart_sdk_version"@]->Text_0)
        } else {
            None
        },
        release_in(m).dart_sdk_arch == if m.contains_key("dart_sdk_arch"@) && m["dart_sdk_arch"@] is Text {
            Some(m["dart_sdk_arch"@]->Text_0)
        } else {
            None
        },
        release_in(m).release_date == if m.contains_key("release_date"@) && m["release_date"@] is Text {
            Some(m["release_date"@]->Text_0)
        } else {
            None
        },
        release_in(m).archive == if m.contains_key("archive"@) && m["archive"@] is Text {
            Some(m["archive"@]->Text_0)
        } else {
            None
        },
        release_in(m).sha256 == if m.contains_key("sha256"@) && m["sha256"@] is Text {
            Some(m["sha256"@]->Text_0)
        } else {
            None
        },
{
}

} // verus!
