//! The repositories behind the environments.
//!
//! - The shared repository (`shared/git_bare.git`): one bare clone of Flutter.
//!   Its automatic garbage collection is turned off, so that it never drops
//!   objects which an environment draws on.
//! - One clone of the shared repository per environment, whose
//!   `.git/objects/info/alternates` points back at the shared objects, checked
//!   out at the commit of the release.

use vstd::prelude::*;

use crate::error::PristError;
use crate::paths::{Location, LocationView, PristHome, bare_repo, env_of, law_home_is_laid_out};
use crate::text::{begins, ends, ends_in, has_char, is_line, lemma_single_piece, law_last_line_may_be_open, law_lines_read_back, law_prefixes_are_stripped, lemma_lines_append, lemma_trim_back, lemma_trim_front, lemma_upto, is_white_space, join, lines, lines_of, lower, lowered, opt_str, opt_text, pieces_of, same, split, starts_with, strip_repeated, stripped, terminate, terminated, texts, trim, trimmed, without_cr};
use crate::work::{Action, Args, ArgView, Outcome, tell_code, told_code};

verus! {

/// The repository of Flutter.
pub const FLUTTER_REPO_URL: &'static str = "https://github.com/flutter/flutter.git";

/// Whether what stands at a place is a bare repository: it has the files `HEAD`
/// and `config` and the directories `objects` and `refs`.
pub fn is_bare_repo(head: bool, objects: bool, refs: bool, config: bool) -> (r: bool)
    ensures
        r == (head && objects && refs && config),
{
    head && objects && refs && config
}

// ---------------------------------------------------------------------------
// Garbage collection
// ---------------------------------------------------------------------------

/// How far a git configuration has been read: whether its last section is `gc`,
/// and whether its last word on `gc.auto` is `0`.
pub struct GcReading {
    pub in_gc: bool,
    pub off: bool,
}

/// What a line of the section `gc` says of `auto`: whether it is set to `0`.
pub open spec fn auto_zero(line: Seq<char>) -> Option<bool> {
    let sides = split(line, '=');
    if lower(trim(sides[0])) == "auto"@ {
        Some(sides.len() == 2 && trim(sides[1]) == "0"@)
    } else {
        None
    }
}

/// A line that opens a section and does nothing else: no setting stands behind the
/// section's name, and no other file is drawn in.
pub open spec fn plain_header(line: Seq<char>) -> bool {
    &&& ends_in(line, ']')
    &&& split(line, ']').len() == 2
    &&& !starts_with(lower(line), "[include"@)
}

/// A line without the comment that may stand at its end. One with a quotation mark is
/// left whole, for a comment does not begin within quotes.
pub open spec fn uncommented(line: Seq<char>) -> Seq<char> {
    if line.contains('"') {
        line
    } else {
        split(split(line, '#')[0], ';')[0]
    }
}

/// A line without the comment that may stand at its end.
fn without_comment(line: &str) -> (r: String)
    ensures
        r@ == uncommented(line@),
{
    if has_char(line, '"') {
        return line.to_string();
    }
    let sides = pieces_of(line, '#');
    assert(texts(sides@)[0] == sides@[0]@);
    let parts = pieces_of(sides[0].as_str(), ';');
    assert(texts(parts@)[0] == parts@[0]@);
    parts[0].clone()
}

/// The reading after one more line. Where a line may have a meaning that is not looked
/// into, nothing before it counts.
pub open spec fn read_gc_line(before: GcReading, line: Seq<char>) -> GcReading {
    let l = trim(uncommented(line));
    if ends_in(l, '\\') {
        GcReading { in_gc: false, off: false }
    } else if starts_with(l, "["@) {
        GcReading { in_gc: lower(l) == "[gc]"@, off: before.off && plain_header(l) }
    } else {
        match auto_zero(l) {
            Some(zero) if before.in_gc => GcReading { in_gc: true, off: zero },
            _ => before,
        }
    }
}

/// The reading after all lines.
pub open spec fn read_gc(list: Seq<Seq<char>>) -> GcReading
    decreases list.len(),
{
    if list.len() == 0 {
        GcReading { in_gc: false, off: false }
    } else {
        read_gc_line(read_gc(list.drop_last()), list.last())
    }
}

/// A git configuration turns automatic garbage collection off.
pub open spec fn gc_off(config: Seq<char>) -> bool {
    read_gc(lines(config)).off
}

/// The section that turns it off.
pub open spec fn gc_section() -> Seq<char> {
    "[gc]\n\tauto = 0\n"@
}

/// What becomes of a git configuration; nothing where it is off already.
pub open spec fn with_gc_off(existing: Seq<char>) -> Option<Seq<char>> {
    if gc_off(existing) {
        None
    } else {
        Some(terminated(existing) + gc_section())
    }
}

/// Whether the configuration turns automatic garbage collection off.
fn is_gc_off(config: &str) -> (r: bool)
    ensures
        r == gc_off(config@),
{
    let all = lines_of(config);
    let mut in_gc: bool = false;
    let mut off: bool = false;
    let mut i: usize = 0;
    assert(texts(all@).take(0) =~= seq![]);
    while i < all.len()
        invariant
            texts(all@) == lines(config@),
            i <= all@.len(),
            read_gc(texts(all@).take(i as int)) == (GcReading { in_gc, off }),
        decreases all@.len() - i,
    {
        let ghost so_far = texts(all@).take(i + 1);
        assert(so_far.drop_last() =~= texts(all@).take(i as int));
        assert(so_far.last() == all@[i as int]@);
        let l = trimmed(without_comment(all[i].as_str()).as_str());
        if ends(l.as_str(), '\\') {
            in_gc = false;
            off = false;
        } else if begins(l.as_str(), "[") {
            let low = lowered(l.as_str());
            let parts = pieces_of(l.as_str(), ']');
            assert(texts(parts@).len() == parts@.len());
            in_gc = same(low.as_str(), "[gc]");
            off = off && ends(l.as_str(), ']') && parts.len() == 2 && !begins(
                low.as_str(),
                "[include",
            );
        } else {
            let sides = pieces_of(l.as_str(), '=');
            proof {
                assert(texts(sides@) == split(l@, '='));
                assert(texts(sides@)[0] == sides@[0]@);
            }
            if same(lowered(trimmed(sides[0].as_str()).as_str()).as_str(), "auto") && in_gc {
                off = sides.len() == 2 && same(trimmed(sides[1].as_str()).as_str(), "0");
            }
        }
        i += 1;
    }
    assert(texts(all@).take(i as int) =~= texts(all@));
    off
}

/// What to write to the configuration of the shared repository so that automatic
/// garbage collection is off; nothing where it is off already.
pub fn set_gc_auto_zero(existing: &str) -> (r: Option<String>)
    ensures
        opt_text(r) == with_gc_off(existing@),
{
    if is_gc_off(existing) {
        return None;
    }
    Some(gc_turned_off(existing))
}

/// The configuration with the section that turns garbage collection off at its end.
fn gc_turned_off(existing: &str) -> (r: String)
    ensures
        r@ == terminated(existing@) + gc_section(),
{
    terminate(existing).concat("[gc]\n\tauto = 0\n")
}

/// The configuration that a repair writes.
pub open spec fn repaired(existing: Seq<char>) -> Seq<char> {
    existing + "\n[gc]\n\tauto = 0\n"@
}

/// The configuration that a repair writes: the existing one, and the section that
/// turns automatic garbage collection off.
pub fn repaired_config(existing: &str) -> (r: String)
    ensures
        r@ == repaired(existing@),
{
    existing.to_string().concat("\n[gc]\n\tauto = 0\n")
}

/// What is left of a text that begins and ends with white space.
proof fn lemma_trim_to(s: Seq<char>, from: int, to: int)
    requires
        0 <= from < to <= s.len(),
        forall|i: int| 0 <= i < from ==> is_white_space(#[trigger] s[i]),
        forall|i: int| to <= i < s.len() ==> is_white_space(#[trigger] s[i]),
        !is_white_space(s[from]),
        !is_white_space(s[to - 1]),
    ensures
        trim(s) == s.subrange(from, to),
{
    let p = |c: char| is_white_space(c);
    lemma_trim_front(s, p, from);
    let t = s.skip(from);
    assert(t[to - from - 1] == s[to - 1]);
    assert forall|i: int| to - from <= i < t.len() implies p(#[trigger] t[i]) by {
        assert(t[i] == s[i + from]);
    }
    lemma_trim_back(t, p, to - from);
    assert(t.take(to - from) =~= s.subrange(from, to));
}

/// A section that sets `auto` to `0` has the last word.
proof fn lemma_gc_section(a: Seq<char>)
    requires
        a.len() == 0 || a.last() == '\n',
    ensures
        gc_off(a + gc_section()),
{
    reveal_strlit("[gc]\n\tauto = 0\n");
    reveal_strlit("[gc]");
    reveal_strlit("\tauto = 0");
    reveal_strlit("[");
    reveal_strlit("auto");
    reveal_strlit("0");
    reveal_strlit("\n");
    let header = "[gc]"@;
    let setting = "\tauto = 0"@;
    lemma_lines_append(a, gc_section());
    assert(gc_section() =~= join(seq![header, setting], "\n"@) + "\n"@) by {
        reveal_with_fuel(join, 3);
        assert(seq![header, setting].drop_last() =~= seq![header]);
    }
    assert(is_line(header));
    assert(is_line(setting));
    law_lines_read_back(seq![header, setting]);
    let all = lines(a) + seq![header, setting];
    assert(all.drop_last() =~= lines(a).push(header));
    assert(all.drop_last().drop_last() =~= lines(a));
    let first = read_gc(lines(a));
    lemma_single_piece(header, '#');
    lemma_single_piece(header, ';');
    lemma_single_piece(setting, '#');
    lemma_single_piece(setting, ';');
    lemma_trim_to(header, 0, 4);
    assert(header.subrange(0, 4) =~= header);
    assert(lower(header) =~= header);
    assert(starts_with(header, "["@)) by {
        assert(header.subrange(0, 1) =~= "["@);
    }
    let second = read_gc_line(first, header);
    assert(second.in_gc);
    lemma_trim_to(setting, 1, 9);
    let l = setting.subrange(1, 9);
    assert(!starts_with(l, "["@)) by {
        assert(l[0] == 'a');
    }
    lemma_upto(l, '=', 5);
    let left = l.take(5);
    let right = l.skip(6);
    lemma_upto(right, '=', 2);
    assert(split(right, '=') == seq![right]);
    assert(split(l, '=') =~= seq![left, right]);
    lemma_trim_to(left, 0, 4);
    assert(lower(left.subrange(0, 4)) =~= "auto"@);
    lemma_trim_to(right, 1, 2);
    assert(right.subrange(1, 2) =~= "0"@);
    assert(auto_zero(l) == Some(true));
    assert(read_gc(all.drop_last()) == second);
    assert(read_gc(all) == read_gc_line(second, setting));
    assert(lines(a + gc_section()) == all);
}

/// Automatic garbage collection is off, whatever the configuration of the shared
/// repository said before, and it is turned off only once.
pub proof fn law_gc_is_forced_off(existing: Seq<char>)
    ensures
        match with_gc_off(existing) {
            Some(text) => gc_off(text) && with_gc_off(text) is None,
            None => gc_off(existing),
        },
{
    lemma_gc_section(terminated(existing));
}

/// A repair turns automatic garbage collection off, whatever the configuration of
/// the shared repository said before.
pub proof fn law_repair_turns_gc_off(existing: Seq<char>)
    ensures
        gc_off(repaired(existing)),
{
    reveal_strlit("[gc]\n\tauto = 0\n");
    reveal_strlit("\n[gc]\n\tauto = 0\n");
    lemma_gc_section(existing.push('\n'));
    assert(repaired(existing) =~= existing.push('\n') + gc_section());
}

// ---------------------------------------------------------------------------
// What an environment holds
// ---------------------------------------------------------------------------

/// The directory of an environment's alternates file.
pub open spec fn alternates_dir(env: LocationView) -> LocationView {
    env.join(".git"@).join("objects"@).join("info"@)
}

/// An environment's alternates file.
pub open spec fn alternates_file(env: LocationView) -> LocationView {
    alternates_dir(env).join("alternates"@)
}

/// The directory of an environment's alternates file.
pub fn alternates_directory(env: &Location) -> (r: Location)
    ensures
        r@ == alternates_dir(env@),
{
    env.join(".git").join("objects").join("info")
}

/// An environment's alternates file.
pub fn alternates_path(env: &Location) -> (r: Location)
    ensures
        r@ == alternates_file(env@),
{
    alternates_directory(env).join("alternates")
}

/// The objects of the shared repository.
pub open spec fn shared_objects(root: LocationView) -> LocationView {
    bare_repo(root).join("objects"@)
}

/// The text of an alternates file that points at the objects at `bare_objects`.
pub fn write_alternates(bare_objects: &str) -> (r: String)
    ensures
        r@ == bare_objects@ + "\n"@,
{
    bare_objects.to_string().concat("\n")
}

/// The paths that an alternates file points at, if it can be read.
pub fn read_alternates(text: Option<&str>) -> (r: Option<Vec<String>>)
    ensures
        match (text, r) {
            (Some(t), Some(list)) => texts(list@) == lines(t@),
            (None, None) => true,
            _ => false,
        },
{
    match text {
        Some(t) => Some(lines_of(t)),
        None => None,
    }
}

/// What is written as an alternates file is read back from it.
pub proof fn law_alternates_read_back(bare_objects: Seq<char>)
    requires
        is_line(bare_objects),
    ensures
        lines(bare_objects + "\n"@) == seq![bare_objects],
{
    assert(join(seq![bare_objects], "\n"@) == bare_objects);
    law_lines_read_back(seq![bare_objects]);
}

/// The file that names the engine revision of an environment.
pub fn engine_version_file(env: &Location) -> (r: Location)
    ensures
        r@ == env@.join("bin"@).join("internal"@).join("engine.version"@),
{
    env.join("bin").join("internal").join("engine.version")
}

/// The engine revision of an environment, if its file can be read.
pub fn read_engine_version(text: Option<&str>) -> (r: Option<String>)
    ensures
        opt_text(r) == match text {
            Some(t) => Some(trim(t@)),
            None => None,
        },
{
    match text {
        Some(t) => Some(trimmed(t)),
        None => None,
    }
}

/// The files that may name the Flutter version of an environment, in the order in
/// which they are asked.
pub fn flutter_version_files(env: &Location) -> (r: Vec<Location>)
    ensures
        r@.len() == 3,
        r@[0]@ == env@.join("bin/internal/version"@),
        r@[1]@ == env@.join("version"@),
        r@[2]@ == env@.join("packages/flutter/pubspec.yaml"@),
{
    let mut files: Vec<Location> = Vec::new();
    files.push(env.join("bin/internal/version"));
    files.push(env.join("version"));
    files.push(env.join("packages/flutter/pubspec.yaml"));
    files
}

/// The first text of a list that begins with `prefix`.
pub open spec fn first_beginning(list: Seq<Seq<char>>, prefix: Seq<char>) -> Option<Seq<char>>
    decreases list.len(),
{
    if list.len() == 0 {
        None
    } else if starts_with(list[0], prefix) {
        Some(list[0])
    } else {
        first_beginning(list.drop_first(), prefix)
    }
}

/// The version that a `pubspec.yaml` states.
pub open spec fn pubspec_version(pubspec: Seq<char>) -> Option<Seq<char>> {
    match first_beginning(lines(pubspec), "version:"@) {
        Some(line) => Some(trim(strip_repeated(line, "version:"@))),
        None => None,
    }
}

/// The Flutter version that the three files state; the first to state one counts.
pub open spec fn flutter_version(
    internal: Option<Seq<char>>,
    version: Option<Seq<char>>,
    pubspec: Option<Seq<char>>,
) -> Option<Seq<char>> {
    match (internal, version, pubspec) {
        (Some(t), _, _) => Some(trim(t)),
        (None, Some(t), _) => Some(trim(t)),
        (None, None, Some(t)) => pubspec_version(t),
        (None, None, None) => None,
    }
}

/// The version that a `pubspec.yaml` states.
fn version_in_pubspec(pubspec: &str) -> (r: Option<String>)
    ensures
        opt_text(r) == pubspec_version(pubspec@),
{
    let all = lines_of(pubspec);
    let mut i: usize = 0;
    assert(texts(all@).skip(0) =~= texts(all@));
    while i < all.len()
        invariant
            i <= all@.len(),
            texts(all@) == lines(pubspec@),
            first_beginning(lines(pubspec@), "version:"@) == first_beginning(
                texts(all@).skip(i as int),
                "version:"@,
            ),
        decreases all@.len() - i,
    {
        let ghost rest = texts(all@).skip(i as int);
        assert(rest[0] == all@[i as int]@);
        assert(rest.drop_first() =~= texts(all@).skip(i + 1));
        if begins(all[i].as_str(), "version:") {
            proof {
                reveal_strlit("version:");
            }
            return Some(trimmed(stripped(all[i].as_str(), "version:").as_str()));
        }
        i += 1;
    }
    None
}

/// The Flutter version of an environment: what `bin/internal/version` holds, else
/// `version`, else what `packages/flutter/pubspec.yaml` states, as far as these can
/// be read.
pub fn read_flutter_version(
    internal: Option<&str>,
    version: Option<&str>,
    pubspec: Option<&str>,
) -> (r: Option<String>)
    ensures
        opt_text(r) == flutter_version(opt_str(internal), opt_str(version), opt_str(pubspec)),
{
    if let Some(t) = internal {
        return Some(trimmed(t));
    }
    if let Some(t) = version {
        return Some(trimmed(t));
    }
    match pubspec {
        Some(t) => version_in_pubspec(t),
        None => None,
    }
}

// ---------------------------------------------------------------------------
// The shared repository
// ---------------------------------------------------------------------------

/// Why a repository could not be had.
#[derive(Debug)]
pub enum GitFailure {
    /// The file system failed.
    System(String),
    /// The bare clone could not be started.
    NoBareClone(String),
    /// The bare clone ended badly.
    BareClone(Option<i32>),
    /// The local clone could not be started.
    NoLocalClone(String),
    /// The local clone ended badly.
    LocalClone(Option<i32>),
    /// The checkout could not be started.
    NoCheckout(String),
    /// The checkout of this reference ended badly.
    Checkout(String, Option<i32>),
}

impl GitFailure {
    /// It is reported as the error `r`.
    pub open spec fn told_as(self, r: PristError) -> bool {
        match self {
            GitFailure::System(e) => r == PristError::Io(e),
            GitFailure::NoBareClone(e) => r matches PristError::Other(m) && m@
                == "failed to run git: "@ + e@,
            GitFailure::BareClone(code) => r matches PristError::Other(m) && m@
                == "git clone --bare failed (exit "@ + told_code(code) + ")"@,
            GitFailure::NoLocalClone(e) => r matches PristError::Other(m) && m@
                == "failed to run git clone: "@ + e@,
            GitFailure::LocalClone(code) => r matches PristError::Other(m) && m@
                == "git clone --shared failed (exit "@ + told_code(code) + ")"@,
            GitFailure::NoCheckout(e) => r matches PristError::Other(m) && m@
                == "failed to run git checkout: "@ + e@,
            GitFailure::Checkout(c, code) => r matches PristError::Other(m) && m@
                == "git checkout "@ + c@ + " failed (exit "@ + told_code(code) + ")"@,
        }
    }

    /// The error that is reported.
    pub fn error(self) -> (r: PristError)
        ensures
            self.told_as(r),
    {
        match self {
            GitFailure::System(e) => PristError::Io(e),
            GitFailure::NoBareClone(e) => PristError::msg(
                "failed to run git: ".to_string().concat(e.as_str()),
            ),
            GitFailure::BareClone(code) => PristError::msg(
                "git clone --bare failed (exit ".to_string().concat(
                    tell_code(code).as_str(),
                ).concat(")"),
            ),
            GitFailure::NoLocalClone(e) => PristError::msg(
                "failed to run git clone: ".to_string().concat(e.as_str()),
            ),
            GitFailure::LocalClone(code) => PristError::msg(
                "git clone --shared failed (exit ".to_string().concat(
                    tell_code(code).as_str(),
                ).concat(")"),
            ),
            GitFailure::NoCheckout(e) => PristError::msg(
                "failed to run git checkout: ".to_string().concat(e.as_str()),
            ),
            GitFailure::Checkout(c, code) => PristError::msg(
                "git checkout ".to_string().concat(c.as_str()).concat(" failed (exit ").concat(
                    tell_code(code).as_str(),
                ).concat(")"),
            ),
        }
    }
}

/// How far the shared repository has been made ready, and the commit that it has
/// to hold, as long as that is open.
#[derive(Debug)]
pub enum EnsureBare {
    /// The directory that holds it is to be created.
    Parent(Option<String>),
    /// Is it there?
    Look(Option<String>),
    /// It is to be cloned.
    Clone(Option<String>),
    /// Its tags are to be fetched.
    FetchTags(Option<String>),
    /// Does it hold the commit?
    Seek(String),
    /// All tags and branches are to be fetched, for they may lead to the commit.
    FetchRefs(String),
    /// The commit itself is to be fetched.
    FetchCommit(String),
    /// Its configuration is to be read.
    ReadConfig,
    /// Garbage collection is to be turned off in this configuration.
    WriteConfig(String),
    /// It is to be turned off, and there is no configuration to be read.
    Unreadable,
    /// It is ready.
    Done,
    Failed(GitFailure),
}

/// Make the shared repository ready: clone it if it is not there, fetch `commit`
/// if one is given that it does not hold, and turn its garbage collection off.
pub fn ensure_bare(commit: Option<String>) -> (r: EnsureBare)
    ensures
        r == EnsureBare::Parent(commit),
{
    EnsureBare::Parent(commit)
}

impl EnsureBare {
    /// What comes once the repository is there.
    pub open spec fn there(commit: Option<String>) -> Self {
        match commit {
            Some(c) => EnsureBare::Seek(c),
            None => EnsureBare::ReadConfig,
        }
    }

    /// What comes after the outcome `o` of the pending action.
    pub open spec fn after(self, o: Outcome) -> Self {
        match self {
            EnsureBare::Parent(commit) => match o {
                Outcome::Failed(e) => EnsureBare::Failed(GitFailure::System(e)),
                _ => EnsureBare::Look(commit),
            },
            EnsureBare::Look(commit) => if o is Yes {
                Self::there(commit)
            } else {
                EnsureBare::Clone(commit)
            },
            EnsureBare::Clone(commit) => match o {
                Outcome::Failed(e) => EnsureBare::Failed(GitFailure::NoBareClone(e)),
                _ => if o.ended_well() {
                    EnsureBare::FetchTags(commit)
                } else {
                    EnsureBare::Failed(GitFailure::BareClone(o.code()))
                },
            },
            EnsureBare::FetchTags(commit) => Self::there(commit),
            EnsureBare::Seek(c) => if o is Yes {
                EnsureBare::ReadConfig
            } else {
                EnsureBare::FetchRefs(c)
            },
            EnsureBare::FetchRefs(c) => EnsureBare::FetchCommit(c),
            EnsureBare::FetchCommit(_) => EnsureBare::ReadConfig,
            EnsureBare::ReadConfig => match o {
                Outcome::Text(t) => if gc_off(t@) {
                    EnsureBare::Done
                } else {
                    EnsureBare::WriteConfig(t)
                },
                _ => EnsureBare::Unreadable,
            },
            EnsureBare::Unreadable | EnsureBare::WriteConfig(_) => match o {
                Outcome::Failed(e) => EnsureBare::Failed(GitFailure::System(e)),
                _ => EnsureBare::Done,
            },
            EnsureBare::Done | EnsureBare::Failed(_) => self,
        }
    }

    /// What comes once the repository is there.
    fn when_there(commit: Option<String>) -> (r: Self)
        ensures
            r == Self::there(commit),
    {
        match commit {
            Some(c) => EnsureBare::Seek(c),
            None => EnsureBare::ReadConfig,
        }
    }

    /// Take in the outcome of the pending action.
    pub fn next(self, o: Outcome) -> (r: Self)
        ensures
            r == self.after(o),
    {
        match self {
            EnsureBare::Parent(commit) => match o {
                Outcome::Failed(e) => EnsureBare::Failed(GitFailure::System(e)),
                _ => EnsureBare::Look(commit),
            },
            EnsureBare::Look(commit) => match o {
                Outcome::Yes => Self::when_there(commit),
                _ => EnsureBare::Clone(commit),
            },
            EnsureBare::Clone(commit) => {
                if o.well() {
                    return EnsureBare::FetchTags(commit);
                }
                let code = o.exit_code();
                match o {
                    Outcome::Failed(e) => EnsureBare::Failed(GitFailure::NoBareClone(e)),
                    _ => EnsureBare::Failed(GitFailure::BareClone(code)),
                }
            },
            EnsureBare::FetchTags(commit) => Self::when_there(commit),
            EnsureBare::Seek(c) => match o {
                Outcome::Yes => EnsureBare::ReadConfig,
                _ => EnsureBare::FetchRefs(c),
            },
            EnsureBare::FetchRefs(c) => EnsureBare::FetchCommit(c),
            EnsureBare::FetchCommit(_) => EnsureBare::ReadConfig,
            EnsureBare::ReadConfig => match o {
                Outcome::Text(t) => if is_gc_off(t.as_str()) {
                    EnsureBare::Done
                } else {
                    EnsureBare::WriteConfig(t)
                },
                _ => EnsureBare::Unreadable,
            },
            EnsureBare::Unreadable | EnsureBare::WriteConfig(_) => match o {
                Outcome::Failed(e) => EnsureBare::Failed(GitFailure::System(e)),
                _ => EnsureBare::Done,
            },
            EnsureBare::Done => EnsureBare::Done,
            EnsureBare::Failed(f) => EnsureBare::Failed(f),
        }
    }
}

/// Arguments that make git work in `directory`.
pub fn git_in(directory: Location) -> (r: Args)
    ensures
        r@ == seq![ArgView::Word("-C"@), ArgView::Place(directory@)],
{
    Args::new().word("-C").place(directory)
}

impl EnsureBare {
    /// Nothing is pending.
    pub open spec fn ended(self) -> bool {
        self is Done || self is Failed
    }

    /// How many outcomes are awaited at most.
    pub open spec fn steps_left(self) -> nat {
        match self {
            EnsureBare::Parent(_) => 9,
            EnsureBare::Look(_) => 8,
            EnsureBare::Clone(_) => 7,
            EnsureBare::FetchTags(_) => 6,
            EnsureBare::Seek(_) => 5,
            EnsureBare::FetchRefs(_) => 4,
            EnsureBare::FetchCommit(_) => 3,
            EnsureBare::ReadConfig => 2,
            EnsureBare::Unreadable => 1,
            EnsureBare::WriteConfig(_) => 1,
            EnsureBare::Done => 0,
            EnsureBare::Failed(_) => 0,
        }
    }

    /// The configuration that is about to be written.
    pub open spec fn config_to_write(self) -> Option<Seq<char>> {
        match self {
            EnsureBare::WriteConfig(t) => Some(terminated(t@) + gc_section()),
            EnsureBare::Unreadable => Some(gc_section()),
            _ => None,
        }
    }

    /// `r` is the pending action, for a home at `root`.
    pub open spec fn asks(self, root: LocationView, r: Option<Action>) -> bool {
        match (self, r) {
            (EnsureBare::Parent(_), Some(Action::MakeParent(l))) => l@ == bare_repo(root),
            (EnsureBare::Look(_), Some(Action::IsBareRepository(l))) => l@ == bare_repo(
                root,
            ),
            (EnsureBare::Clone(_), Some(Action::GitAfterNotice { notice, args })) => notice@
                == "  → fetching Flutter repo (this may take a minute)..."@ && args@ =~= seq![
                ArgView::Word("clone"@),
                ArgView::Word("--bare"@),
                ArgView::Word("--progress"@),
                ArgView::Word(FLUTTER_REPO_URL@),
                ArgView::Place(bare_repo(root)),
            ],
            (EnsureBare::FetchTags(_), Some(Action::Git { args, shown })) => !shown && args@
                =~= seq![
                ArgView::Word("-C"@),
                ArgView::Place(bare_repo(root)),
                ArgView::Word("fetch"@),
                ArgView::Word("origin"@),
                ArgView::Word("+refs/tags/*:refs/tags/*"@),
            ],
            (EnsureBare::Seek(c), Some(Action::HasObject { repository, name })) => repository@
                == bare_repo(root) && name@ == c@,
            (EnsureBare::FetchRefs(_), Some(Action::Git { args, shown })) => !shown && args@
                =~= seq![
                ArgView::Word("-C"@),
                ArgView::Place(bare_repo(root)),
                ArgView::Word("fetch"@),
                ArgView::Word("origin"@),
                ArgView::Word("+refs/tags/*:refs/tags/*"@),
                ArgView::Word("+refs/heads/*:refs/heads/*"@),
            ],
            (EnsureBare::FetchCommit(c), Some(Action::Git { args, shown })) => !shown && args@
                =~= seq![
                ArgView::Word("-C"@),
                ArgView::Place(bare_repo(root)),
                ArgView::Word("fetch"@),
                ArgView::Word("origin"@),
                ArgView::Word(c@),
            ],
            (EnsureBare::ReadConfig, Some(Action::Read(l))) => l@ == bare_repo(root).join(
                "config"@,
            ),
            (
                EnsureBare::Unreadable | EnsureBare::WriteConfig(_),
                Some(Action::Write { file, text }),
            ) => file@ == bare_repo(root).join("config"@) && Some(text@)
                == self.config_to_write(),
            (EnsureBare::Done, None) => true,
            (EnsureBare::Failed(_), None) => true,
            _ => false,
        }
    }

    /// The pending action, if there is one.
    pub fn action(&self, home: &PristHome) -> (r: Option<Action>)
        ensures
            r is Some <==> !self.ended(),
            self.asks(home.root@, r),
    {
        match self {
            EnsureBare::Parent(_) => Some(Action::MakeParent(home.git_bare())),
            EnsureBare::Look(_) => Some(Action::IsBareRepository(home.git_bare())),
            EnsureBare::Clone(_) => Some(
                Action::GitAfterNotice {
                    notice: "  → fetching Flutter repo (this may take a minute)...",
                    args: Args::new().word("clone").word("--bare").word("--progress").word(
                        FLUTTER_REPO_URL,
                    ).place(home.git_bare()),
                },
            ),
            EnsureBare::FetchTags(_) => Some(
                Action::Git {
                    args: git_in(home.git_bare()).word("fetch").word("origin").word(
                        "+refs/tags/*:refs/tags/*",
                    ),
                    shown: false,
                },
            ),
            EnsureBare::Seek(c) => Some(
                Action::HasObject { repository: home.git_bare(), name: c.clone() },
            ),
            EnsureBare::FetchRefs(_) => Some(
                Action::Git {
                    args: git_in(home.git_bare()).word("fetch").word("origin").word(
                        "+refs/tags/*:refs/tags/*",
                    ).word("+refs/heads/*:refs/heads/*"),
                    shown: false,
                },
            ),
            EnsureBare::FetchCommit(c) => Some(
                Action::Git {
                    args: git_in(home.git_bare()).word("fetch").word("origin").word(c.as_str()),
                    shown: false,
                },
            ),
            EnsureBare::ReadConfig => Some(Action::Read(home.git_bare().join("config"))),
            EnsureBare::Unreadable => Some(
                Action::Write {
                    file: home.git_bare().join("config"),
                    text: "[gc]\n\tauto = 0\n".to_string(),
                },
            ),
            EnsureBare::WriteConfig(t) => Some(
                Action::Write {
                    file: home.git_bare().join("config"),
                    text: gc_turned_off(t.as_str()),
                },
            ),
            EnsureBare::Done => None,
            EnsureBare::Failed(_) => None,
        }
    }
}

/// The shared repository is ready only once its garbage collection is off: either
/// its configuration was read and turns it off, or one was written that does. On
/// the way there, each outcome brings it closer to the end.
pub proof fn law_bare_is_ready_with_gc_off(before: EnsureBare, o: Outcome)
    requires
        !before.ended(),
    ensures
        before.after(o).steps_left() < before.steps_left(),
        before.after(o) is Done ==> {
            ||| before is ReadConfig && o is Text && gc_off(o->Text_0@)
            ||| !(o is Failed) && before.config_to_write() is Some && gc_off(
                before.config_to_write()->0,
            )
        },
{
    if let EnsureBare::WriteConfig(t) = before {
        lemma_gc_section(terminated(t@));
    }
    lemma_gc_section(seq![]);
    assert(seq![] + gc_section() =~= gc_section());
}

// ---------------------------------------------------------------------------
// The clone of an environment
// ---------------------------------------------------------------------------

/// How far the clone of an environment has come.
#[derive(Debug)]
pub enum CloneStage {
    /// The directory that holds it is to be created.
    Parent,
    /// The shared repository is to be cloned, such that its objects are drawn on and
    /// none is copied.
    Clone,
    /// The commit is to be checked out.
    Checkout,
    /// The tag that is called like the commit, with a `v` before it, is to be
    /// checked out.
    CheckoutTag,
    /// The directory of the alternates file is to be created.
    MakeInfo,
    /// The alternates file is to be written.
    Link,
    /// It is ready.
    Done,
    Failed(GitFailure),
}

/// An environment that is cloned from the shared repository.
#[derive(Debug)]
pub struct EnvClone {
    /// The name of the environment.
    pub name: String,
    /// What is to be checked out; the default branch where nothing is given.
    pub commit: Option<String>,
    pub stage: CloneStage,
}

/// Clone the environment `name` from the shared repository, check out `commit` in
/// it and make it draw on the shared objects.
pub fn create_env_from_bare(name: String, commit: Option<String>) -> (r: EnvClone)
    ensures
        r == (EnvClone { name, commit, stage: CloneStage::Parent }),
{
    EnvClone { name, commit, stage: CloneStage::Parent }
}

impl EnvClone {
    /// Nothing is pending.
    pub open spec fn ended(self) -> bool {
        self.stage is Done || self.stage is Failed
    }

    /// How many outcomes are awaited at most.
    pub open spec fn steps_left(self) -> nat {
        match self.stage {
            CloneStage::Parent => 6,
            CloneStage::Clone => 5,
            CloneStage::Checkout => 4,
            CloneStage::CheckoutTag => 3,
            CloneStage::MakeInfo => 2,
            CloneStage::Link => 1,
            CloneStage::Done => 0,
            CloneStage::Failed(_) => 0,
        }
    }

    /// The stage after the outcome `o` of the pending action.
    pub open spec fn stage_after(self, o: Outcome) -> CloneStage {
        match self.stage {
            CloneStage::Parent => match o {
                Outcome::Failed(e) => CloneStage::Failed(GitFailure::System(e)),
                _ => CloneStage::Clone,
            },
            CloneStage::Clone => match o {
                Outcome::Failed(e) => CloneStage::Failed(GitFailure::NoLocalClone(e)),
                _ => if !o.ended_well() {
                    CloneStage::Failed(GitFailure::LocalClone(o.code()))
                } else if self.commit is Some {
                    CloneStage::Checkout
                } else {
                    CloneStage::MakeInfo
                },
            },
            CloneStage::Checkout => match o {
                Outcome::Failed(e) => CloneStage::Failed(GitFailure::NoCheckout(e)),
                _ => if o.ended_well() {
                    CloneStage::MakeInfo
                } else {
                    CloneStage::CheckoutTag
                },
            },
            CloneStage::CheckoutTag => match (o, self.commit) {
                (Outcome::Failed(e), _) => CloneStage::Failed(GitFailure::NoCheckout(e)),
                (_, Some(c)) if !o.ended_well() => CloneStage::Failed(
                    GitFailure::Checkout(c, o.code()),
                ),
                _ => CloneStage::MakeInfo,
            },
            CloneStage::MakeInfo => match o {
                Outcome::Failed(e) => CloneStage::Failed(GitFailure::System(e)),
                _ => CloneStage::Link,
            },
            CloneStage::Link => match o {
                Outcome::Failed(e) => CloneStage::Failed(GitFailure::System(e)),
                _ => CloneStage::Done,
            },
            CloneStage::Done | CloneStage::Failed(_) => self.stage,
        }
    }

    /// What comes after the outcome `o` of the pending action.
    pub open spec fn after(self, o: Outcome) -> Self {
        EnvClone { stage: self.stage_after(o), ..self }
    }

    /// Take in the outcome of the pending action.
    pub fn next(self, o: Outcome) -> (r: Self)
        ensures
            r == self.after(o),
    {
        let well = o.well();
        let code = o.exit_code();
        let stage = match self.stage {
            CloneStage::Parent => match o {
                Outcome::Failed(e) => CloneStage::Failed(GitFailure::System(e)),
                _ => CloneStage::Clone,
            },
            CloneStage::Clone => match o {
                Outcome::Failed(e) => CloneStage::Failed(GitFailure::NoLocalClone(e)),
                _ => if !well {
                    CloneStage::Failed(GitFailure::LocalClone(code))
                } else if self.commit.is_some() {
                    CloneStage::Checkout
                } else {
                    CloneStage::MakeInfo
                },
            },
            CloneStage::Checkout => match o {
                Outcome::Failed(e) => CloneStage::Failed(GitFailure::NoCheckout(e)),
                _ => if well {
                    CloneStage::MakeInfo
                } else {
                    CloneStage::CheckoutTag
                },
            },
            CloneStage::CheckoutTag => match o {
                Outcome::Failed(e) => CloneStage::Failed(GitFailure::NoCheckout(e)),
                _ => match &self.commit {
                    Some(c) if !well => CloneStage::Failed(GitFailure::Checkout(c.clone(), code)),
                    _ => CloneStage::MakeInfo,
                },
            },
            CloneStage::MakeInfo => match o {
                Outcome::Failed(e) => CloneStage::Failed(GitFailure::System(e)),
                _ => CloneStage::Link,
            },
            CloneStage::Link => match o {
                Outcome::Failed(e) => CloneStage::Failed(GitFailure::System(e)),
                _ => CloneStage::Done,
            },
            CloneStage::Done => CloneStage::Done,
            CloneStage::Failed(f) => CloneStage::Failed(f),
        };
        EnvClone { name: self.name, commit: self.commit, stage }
    }

    /// The reference that is checked out, and the tag that is tried after it.
    pub open spec fn wanted(self) -> Seq<char> {
        match self.commit {
            Some(c) => c@,
            None => "HEAD"@,
        }
    }

    /// The arguments that check out `reference` in the environment.
    pub open spec fn checkout_args(self, root: LocationView, reference: Seq<char>) -> Seq<ArgView> {
        seq![
            ArgView::Word("-C"@),
            ArgView::Place(env_of(root, self.name@)),
            ArgView::Word("checkout"@),
            ArgView::Word("-f"@),
            ArgView::Word(reference),
        ]
    }

    /// `r` is the pending action, for a home at `root`.
    pub open spec fn asks(self, root: LocationView, r: Option<Action>) -> bool {
        match (self.stage, r) {
            (CloneStage::Parent, Some(Action::MakeParent(l))) => l@ == env_of(
                root,
                self.name@,
            ),
            (CloneStage::Clone, Some(Action::Git { args, shown })) => shown && args@ =~= seq![
                ArgView::Word("clone"@),
                ArgView::Word("--shared"@),
                ArgView::Place(bare_repo(root)),
                ArgView::Place(env_of(root, self.name@)),
            ],
            (CloneStage::Checkout, Some(Action::Git { args, shown })) => shown && args@
                =~= self.checkout_args(root, self.wanted()),
            (CloneStage::CheckoutTag, Some(Action::Git { args, shown })) => shown && args@
                =~= self.checkout_args(root, "v"@ + self.wanted()),
            (CloneStage::MakeInfo, Some(Action::MakeDirectory(l))) => l@ == alternates_dir(
                env_of(root, self.name@),
            ),
            (CloneStage::Link, Some(Action::WriteAlternates { file, objects })) => file@
                == alternates_file(env_of(root, self.name@)) && objects@
                == shared_objects(root),
            (CloneStage::Done, None) => true,
            (CloneStage::Failed(_), None) => true,
            _ => false,
        }
    }

    /// The pending action, if there is one.
    pub fn action(&self, home: &PristHome) -> (r: Option<Action>)
        ensures
            r is Some <==> !self.ended(),
            self.asks(home.root@, r),
    {
        let env = home.env(self.name.as_str());
        let wanted: &str = match &self.commit {
            Some(c) => c.as_str(),
            None => "HEAD",
        };
        match &self.stage {
            CloneStage::Parent => Some(Action::MakeParent(env)),
            CloneStage::Clone => Some(
                Action::Git {
                    args: Args::new().word("clone").word("--shared").place(
                        home.git_bare(),
                    ).place(env),
                    shown: true,
                },
            ),
            CloneStage::Checkout => Some(
                Action::Git {
                    args: git_in(env).word("checkout").word("-f").word(wanted),
                    shown: true,
                },
            ),
            CloneStage::CheckoutTag => {
                let tag = "v".to_string().concat(wanted);
                Some(
                    Action::Git {
                        args: git_in(env).word("checkout").word("-f").word(tag.as_str()),
                        shown: true,
                    },
                )
            },
            CloneStage::MakeInfo => Some(Action::MakeDirectory(alternates_directory(&env))),
            CloneStage::Link => Some(
                Action::WriteAlternates {
                    file: alternates_path(&env),
                    objects: home.git_bare().join("objects"),
                },
            ),
            CloneStage::Done => None,
            CloneStage::Failed(_) => None,
        }
    }
}

/// The clone of an environment is ready only once its alternates file is written,
/// which happens only after its commit, or the tag called like it, was checked
/// out. On the way there, each outcome brings it closer to the end.
pub proof fn law_clone_is_ready_when_linked(before: EnvClone, o: Outcome)
    requires
        !before.ended(),
    ensures
        before.after(o).name == before.name,
        before.after(o).commit == before.commit,
        before.after(o).steps_left() < before.steps_left(),
        before.after(o).stage is Done ==> before.stage is Link && !(o is Failed),
        before.after(o).stage is Link ==> before.stage is MakeInfo && !(o is Failed),
        before.commit is Some && before.after(o).stage is MakeInfo ==> (before.stage is Checkout
            || before.stage is CheckoutTag) && o.ended_well(),
        before.after(o).stage is CheckoutTag ==> before.stage is Checkout && !o.ended_well(),
{
}

// ---------------------------------------------------------------------------
// What the files of an environment state
// ---------------------------------------------------------------------------

/// The first of the three files that can be read states the version, but for the last, which
/// may state none.
pub proof fn law_first_version_file_counts(
    internal: Option<Seq<char>>,
    version: Option<Seq<char>>,
    pubspec: Option<Seq<char>>,
)
    ensures
        internal matches Some(t) ==> flutter_version(internal, version, pubspec) == Some(trim(t)),
        internal is None ==> (version matches Some(t) ==> flutter_version(internal, version, pubspec)
            == Some(trim(t))),
        internal is None && version is None ==> (pubspec matches Some(t) ==> flutter_version(
            internal,
            version,
            pubspec,
        ) == pubspec_version(t)),
        internal is None && version is None && pubspec is None ==> flutter_version(
            internal,
            version,
            pubspec,
        ) is None,
{
}

/// What is found first begins with the prefix, and nothing before it does.
proof fn lemma_first_beginning(list: Seq<Seq<char>>, prefix: Seq<char>)
    ensures
        match first_beginning(list, prefix) {
            Some(l) => exists|k: int|
                0 <= k < list.len() && l == #[trigger] list[k] && starts_with(list[k], prefix)
                    && forall|j: int| 0 <= j < k ==> !starts_with(#[trigger] list[j], prefix),
            None => forall|j: int| 0 <= j < list.len() ==> !starts_with(#[trigger] list[j], prefix),
        },
    decreases list.len(),
{
    if list.len() > 0 && !starts_with(list[0], prefix) {
        let rest = list.drop_first();
        lemma_first_beginning(rest, prefix);
        match first_beginning(rest, prefix) {
            Some(l) => {
                let k = choose|k: int|
                    0 <= k < rest.len() && l == #[trigger] rest[k] && starts_with(rest[k], prefix)
                        && forall|j: int| 0 <= j < k ==> !starts_with(#[trigger] rest[j], prefix);
                assert(list[k + 1] == l);
                assert forall|j: int| 0 <= j < k + 1 implies !starts_with(
                    #[trigger] list[j],
                    prefix,
                ) by {
                    if j > 0 {
                        assert(rest[j - 1] == list[j]);
                    }
                }
            },
            None => {
                assert forall|j: int| 0 <= j < list.len() implies !starts_with(
                    #[trigger] list[j],
                    prefix,
                ) by {
                    if j > 0 {
                        assert(rest[j - 1] == list[j]);
                    }
                }
            },
        }
    } else if list.len() > 0 {
        assert(starts_with(list[0], prefix));
    }
}

/// A `pubspec.yaml` states the version that stands behind `version:` on the first line that
/// begins so, without the white space round it; where no line begins so it states none.
pub proof fn law_version_in_pubspec(pubspec: Seq<char>, k: int)
    requires
        0 <= k < lines(pubspec).len(),
    ensures
        starts_with(lines(pubspec)[k], "version:"@) && (forall|j: int|
            0 <= j < k ==> !starts_with(#[trigger] lines(pubspec)[j], "version:"@)) && !starts_with(
            lines(pubspec)[k].skip(8),
            "version:"@,
        ) ==> pubspec_version(pubspec) == Some(trim(lines(pubspec)[k].skip(8))),
        starts_with(lines(pubspec)[k], "version:"@) ==> pubspec_version(pubspec) is Some,
        pubspec_version(pubspec) is Some ==> exists|j: int|
            0 <= j < lines(pubspec).len() && starts_with(#[trigger] lines(pubspec)[j], "version:"@),
{
    reveal_strlit("version:");
    let key = "version:"@;
    let list = lines(pubspec);
    lemma_first_beginning(list, key);
    if starts_with(list[k], key) && (forall|j: int|
        0 <= j < k ==> !starts_with(#[trigger] list[j], key)) {
        let l = first_beginning(list, key)->0;
        let i = choose|i: int|
            0 <= i < list.len() && l == #[trigger] list[i] && starts_with(list[i], key) && forall|
                j: int,
            |
                0 <= j < i ==> !starts_with(#[trigger] list[j], key);
        if i < k {
            assert(!starts_with(list[i], key));
        } else if k < i {
            assert(!starts_with(list[k], key));
        }
        let rest = list[k].skip(8);
        assert(key + rest =~= list[k]) by {
            assert(list[k].subrange(0, 8) =~= key);
        }
        law_prefixes_are_stripped(rest, key);
    }
}

/// The last word on `gc.auto` counts: a section at the end that sets it turns garbage
/// collection off exactly where it sets it to `0`.
pub proof fn law_last_word_on_gc_counts(config: Seq<char>, value: Seq<char>)
    requires
        config.len() == 0 || config.last() == '\n',
        value.len() > 0 && !is_white_space(value[0]) && !is_white_space(value.last()),
        value.last() != '\\',
        forall|i: int|
            0 <= i < value.len() ==> #[trigger] value[i] != '\n' && value[i] != '=' && value[i] != '"'
                && value[i] != '#' && value[i] != ';',
    ensures
        gc_off(config + "[gc]\n\tauto = "@ + value + "\n"@) <==> value == "0"@,
{
    reveal_strlit("[gc]\n\tauto = ");
    reveal_strlit("[gc]");
    reveal_strlit("\tauto = ");
    reveal_strlit("[");
    reveal_strlit("auto");
    reveal_strlit("\n");
    let header = "[gc]"@;
    let setting = "\tauto = "@ + value;
    let text = config + "[gc]\n\tauto = "@ + value + "\n"@;
    let first_end = config + header + "\n"@;
    assert(text =~= first_end + (setting + "\n"@));
    assert(header.push('\n') =~= header + "\n"@);
    assert(setting.push('\n') =~= setting + "\n"@);
    assert(config + header.push('\n') =~= first_end);
    assert(!header.contains('\n'));
    assert(!setting.contains('\n')) by {
        if setting.contains('\n') {
            let i = choose|i: int| 0 <= i < setting.len() && setting[i] == '\n';
            if i >= 8 {
                assert(setting[i] == value[i - 8]);
            } else {
                assert(setting[i] == "\tauto = "@[i]);
            }
        }
    }
    law_last_line_may_be_open(config, header);
    law_last_line_may_be_open(first_end, setting);
    assert(setting.last() == value.last());
    assert(without_cr(header) == header);
    assert(value.last() != '\r');
    assert(without_cr(setting) == setting);
    assert(lines(text) == lines(config).push(header).push(setting));
    let all = lines(text);
    assert(all.drop_last() =~= lines(config).push(header));
    assert(all.drop_last().drop_last() =~= lines(config));
    assert forall|i: int| 0 <= i < setting.len() implies setting[i] != '#' && setting[i] != ';'
        && setting[i] != '"' by {
        if i >= 8 {
            assert(setting[i] == value[i - 8]);
        } else {
            assert(setting[i] == "\tauto = "@[i]);
        }
    }
    lemma_single_piece(header, '#');
    lemma_single_piece(header, ';');
    lemma_single_piece(setting, '#');
    lemma_single_piece(setting, ';');
    assert(!setting.contains('"'));
    lemma_trim_to(header, 0, 4);
    assert(header.subrange(0, 4) =~= header);
    assert(lower(header) =~= header);
    assert(starts_with(header, "["@)) by {
        assert(header.subrange(0, 1) =~= "["@);
    }
    let second = read_gc_line(read_gc(lines(config)), header);
    assert(second.in_gc);
    let n = setting.len() as int;
    lemma_trim_to(setting, 1, n);
    let l = setting.subrange(1, n);
    assert(!starts_with(l, "["@)) by {
        assert(l[0] == 'a');
        if starts_with(l, "["@) {
            assert(l.subrange(0, 1)[0] == '[');
        }
    }
    assert(l.last() == value.last());
    assert forall|j: int| 0 <= j < 5 implies l[j] != '=' by {
        assert(l[j] == "\tauto = "@[j + 1]);
    }
    assert(l[5] == '=');
    lemma_upto(l, '=', 5);
    let left = l.take(5);
    let right = l.skip(6);
    assert(right =~= seq![' '] + value);
    assert forall|j: int| 0 <= j < right.len() implies right[j] != '=' by {
        if j > 0 {
            assert(right[j] == value[j - 1]);
        }
    }
    lemma_upto(right, '=', right.len() as int);
    assert(split(right, '=') == seq![right]);
    assert(split(l, '=') =~= seq![left, right]);
    lemma_trim_to(left, 0, 4);
    assert(lower(left.subrange(0, 4)) =~= "auto"@);
    lemma_trim_to(right, 1, right.len() as int);
    assert(right.subrange(1, right.len() as int) =~= value);
    assert(auto_zero(l) == Some(value == "0"@));
    assert(read_gc(all.drop_last()) == second);
    assert(read_gc(all) == read_gc_line(second, setting));
}

/// Turning garbage collection off keeps all of the configuration, and adds one section at
/// its end.
pub proof fn law_gc_section_is_added_behind(existing: Seq<char>)
    ensures
        with_gc_off(existing) matches Some(t) ==> t.take(existing.len() as int) == existing && t
            == (if existing.len() > 0 && existing.last() != '\n' {
            existing.push('\n')
        } else {
            existing
        }) + "[gc]\n\tauto = 0\n"@,
        repaired(existing) == existing + "\n[gc]\n\tauto = 0\n"@,
{
    if let Some(t) = with_gc_off(existing) {
        assert(t.take(existing.len() as int) =~= existing);
    }
}

/// A commit that the shared repository does not hold is fetched, after all tags and
/// branches; the repository is cloned exactly where it is not there.
pub proof fn law_missing_commit_is_fetched(
    root: LocationView,
    commit: String,
    o: Outcome,
    r: Option<Action>,
)
    requires
        EnsureBare::FetchCommit(commit).asks(root, r),
    ensures
        EnsureBare::Look(Some(commit)).after(Outcome::Yes) == EnsureBare::Seek(commit),
        EnsureBare::Look(None).after(Outcome::Yes) is ReadConfig,
        EnsureBare::Look(Some(commit)).after(Outcome::No) == EnsureBare::Clone(Some(commit)),
        EnsureBare::Seek(commit).after(Outcome::Yes) is ReadConfig,
        EnsureBare::Seek(commit).after(Outcome::No) == EnsureBare::FetchRefs(commit),
        EnsureBare::FetchRefs(commit).after(o) == EnsureBare::FetchCommit(commit),
        EnsureBare::FetchCommit(commit).after(o) is ReadConfig,
        r matches Some(Action::Git { args, shown }) && args@.len() == 5 && args@[1]
            == ArgView::Place(
            LocationView {
                base: root.base,
                parts: root.parts + seq!["shared"@, "git_bare.git"@],
            },
        ) && args@[2] == ArgView::Word("fetch"@) && args@[4] == ArgView::Word(commit@),
{
    law_home_is_laid_out(root, seq![]);
}

/// An environment is cloned from the shared repository into its own directory, with its
/// objects shared, and checked out at its commit; the tag that is tried after it is called
/// like the commit, with a `v` before it.
pub proof fn law_clone_is_of_the_shared_repository(
    clone: EnvClone,
    root: LocationView,
    r: Option<Action>,
)
    requires
        clone.asks(root, r),
    ensures
        ({
            let env = LocationView {
                base: root.base,
                parts: root.parts + seq!["envs"@, clone.name@],
            };
            let bare = LocationView {
                base: root.base,
                parts: root.parts + seq!["shared"@, "git_bare.git"@],
            };
            &&& clone.stage is Clone ==> (r matches Some(Action::Git { args, shown }) && args@.len()
                == 4 && args@[0] == ArgView::Word("clone"@) && args@[1] == ArgView::Word(
                "--shared"@,
            ) && args@[2] == ArgView::Place(bare) && args@[3] == ArgView::Place(env))
            &&& clone.stage is Checkout ==> (clone.commit matches Some(c) ==> (r matches Some(
                Action::Git { args, shown },
            ) && args@.len() == 5 && args@[1] == ArgView::Place(env) && args@[2] == ArgView::Word(
                "checkout"@,
            ) && args@[4] == ArgView::Word(c@)))
            &&& clone.stage is CheckoutTag ==> (clone.commit matches Some(c) ==> (r matches Some(
                Action::Git { args, shown },
            ) && args@.len() == 5 && args@[1] == ArgView::Place(env) && args@[4] == ArgView::Word(
                "v"@ + c@,
            )))
            &&& clone.stage is Link ==> (r matches Some(
                Action::WriteAlternates { file, objects },
            ) && file@ == (LocationView {
                base: env.base,
                parts: env.parts + seq![".git"@, "objects"@, "info"@, "alternates"@],
            }) && objects@ == (LocationView {
                base: root.base,
                parts: root.parts + seq!["shared"@, "git_bare.git"@, "objects"@],
            }))
        }),
{
    law_home_is_laid_out(root, clone.name@);
    let env = env_of(root, clone.name@);
    assert(alternates_file(env).parts =~= env.parts + seq![
        ".git"@,
        "objects"@,
        "info"@,
        "alternates"@,
    ]);
    assert(shared_objects(root).parts =~= root.parts + seq![
        "shared"@,
        "git_bare.git"@,
        "objects"@,
    ]);
}

} // verus!
