//! The Flutter engine, kept once per revision and shared by the environments.
//!
//! What the Flutter tool downloads into `bin/cache` on its first run is moved to
//! `shared/engines/<revision>`, and a link to it takes its place in each
//! environment. The file `engine.stamp` marks a revision that is complete; it is
//! written last, and never seen half written.

use vstd::prelude::*;

use crate::checksum::{Checksum, check, checksum_text, digestible, mismatch};
use crate::error::{PristError, Result};
use crate::paths::{EnvPlace, Location, LocationView, PristHome, engine_of, law_home_is_laid_out};
use crate::releases::Platform;
use crate::text::{borrowed, law_trim_idempotent, opt_str, opt_text, same, trim, trimmed};
use crate::work::{Action, Args, ArgView, Outcome};

verus! {

/// Where the artifacts of the engine revision `hash` are kept.
pub fn engine_dir(home: &PristHome, hash: &str) -> (r: Location)
    ensures
        r@ == engine_of(home.root@, hash@),
{
    home.engine(hash)
}

/// The mark of a revision that is complete.
pub open spec fn stamp(engine: LocationView) -> LocationView {
    engine.join("engine.stamp"@)
}

/// The mark of a revision that is complete.
pub fn stamp_path(engine: &Location) -> (r: Location)
    ensures
        r@ == stamp(engine@),
{
    engine.join("engine.stamp")
}

/// A stamp that holds `text` marks the revision `hash`.
pub open spec fn stamped(text: Option<Seq<char>>, hash: Seq<char>) -> bool {
    match text {
        Some(t) => trim(t) == hash,
        None => false,
    }
}

/// Whether the engine revision `hash` is complete: its directory is there, and
/// its stamp, as far as it can be read, names it.
pub fn is_cached(hash: &str, directory: bool, stamp_text: Option<&str>) -> (r: bool)
    ensures
        r == (directory && stamped(opt_str(stamp_text), hash@)),
{
    match stamp_text {
        Some(t) => directory && same(trimmed(t).as_str(), hash),
        None => false,
    }
}

/// Mark the revision `hash` as complete.
pub fn write_stamp(engine: &Location, hash: &str) -> (r: Action)
    ensures
        r matches Action::WriteAtomically { file, text } && file@ == stamp(engine@) && text@
            == hash@,
{
    Action::WriteAtomically { file: stamp_path(engine), text: hash.to_string() }
}

/// A revision that was marked as complete is found so, if its name is free of white
/// space at either end, as that of every environment is.
pub proof fn law_stamp_marks_revision(hash: Seq<char>, file: Seq<char>)
    ensures
        trim(hash) == hash ==> stamped(Some(hash), hash),
        stamped(Some(trim(file)), trim(file)),
{
    law_trim_idempotent(file);
}

/// What the artifacts for a platform are called in the bucket of the engine.
pub fn host_engine_segment(platform: Platform) -> (r: &'static str)
    ensures
        r@ == match platform {
            Platform::Linux => "linux-x64"@,
            Platform::Macos => "darwin-x64"@,
            Platform::Windows => "windows-x64"@,
        },
{
    match platform {
        Platform::Linux => "linux-x64",
        Platform::Macos => "darwin-x64",
        Platform::Windows => "windows-x64",
    }
}

// ---------------------------------------------------------------------------
// Sharing the engine
// ---------------------------------------------------------------------------

/// Why an engine could not be shared.
#[derive(Debug)]
pub enum EngineFailure {
    /// The Flutter tool could not be started.
    NoFlutter(String),
    /// The Flutter tool ended badly.
    Flutter(Outcome),
    /// The Flutter tool left no `bin/cache`.
    NoCache,
    /// The file system failed.
    System(String),
}

impl EngineFailure {
    /// The error that is reported, where `cache` is the path of `bin/cache`.
    pub fn error(self, cache: &str) -> (r: PristError)
        ensures
            r matches PristError::Other(m) && m@ == match self {
                EngineFailure::NoFlutter(e) => "failed to run flutter --version: "@ + e@,
                EngineFailure::Flutter(Outcome::Exit { told, .. }) =>
                    "flutter --version exited with "@ + told@,
                EngineFailure::Flutter(_) => "flutter --version exited with "@,
                EngineFailure::NoCache => "expected bin/cache at "@ + cache@
                    + " after flutter --version, found none"@,
                EngineFailure::System(e) => e@,
            },
    {
        match self {
            EngineFailure::NoFlutter(e) => PristError::msg(
                "failed to run flutter --version: ".to_string().concat(e.as_str()),
            ),
            EngineFailure::Flutter(Outcome::Exit { told, .. }) => PristError::msg(
                "flutter --version exited with ".to_string().concat(told.as_str()),
            ),
            EngineFailure::Flutter(_) => PristError::msg(
                "flutter --version exited with ".to_string(),
            ),
            EngineFailure::NoCache => PristError::msg(
                "expected bin/cache at ".to_string().concat(cache).concat(
                    " after flutter --version, found none",
                ),
            ),
            EngineFailure::System(e) => PristError::msg(e),
        }
    }
}

/// How far an environment has got its engine.
#[derive(Debug)]
pub enum EngineStage {
    /// Is the directory of the revision there?
    Look,
    /// What does its stamp say?
    ReadStamp,
    /// The Flutter tool is to download the basic artifacts.
    Bootstrap,
    /// The Flutter tool is to download the others.
    Precache,
    /// The directory of the revision is to be created.
    MakeDirectory,
    /// Did the Flutter tool leave a `bin/cache`?
    LookForCache,
    /// What it left is to be moved to the directory of the revision.
    Relocate,
    /// The revision is to be marked as complete.
    Stamp,
    /// Is there a `bin/cache` that the link has to replace?
    LookForLink,
    /// It is to be removed.
    RemoveLink,
    /// The directory of the link is to be created.
    LinkParent,
    /// The link is to be made.
    Link,
    /// The environment is linked to the engine.
    Linked,
    /// The engine is not there, and was not to be downloaded.
    Absent,
    Failed(EngineFailure),
}

/// An environment that is to share an engine.
#[derive(Debug)]
pub struct EngineShare {
    pub env: EnvPlace,
    /// The engine revision.
    pub hash: String,
    /// Whether the engine is to be downloaded where it is not there.
    pub download: bool,
    pub stage: EngineStage,
}

/// Link the environment to its engine, which is downloaded first where it is not
/// there.
pub fn ensure_engine(env: EnvPlace, hash: String) -> (r: EngineShare)
    ensures
        r == (EngineShare { env, hash, download: true, stage: EngineStage::Look }),
{
    EngineShare { env, hash, download: true, stage: EngineStage::Look }
}

/// Link the environment to its engine if it is there; nothing is downloaded.
pub fn try_link_engine(env: EnvPlace, hash: String) -> (r: EngineShare)
    ensures
        r == (EngineShare { env, hash, download: false, stage: EngineStage::Look }),
{
    EngineShare { env, hash, download: false, stage: EngineStage::Look }
}

/// Link the environment to its engine, which is there.
pub fn link_engine_cache(env: EnvPlace, hash: String) -> (r: EngineShare)
    ensures
        r == (EngineShare { env, hash, download: false, stage: EngineStage::LookForLink }),
{
    EngineShare { env, hash, download: false, stage: EngineStage::LookForLink }
}

/// The `bin/cache` of an environment.
pub open spec fn cache_of(env: LocationView) -> LocationView {
    env.join("bin"@).join("cache"@)
}

/// The name of the Flutter tool.
pub open spec fn flutter_file(platform: Platform) -> Seq<char> {
    if platform is Windows {
        "flutter.bat"@
    } else {
        "flutter"@
    }
}

/// The name of the Flutter tool.
pub fn flutter_name(platform: Platform) -> (r: &'static str)
    ensures
        r@ == flutter_file(platform),
{
    match platform {
        Platform::Windows => "flutter.bat",
        _ => "flutter",
    }
}

impl EngineShare {
    /// Nothing is pending.
    pub open spec fn ended(self) -> bool {
        self.stage is Linked || self.stage is Absent || self.stage is Failed
    }

    /// How many outcomes are awaited at most.
    pub open spec fn steps_left(self) -> nat {
        match self.stage {
            EngineStage::Look => 12,
            EngineStage::ReadStamp => 11,
            EngineStage::Bootstrap => 10,
            EngineStage::Precache => 9,
            EngineStage::MakeDirectory => 8,
            EngineStage::LookForCache => 7,
            EngineStage::Relocate => 6,
            EngineStage::Stamp => 5,
            EngineStage::LookForLink => 4,
            EngineStage::RemoveLink => 3,
            EngineStage::LinkParent => 2,
            EngineStage::Link => 1,
            _ => 0,
        }
    }

    /// Whether nothing is pending.
    pub fn is_ended(&self) -> (r: bool)
        ensures
            r == self.ended(),
    {
        match self.stage {
            EngineStage::Linked => true,
            EngineStage::Absent => true,
            EngineStage::Failed(_) => true,
            _ => false,
        }
    }

    /// What comes where the engine is not there.
    pub open spec fn uncached(self) -> EngineStage {
        if self.download {
            EngineStage::Bootstrap
        } else {
            EngineStage::Absent
        }
    }

    /// `stage`, unless the file system failed.
    pub open spec fn unless_failed(o: Outcome, stage: EngineStage) -> EngineStage {
        match o {
            Outcome::Failed(e) => EngineStage::Failed(EngineFailure::System(e)),
            _ => stage,
        }
    }

    /// The stage after the outcome `o` of the pending action.
    pub open spec fn stage_after(self, o: Outcome) -> EngineStage {
        match self.stage {
            EngineStage::Look => if o is Yes {
                EngineStage::ReadStamp
            } else {
                self.uncached()
            },
            EngineStage::ReadStamp => match o {
                Outcome::Text(t) if trim(t@) == self.hash@ => EngineStage::LookForLink,
                _ => self.uncached(),
            },
            EngineStage::Bootstrap => match o {
                Outcome::Failed(e) => EngineStage::Failed(EngineFailure::NoFlutter(e)),
                _ => if o.ended_well() {
                    EngineStage::Precache
                } else {
                    EngineStage::Failed(EngineFailure::Flutter(o))
                },
            },
            EngineStage::Precache => EngineStage::MakeDirectory,
            EngineStage::MakeDirectory => Self::unless_failed(o, EngineStage::LookForCache),
            EngineStage::LookForCache => if o is Yes {
                EngineStage::Relocate
            } else {
                EngineStage::Failed(EngineFailure::NoCache)
            },
            EngineStage::Relocate => Self::unless_failed(o, EngineStage::Stamp),
            EngineStage::Stamp => Self::unless_failed(o, EngineStage::LookForLink),
            EngineStage::LookForLink => if o is Yes {
                EngineStage::RemoveLink
            } else {
                EngineStage::LinkParent
            },
            EngineStage::RemoveLink => Self::unless_failed(o, EngineStage::LinkParent),
            EngineStage::LinkParent => Self::unless_failed(o, EngineStage::Link),
            EngineStage::Link => Self::unless_failed(o, EngineStage::Linked),
            EngineStage::Linked | EngineStage::Absent | EngineStage::Failed(_) => self.stage,
        }
    }

    /// What comes after the outcome `o` of the pending action.
    pub open spec fn after(self, o: Outcome) -> Self {
        EngineShare { stage: self.stage_after(o), ..self }
    }

    /// `stage`, unless the file system failed.
    fn on_success(o: Outcome, stage: EngineStage) -> (r: EngineStage)
        ensures
            r == Self::unless_failed(o, stage),
    {
        match o {
            Outcome::Failed(e) => EngineStage::Failed(EngineFailure::System(e)),
            _ => stage,
        }
    }

    /// Take in the outcome of the pending action.
    pub fn next(self, o: Outcome) -> (r: Self)
        ensures
            r == self.after(o),
    {
        let uncached = if self.download {
            EngineStage::Bootstrap
        } else {
            EngineStage::Absent
        };
        let stage = match self.stage {
            EngineStage::Look => match o {
                Outcome::Yes => EngineStage::ReadStamp,
                _ => uncached,
            },
            EngineStage::ReadStamp => match o {
                Outcome::Text(t) => if is_cached(self.hash.as_str(), true, Some(t.as_str())) {
                    EngineStage::LookForLink
                } else {
                    uncached
                },
                _ => uncached,
            },
            EngineStage::Bootstrap => if o.well() {
                EngineStage::Precache
            } else {
                match o {
                    Outcome::Failed(e) => EngineStage::Failed(EngineFailure::NoFlutter(e)),
                    _ => EngineStage::Failed(EngineFailure::Flutter(o)),
                }
            },
            EngineStage::Precache => EngineStage::MakeDirectory,
            EngineStage::MakeDirectory => Self::on_success(o, EngineStage::LookForCache),
            EngineStage::LookForCache => match o {
                Outcome::Yes => EngineStage::Relocate,
                _ => EngineStage::Failed(EngineFailure::NoCache),
            },
            EngineStage::Relocate => Self::on_success(o, EngineStage::Stamp),
            EngineStage::Stamp => Self::on_success(o, EngineStage::LookForLink),
            EngineStage::LookForLink => match o {
                Outcome::Yes => EngineStage::RemoveLink,
                _ => EngineStage::LinkParent,
            },
            EngineStage::RemoveLink => Self::on_success(o, EngineStage::LinkParent),
            EngineStage::LinkParent => Self::on_success(o, EngineStage::Link),
            EngineStage::Link => Self::on_success(o, EngineStage::Linked),
            EngineStage::Linked => EngineStage::Linked,
            EngineStage::Absent => EngineStage::Absent,
            EngineStage::Failed(f) => EngineStage::Failed(f),
        };
        EngineShare { env: self.env, hash: self.hash, download: self.download, stage }
    }

    /// `r` is the pending action, for a home at `root`.
    pub open spec fn asks(self, root: LocationView, platform: Platform, r: Option<Action>) -> bool {
        let env = self.env.dir(root);
        let engine = engine_of(root, self.hash@);
        let flutter = env.join("bin"@).join(flutter_file(platform));
        match (self.stage, r) {
            (EngineStage::Look, Some(Action::IsDirectory(l))) => l@ == engine,
            (EngineStage::ReadStamp, Some(Action::Read(l))) => l@ == stamp(engine),
            (EngineStage::Bootstrap, Some(Action::Run { program, args, directory })) =>
                program@ == flutter && directory@ == env && args@ =~= seq![
                ArgView::Word("--version"@),
                ArgView::Word("--suppress-analytics"@),
            ],
            (EngineStage::Precache, Some(Action::Run { program, args, directory })) =>
                program@ == flutter && directory@ == env && args@ =~= seq![
                ArgView::Word("precache"@),
                ArgView::Word("--suppress-analytics"@),
            ],
            (EngineStage::MakeDirectory, Some(Action::MakeDirectory(l))) => l@ == engine,
            (EngineStage::LookForCache, Some(Action::IsDirectory(l))) => l@ == cache_of(env),
            (EngineStage::Relocate, Some(Action::MoveContents { from, to })) => from@
                == cache_of(env) && to@ == engine,
            (EngineStage::Stamp, Some(Action::WriteAtomically { file, text })) => file@
                == stamp(engine) && text@ == self.hash@,
            (EngineStage::LookForLink, Some(Action::Exists(l))) => l@ == cache_of(env),
            (EngineStage::RemoveLink, Some(Action::RemoveTree(l))) => l@ == cache_of(env),
            (EngineStage::LinkParent, Some(Action::MakeParent(l))) => l@ == cache_of(env),
            (EngineStage::Link, Some(Action::Link { link, target })) => link@ == cache_of(
                env,
            ) && target@ == engine,
            (EngineStage::Linked, None) => true,
            (EngineStage::Absent, None) => true,
            (EngineStage::Failed(_), None) => true,
            _ => false,
        }
    }

    /// The pending action, if there is one.
    pub fn action(&self, home: &PristHome, platform: Platform) -> (r: Option<Action>)
        ensures
            r is Some <==> !self.ended(),
            self.asks(home.root@, platform, r),
    {
        let env = self.env.location(home);
        let engine = engine_dir(home, self.hash.as_str());
        let bin = env.join("bin");
        let cache = bin.join("cache");
        let flutter = bin.join(flutter_name(platform));
        match &self.stage {
            EngineStage::Look => Some(Action::IsDirectory(engine)),
            EngineStage::ReadStamp => Some(Action::Read(stamp_path(&engine))),
            EngineStage::Bootstrap => Some(
                Action::Run {
                    program: flutter,
                    args: Args::new().word("--version").word("--suppress-analytics"),
                    directory: env,
                },
            ),
            EngineStage::Precache => Some(
                Action::Run {
                    program: flutter,
                    args: Args::new().word("precache").word("--suppress-analytics"),
                    directory: env,
                },
            ),
            EngineStage::MakeDirectory => Some(Action::MakeDirectory(engine)),
            EngineStage::LookForCache => Some(Action::IsDirectory(cache)),
            EngineStage::Relocate => Some(Action::MoveContents { from: cache, to: engine }),
            EngineStage::Stamp => Some(write_stamp(&engine, self.hash.as_str())),
            EngineStage::LookForLink => Some(Action::Exists(cache)),
            EngineStage::RemoveLink => Some(Action::RemoveTree(cache)),
            EngineStage::LinkParent => Some(Action::MakeParent(cache)),
            EngineStage::Link => Some(Action::Link { link: cache, target: engine }),
            EngineStage::Linked => None,
            EngineStage::Absent => None,
            EngineStage::Failed(_) => None,
        }
    }
}

/// A revision is marked as complete only after everything was moved to its
/// directory. An environment is linked only to a revision whose stamp names it or
/// was just written. Where nothing is to be downloaded, nothing is. Each outcome
/// brings the environment closer to the end.
pub proof fn law_engine_is_shared_when_complete(before: EngineShare, o: Outcome)
    requires
        !before.ended(),
    ensures
        before.after(o).steps_left() < before.steps_left(),
        before.after(o).env == before.env && before.after(o).hash == before.hash,
        before.after(o).stage is Stamp ==> before.stage is Relocate && !(o is Failed),
        before.after(o).stage is LookForLink ==> {
            ||| before.stage is Stamp && !(o is Failed)
            ||| before.stage is ReadStamp && o is Text && stamped(
                Some(o->Text_0@),
                before.hash@,
            )
        },
        before.after(o).stage is ReadStamp ==> before.stage is Look && o is Yes,
        before.after(o).stage is Linked ==> before.stage is Link && !(o is Failed),
        before.after(o).stage is Bootstrap ==> before.download,
        before.after(o).stage is Absent ==> !before.download,
{
}

/// A revision is downloaded once: where its directory is there and its stamp is as it
/// was written, another environment is only linked to it.
pub proof fn law_engine_is_downloaded_once(
    first: EngineShare,
    root: LocationView,
    platform: Platform,
    r: Option<Action>,
    second: EngineShare,
    o: Outcome,
)
    requires
        first.stage is Stamp,
        first.asks(root, platform, r),
        second.hash == first.hash,
        trim(first.hash@) == first.hash@,
        second.stage is ReadStamp,
        o matches Outcome::Text(t) && r matches Some(Action::WriteAtomically { file, text }) && t@
            == text@,
    ensures
        second.after(o).stage is LookForLink,
{
}

// ---------------------------------------------------------------------------
// Moving the artifacts
// ---------------------------------------------------------------------------

/// What is to be done to an entry of `bin/cache`, by its number.
#[derive(Debug)]
pub enum MoveAction {
    /// Give it its new place, which is cheap on one volume.
    Rename(usize),
    /// Copy it with all that is in it.
    Copy(usize),
    /// Remove what was copied.
    Remove(usize),
}

/// How far an entry has come.
#[derive(Debug)]
pub enum MoveStage {
    Rename,
    Copy,
    Remove,
    /// All entries have arrived.
    Done,
    Failed(String),
}

/// The entries of `bin/cache` on their way to the directory of the revision.
#[derive(Debug)]
pub struct Relocation {
    /// How many there are.
    pub count: usize,
    /// The number of the one on its way; those before it have arrived.
    pub at: usize,
    pub stage: MoveStage,
}

/// Move the entries of `bin/cache`, of which there are `count`, one after the other.
pub fn relocate_cache(count: usize) -> (r: Relocation)
    ensures
        r == (Relocation {
            count,
            at: 0,
            stage: if count == 0 {
                MoveStage::Done
            } else {
                MoveStage::Rename
            },
        }),
        r.wf(),
{
    let stage = if count == 0 {
        MoveStage::Done
    } else {
        MoveStage::Rename
    };
    Relocation { count, at: 0, stage }
}

impl Relocation {
    /// Nothing is pending.
    pub open spec fn ended(self) -> bool {
        self.stage is Done || self.stage is Failed
    }

    /// What is on its way is one of the entries, and only where all have arrived is
    /// there none.
    pub open spec fn wf(self) -> bool {
        if self.stage is Done {
            self.at == self.count
        } else {
            self.at < self.count
        }
    }

    /// How many outcomes are awaited at most.
    pub open spec fn steps_left(self) -> int {
        3 * (self.count - self.at) - match self.stage {
            MoveStage::Rename => 0int,
            MoveStage::Copy => 1int,
            MoveStage::Remove => 2int,
            MoveStage::Done => 0int,
            MoveStage::Failed(_) => 3int * (self.count - self.at),
        }
    }

    /// The entry has arrived.
    pub open spec fn arrived(self) -> Self {
        Relocation {
            count: self.count,
            at: if self.at < self.count {
                (self.at + 1) as usize
            } else {
                self.at
            },
            stage: if self.at + 1 < self.count {
                MoveStage::Rename
            } else {
                MoveStage::Done
            },
        }
    }

    /// What comes after the outcome `o` of the pending action. An entry that cannot be
    /// renamed is copied, and removed once it is copied.
    pub open spec fn after(self, o: Outcome) -> Self {
        match (self.stage, o) {
            (MoveStage::Rename, Outcome::Failed(_)) => Relocation {
                stage: MoveStage::Copy,
                ..self
            },
            (MoveStage::Rename, _) => self.arrived(),
            (MoveStage::Copy, Outcome::Failed(e)) => Relocation {
                stage: MoveStage::Failed(e),
                ..self
            },
            (MoveStage::Copy, _) => Relocation { stage: MoveStage::Remove, ..self },
            (MoveStage::Remove, Outcome::Failed(e)) => Relocation {
                stage: MoveStage::Failed(e),
                ..self
            },
            (MoveStage::Remove, _) => self.arrived(),
            (MoveStage::Done, _) => self,
            (MoveStage::Failed(_), _) => self,
        }
    }

    /// Take in the outcome of the pending action.
    pub fn next(self, o: Outcome) -> (r: Self)
        ensures
            r == self.after(o),
            self.wf() ==> r.wf(),
    {
        let count = self.count;
        let at = self.at;
        match (self.stage, o) {
            (MoveStage::Rename, Outcome::Failed(_)) => Relocation {
                count,
                at,
                stage: MoveStage::Copy,
            },
            (MoveStage::Copy, Outcome::Failed(e)) => Relocation {
                count,
                at,
                stage: MoveStage::Failed(e),
            },
            (MoveStage::Copy, _) => Relocation { count, at, stage: MoveStage::Remove },
            (MoveStage::Remove, Outcome::Failed(e)) => Relocation {
                count,
                at,
                stage: MoveStage::Failed(e),
            },
            (MoveStage::Done, _) => Relocation { count, at, stage: MoveStage::Done },
            (MoveStage::Failed(e), _) => Relocation { count, at, stage: MoveStage::Failed(e) },
            (MoveStage::Rename, _) | (MoveStage::Remove, _) => {
                if at >= count {
                    return Relocation { count, at, stage: MoveStage::Done };
                }
                let stage = if at + 1 < count {
                    MoveStage::Rename
                } else {
                    MoveStage::Done
                };
                Relocation { count, at: at + 1, stage }
            },
        }
    }

    /// The pending action, if there is one.
    pub fn action(&self) -> (r: Option<MoveAction>)
        ensures
            match (self.stage, r) {
                (MoveStage::Rename, Some(MoveAction::Rename(i))) => i == self.at,
                (MoveStage::Copy, Some(MoveAction::Copy(i))) => i == self.at,
                (MoveStage::Remove, Some(MoveAction::Remove(i))) => i == self.at,
                (MoveStage::Done, None) => true,
                (MoveStage::Failed(_), None) => true,
                _ => false,
            },
    {
        match self.stage {
            MoveStage::Rename => Some(MoveAction::Rename(self.at)),
            MoveStage::Copy => Some(MoveAction::Copy(self.at)),
            MoveStage::Remove => Some(MoveAction::Remove(self.at)),
            MoveStage::Done => None,
            MoveStage::Failed(_) => None,
        }
    }
}

/// An entry is removed only once it was copied, the next one is touched only once it has
/// arrived, and the move succeeds only once all have. Each outcome brings it closer to
/// the end.
pub proof fn law_entries_are_moved_whole(before: Relocation, o: Outcome)
    requires
        before.wf(),
        !before.ended(),
    ensures
        before.after(o).wf(),
        0 <= before.after(o).steps_left() < before.steps_left(),
        before.after(o).count == before.count,
        before.after(o).stage is Remove ==> before.stage is Copy && !(o is Failed)
            && before.after(o).at == before.at,
        before.after(o).at != before.at ==> before.after(o).at == before.at + 1 && !(o is Failed)
            && (before.stage is Rename || before.stage is Remove),
        before.after(o).stage is Done ==> before.after(o).at == before.count,
{
}

// ---------------------------------------------------------------------------
// Downloads
// ---------------------------------------------------------------------------

/// Something to be downloaded, with the checksum that it has to have, if any.
#[derive(Debug)]
pub struct Artifact {
    /// Where it goes, below the directory for all artifacts.
    pub relative_path: String,
    pub url: String,
    pub sha256: Option<String>,
}

/// Whether the server at `url` answered well, by the status that it gave.
pub fn answered(url: &str, status: u16, told: &str) -> (r: Result<()>)
    ensures
        match r {
            Ok(_) => 200 <= status < 300,
            Err(PristError::Other(m)) => !(200 <= status < 300) && m@ == url@ + " returned HTTP "@
                + told@,
            Err(_) => false,
        },
{
    if 200 <= status && status < 300 {
        Ok(())
    } else {
        Err(PristError::msg(url.to_string().concat(" returned HTTP ").concat(told)))
    }
}

/// A download under way.
pub struct Download {
    artifact: Artifact,
    sum: Checksum,
}

impl Download {
    /// What is downloaded.
    pub closed spec fn of(self) -> Artifact {
        self.artifact
    }

    /// The bytes that have arrived.
    pub closed spec fn received(self) -> Seq<u8> {
        self.sum@
    }

    /// Nothing has arrived yet.
    pub fn new(artifact: Artifact) -> (r: Self)
        ensures
            r.of() == artifact,
            r.received() == Seq::<u8>::empty(),
    {
        Download { artifact, sum: Checksum::new() }
    }

    /// Where the artifact goes, below the directory for all artifacts.
    pub fn destination(&self, root: &Location) -> (r: Location)
        ensures
            r@ == root@.join(self.of().relative_path@),
    {
        root.join(self.artifact.relative_path.as_str())
    }

    /// The next piece has arrived.
    pub fn receive(&mut self, chunk: &[u8])
        ensures
            final(self).of() == old(self).of(),
            final(self).received() == old(self).received() + chunk@,
    {
        self.sum.absorb(chunk);
    }

    /// Whether what has arrived may be kept: it has the checksum that it has to have.
    /// In which pieces it arrived does not matter.
    pub fn finish(self) -> (r: Result<()>)
        requires
            digestible(self.received().len()),
        ensures
            match (r, opt_text(self.of().sha256)) {
                (Ok(_), None) => true,
                (Ok(_), Some(e)) => e == checksum_text(self.received()),
                (Err(PristError::Other(m)), Some(e)) => e != checksum_text(self.received()) && m@
                    == mismatch(
                    self.of().relative_path@,
                    e,
                    checksum_text(self.received()),
                ),
                (Err(_), _) => false,
            },
    {
        let got = self.sum.finish();
        check(
            self.artifact.relative_path.as_str(),
            borrowed(&self.artifact.sha256),
            got.as_str(),
        )
    }
}

/// What is linked, run and stamped: `bin/cache` of the environment leads to the directory of
/// exactly its revision, it is the environment's own Flutter tool that downloads, and the
/// stamp holds the revision.
pub proof fn law_engine_is_that_of_the_environment(
    share: EngineShare,
    root: LocationView,
    platform: Platform,
    r: Option<Action>,
)
    requires
        share.asks(root, platform, r),
    ensures
        ({
            let env = match share.env {
                EnvPlace::Named(name) => LocationView {
                    base: root.base,
                    parts: root.parts + seq!["envs"@, name@],
                },
                EnvPlace::Linked(path) => LocationView { base: path@, parts: seq![] },
            };
            let cache = LocationView { base: env.base, parts: env.parts + seq!["bin"@, "cache"@] };
            let engine = LocationView {
                base: root.base,
                parts: root.parts + seq!["shared"@, "engines"@, share.hash@],
            };
            &&& share.stage is Link ==> (r matches Some(Action::Link { link, target }) && link@
                == cache && target@ == engine)
            &&& share.stage is Relocate ==> (r matches Some(Action::MoveContents { from, to })
                && from@ == cache && to@ == engine)
            &&& share.stage is Stamp ==> (r matches Some(Action::WriteAtomically { file, text })
                && text@ == share.hash@ && file@ == (LocationView {
                base: engine.base,
                parts: engine.parts + seq!["engine.stamp"@],
            }))
            &&& share.stage is Bootstrap ==> (r matches Some(
                Action::Run { program, args, directory },
            ) && directory@ == env && args@.len() == 2 && args@[0] == ArgView::Word("--version"@)
                && program@ == (LocationView {
                base: env.base,
                parts: env.parts + seq![
                    "bin"@,
                    if platform is Windows {
                        "flutter.bat"@
                    } else {
                        "flutter"@
                    },
                ],
            }))
        }),
{
    let dir = share.env.dir(root);
    match share.env {
        EnvPlace::Named(name) => {
            law_home_is_laid_out(root, name@);
        },
        EnvPlace::Linked(_) => {},
    }
    law_home_is_laid_out(root, share.hash@);
    assert(cache_of(dir).parts =~= dir.parts + seq!["bin"@, "cache"@]);
    let engine = engine_of(root, share.hash@);
    assert(stamp(engine).parts =~= engine.parts + seq!["engine.stamp"@]);
    assert(dir.join("bin"@).join("flutter"@).parts =~= dir.parts + seq!["bin"@, "flutter"@]);
    assert(dir.join("bin"@).join("flutter.bat"@).parts =~= dir.parts + seq![
        "bin"@,
        "flutter.bat"@,
    ]);
}

/// A stamp marks a revision exactly where it holds its name, but for white space round it.
pub proof fn law_stamp_names_one_revision(text: Seq<char>, hash: Seq<char>, other: Seq<char>)
    ensures
        stamped(Some(text), hash) && stamped(Some(text), other) ==> hash == other,
        stamped(Some(text), hash) <==> trim(text) == hash,
        !stamped(None, hash),
{
}

/// Where the file system fails on the way to an engine, nothing more is done for it; that the
/// second download fails does not matter.
pub proof fn law_engine_failures_end(share: EngineShare, e: String, o: Outcome)
    ensures
        share.stage is MakeDirectory || share.stage is Relocate || share.stage is Stamp
            || share.stage is RemoveLink || share.stage is LinkParent || share.stage is Link
            ==> share.after(Outcome::Failed(e)).stage == EngineStage::Failed(
            EngineFailure::System(e),
        ),
        share.stage is Bootstrap ==> share.after(Outcome::Failed(e)).stage == EngineStage::Failed(
            EngineFailure::NoFlutter(e),
        ),
        share.stage is Bootstrap && !(o is Failed) && !o.ended_well() ==> share.after(o).stage
            == EngineStage::Failed(EngineFailure::Flutter(o)),
        share.stage is Precache ==> share.after(o).stage is MakeDirectory,
        share.stage is LookForCache && !(o is Yes) ==> share.after(o).stage == EngineStage::Failed(
            EngineFailure::NoCache,
        ),
        share.stage is Look && !(o is Yes) ==> share.after(o).stage == if share.download {
            EngineStage::Bootstrap
        } else {
            EngineStage::Absent
        },
        share.stage is LookForLink && o is Yes ==> share.after(o).stage is RemoveLink,
        share.stage is LookForLink && !(o is Yes) ==> share.after(o).stage is LinkParent,
        share.stage is RemoveLink && !(o is Failed) ==> share.after(o).stage is LinkParent,
        share.stage is LinkParent && !(o is Failed) ==> share.after(o).stage is Link,
        share.stage is Link && !(o is Failed) ==> share.after(o).stage is Linked,
{
}

} // verus!
