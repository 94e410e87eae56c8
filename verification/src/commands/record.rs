//! What creating and upgrading an environment have in common: finding the release
//! that a reference stands for, and recording what the environment was made from.

use vstd::prelude::*;

use crate::commands::failure::CommandFailure;
use crate::commands::names::now_iso;
use crate::config::EnvMeta;
use crate::engine::{EngineShare, EngineStage, law_engine_is_shared_when_complete};
use crate::error::{PristError, Result};
use crate::paths::{EnvPlace, LocationView, PristHome, env_of};
use crate::releases::{FeedView, Platform, Refusal, Release, ReleaseFeed, known, known_release};
use crate::text::{copied, decimal};
use crate::work::{Action, Outcome};

verus! {

/// A reference, and the release that it stands for.
#[derive(Debug)]
pub struct Chosen {
    pub target: String,
    pub release: Release,
}

/// What is known of a reference.
#[derive(Debug)]
pub enum Lookup {
    /// What it stands for.
    Known(Chosen),
    /// That the feed has to be asked.
    AskFeed(String),
}

/// What is known of a reference without the feed.
pub fn resolve_release(target: String) -> (r: Lookup)
    ensures
        match r {
            Lookup::Known(c) => c.target == target && known(target@) == Some(c.release@),
            Lookup::AskFeed(t) => t == target && known(target@) is None,
        },
{
    match known_release(target.as_str()) {
        Some(release) => Lookup::Known(Chosen { target, release }),
        None => Lookup::AskFeed(target),
    }
}

/// `r` is what the feed says of the reference `target`.
pub open spec fn said_by_feed(feed: FeedView, target: String, r: Result<Chosen>) -> bool {
    match (feed.resolution(target@), r) {
        (Ok(e), Ok(c)) => c.target == target && c.release@ == e,
        (Err(Refusal::NoCurrent), Err(PristError::NoCurrentRelease(n))) => n@ == target@,
        (Err(Refusal::Unresolved), Err(PristError::UnresolvedRef(n))) => n@ == target@,
        _ => false,
    }
}

/// What the feed says of a reference.
pub fn resolve_in(feed: &ReleaseFeed, target: String) -> (r: Result<Chosen>)
    ensures
        said_by_feed(feed@, target, r),
{
    match feed.resolve(target.as_str()) {
        Ok(release) => Ok(Chosen { target, release }),
        Err(e) => Err(e),
    }
}

/// How far the record of an environment has come.
#[derive(Debug)]
pub enum RecordStage {
    /// Which engine does the environment ask for?
    EngineVersion,
    /// It is being linked to its engine.
    Engine(EngineShare),
    /// Which Flutter version does it hold? The engine revision is known.
    FlutterVersion(Option<String>),
    /// What time is it? The engine revision and the version are known.
    Now(Option<String>, Option<String>),
    /// The record is to be written.
    Save { engine: Option<String>, version: Option<String>, seconds: u64 },
    /// The record is written.
    Done,
    Failed(CommandFailure),
}

/// An environment of which a record is made.
#[derive(Debug)]
pub struct Recording {
    pub name: String,
    pub chosen: Chosen,
    /// Whether its engine is to be downloaded where it is not there.
    pub download: bool,
    /// When the environment was created, if that is known.
    pub created_at: Option<String>,
    pub stage: RecordStage,
}

/// Link the environment `name` to its engine and record what it was made from.
pub fn record(name: String, chosen: Chosen, download: bool, created_at: Option<String>) -> (r:
    Recording)
    ensures
        r == (Recording { name, chosen, download, created_at, stage: RecordStage::EngineVersion }),
{
    Recording { name, chosen, download, created_at, stage: RecordStage::EngineVersion }
}

impl Recording {
    /// Nothing is pending.
    pub open spec fn ended(self) -> bool {
        self.stage is Done || self.stage is Failed
    }

    /// Whether nothing is pending.
    pub fn is_ended(&self) -> (r: bool)
        ensures
            r == self.ended(),
    {
        match self.stage {
            RecordStage::Done => true,
            RecordStage::Failed(_) => true,
            _ => false,
        }
    }

    /// Where the environment is being linked to its engine, that is not over.
    pub open spec fn wf(self) -> bool {
        match self.stage {
            RecordStage::Engine(share) => !share.ended(),
            _ => true,
        }
    }

    /// How many outcomes are awaited at most.
    pub open spec fn steps_left(self) -> nat {
        match self.stage {
            RecordStage::EngineVersion => 20,
            RecordStage::Engine(share) => 4 + share.steps_left(),
            RecordStage::FlutterVersion(_) => 3,
            RecordStage::Now(_, _) => 2,
            RecordStage::Save { .. } => 1,
            RecordStage::Done => 0,
            RecordStage::Failed(_) => 0,
        }
    }

    /// The stage after the outcome `o` of the pending action.
    pub open spec fn stage_after(self, o: Outcome) -> RecordStage {
        match self.stage {
            RecordStage::EngineVersion => match o {
                Outcome::Text(hash) => RecordStage::Engine(
                    EngineShare {
                        env: EnvPlace::Named(self.name),
                        hash,
                        download: self.download,
                        stage: EngineStage::Look,
                    },
                ),
                _ => RecordStage::FlutterVersion(None),
            },
            RecordStage::Engine(share) => if share.after(o).ended() {
                RecordStage::FlutterVersion(Some(share.hash))
            } else {
                RecordStage::Engine(share.after(o))
            },
            RecordStage::FlutterVersion(engine) => {
                let version = match o {
                    Outcome::Text(v) => Some(v),
                    _ => self.chosen.release.version,
                };
                if self.created_at is Some {
                    RecordStage::Save { engine, version, seconds: 0 }
                } else {
                    RecordStage::Now(engine, version)
                }
            },
            RecordStage::Now(engine, version) => RecordStage::Save {
                engine,
                version,
                seconds: match o {
                    Outcome::Seconds(n) => n,
                    _ => 0,
                },
            },
            RecordStage::Save { .. } => match o {
                Outcome::Failed(e) => RecordStage::Failed(CommandFailure::System(e)),
                _ => RecordStage::Done,
            },
            RecordStage::Done | RecordStage::Failed(_) => self.stage,
        }
    }

    /// What comes after the outcome `o` of the pending action.
    pub open spec fn after(self, o: Outcome) -> Self {
        Recording { stage: self.stage_after(o), ..self }
    }

    /// Take in the outcome of the pending action.
    pub fn next(self, o: Outcome) -> (r: Self)
        ensures
            r == self.after(o),
            r.wf(),
    {
        let stage = match self.stage {
            RecordStage::EngineVersion => match o {
                Outcome::Text(hash) => RecordStage::Engine(
                    EngineShare {
                        env: EnvPlace::Named(self.name.clone()),
                        hash,
                        download: self.download,
                        stage: EngineStage::Look,
                    },
                ),
                _ => RecordStage::FlutterVersion(None),
            },
            RecordStage::Engine(share) => {
                let share = share.next(o);
                if share.is_ended() {
                    RecordStage::FlutterVersion(Some(share.hash))
                } else {
                    RecordStage::Engine(share)
                }
            },
            RecordStage::FlutterVersion(engine) => {
                let version = match o {
                    Outcome::Text(v) => Some(v),
                    _ => copied(&self.chosen.release.version),
                };
                if self.created_at.is_some() {
                    RecordStage::Save { engine, version, seconds: 0 }
                } else {
                    RecordStage::Now(engine, version)
                }
            },
            RecordStage::Now(engine, version) => RecordStage::Save {
                engine,
                version,
                seconds: match o {
                    Outcome::Seconds(n) => n,
                    _ => 0,
                },
            },
            RecordStage::Save { .. } => match o {
                Outcome::Failed(e) => RecordStage::Failed(CommandFailure::System(e)),
                _ => RecordStage::Done,
            },
            RecordStage::Done => RecordStage::Done,
            RecordStage::Failed(f) => RecordStage::Failed(f),
        };
        Recording {
            name: self.name,
            chosen: self.chosen,
            download: self.download,
            created_at: self.created_at,
            stage,
        }
    }

    /// `meta` is the record of the environment, given its engine revision, its
    /// version and the time.
    pub open spec fn recorded(
        self,
        engine: Option<String>,
        version: Option<String>,
        seconds: u64,
        meta: EnvMeta,
    ) -> bool {
        &&& meta.name == self.name
        &&& meta.reference == Some(self.chosen.target)
        &&& meta.channel == self.chosen.release.channel
        &&& meta.version == version
        &&& meta.commit == self.chosen.release.hash
        &&& meta.engine_hash == engine
        &&& match self.created_at {
            Some(_) => meta.created_at == self.created_at,
            None => meta.created_at matches Some(t) && t@ == decimal(seconds as nat),
        }
    }

    /// `r` is the pending action, for a home at `root`.
    pub open spec fn asks(self, root: LocationView, platform: Platform, r: Option<Action>) -> bool {
        let env = env_of(root, self.name@);
        match (self.stage, r) {
            (RecordStage::EngineVersion, Some(Action::EngineVersion(l))) => l@ == env,
            (RecordStage::Engine(share), _) => share.asks(root, platform, r),
            (RecordStage::FlutterVersion(_), Some(Action::FlutterVersion(l))) => l@ == env,
            (RecordStage::Now(_, _), Some(Action::Now)) => true,
            (
                RecordStage::Save { engine, version, seconds },
                Some(Action::SaveMeta { env: l, meta }),
            ) => l@ == env && self.recorded(engine, version, seconds, meta),
            (RecordStage::Done, None) => true,
            (RecordStage::Failed(_), None) => true,
            _ => false,
        }
    }

    /// The pending action, if there is one.
    pub fn action(&self, home: &PristHome, platform: Platform) -> (r: Option<Action>)
        ensures
            self.wf() ==> (r is Some <==> !self.ended()),
            self.asks(home.root@, platform, r),
    {
        let env = home.env(self.name.as_str());
        match &self.stage {
            RecordStage::EngineVersion => Some(Action::EngineVersion(env)),
            RecordStage::Engine(share) => share.action(home, platform),
            RecordStage::FlutterVersion(_) => Some(Action::FlutterVersion(env)),
            RecordStage::Now(_, _) => Some(Action::Now),
            RecordStage::Save { engine, version, seconds } => {
                let created_at = match &self.created_at {
                    Some(t) => Some(t.clone()),
                    None => Some(now_iso(*seconds)),
                };
                let meta = EnvMeta {
                    name: self.name.clone(),
                    reference: Some(self.chosen.target.clone()),
                    channel: copied(&self.chosen.release.channel),
                    version: copied(version),
                    commit: copied(&self.chosen.release.hash),
                    engine_hash: copied(engine),
                    created_at,
                };
                Some(Action::SaveMeta { env, meta })
            },
            RecordStage::Done => None,
            RecordStage::Failed(_) => None,
        }
    }
}

/// The record is written only once the engine and the version of the environment are
/// settled, whatever came of the engine, and it is of that environment and that
/// release. Each outcome brings the record closer to the end.
pub proof fn law_record_is_written_last(before: Recording, o: Outcome)
    requires
        before.wf(),
        !before.ended(),
    ensures
        before.after(o).wf(),
        before.after(o).steps_left() < before.steps_left(),
        before.after(o).name == before.name,
        before.after(o).chosen == before.chosen,
        before.after(o).created_at == before.created_at,
        before.after(o).stage is Save ==> before.stage is FlutterVersion || before.stage is Now,
        before.after(o).stage is Done ==> before.stage is Save && !(o is Failed),
        before.after(o).stage is Failed ==> before.stage is Save && o is Failed,
{
    if let RecordStage::Engine(share) = before.stage {
        law_engine_is_shared_when_complete(share, o);
    }
}

/// The record states what the environment was made from: its name, the reference that was
/// asked for, the channel and the commit of the release, the version that its files state or
/// else that of the release, its engine revision, and when it was created.
pub proof fn law_record_tells_of_the_release(
    recording: Recording,
    root: LocationView,
    platform: Platform,
    r: Option<Action>,
)
    requires
        recording.asks(root, platform, r),
        recording.stage is Save,
    ensures
        r matches Some(Action::SaveMeta { env, meta }) && meta.name@ == recording.name@ && (
        meta.reference matches Some(t) && t@ == recording.chosen.target@) && meta.channel
            == recording.chosen.release.channel && meta.commit == recording.chosen.release.hash
            && meta.version == recording.stage->Save_version && meta.engine_hash
            == recording.stage->Save_engine && (recording.created_at is Some ==> meta.created_at
            == recording.created_at) && (recording.created_at is None ==> (
        meta.created_at matches Some(t) && t@ == decimal(recording.stage->Save_seconds as nat)))
            && env@ == env_of(root, recording.name@),
{
}

/// The version of the files counts before that of the release, and the engine revision is the
/// one that the environment asks for.
pub proof fn law_files_state_the_version(before: Recording, text: String, o: Outcome, n: u64)
    ensures
        before.stage is EngineVersion ==> (before.after(Outcome::Text(text)).stage matches
            RecordStage::Engine(share) && share.hash == text && share.download == before.download
            && share.env == EnvPlace::Named(before.name) && share.stage is Look),
        before.stage is EngineVersion && !(o is Text) ==> before.after(o).stage
            == RecordStage::FlutterVersion(None),
        before.stage matches RecordStage::FlutterVersion(engine) ==> {
            &&& before.created_at is None ==> before.after(Outcome::Text(text)).stage
                == RecordStage::Now(engine, Some(text))
            &&& before.created_at is None && !(o is Text) ==> before.after(o).stage
                == RecordStage::Now(engine, before.chosen.release.version)
            &&& before.created_at is Some ==> (before.after(Outcome::Text(text)).stage matches
                RecordStage::Save { engine: e, version, .. } && e == engine && version == Some(text))
        },
        before.stage matches RecordStage::Now(engine, version) ==> before.after(
            Outcome::Seconds(n),
        ).stage == (RecordStage::Save { engine, version, seconds: n }),
        before.stage matches RecordStage::Engine(share) ==> (before.after(
            o,
        ).stage matches RecordStage::FlutterVersion(engine) ==> engine == Some(share.hash)),
{
}

} // verus!
