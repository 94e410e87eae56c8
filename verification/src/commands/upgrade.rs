//! `prist upgrade`: move an environment to another version, channel or commit.

use vstd::prelude::*;

use crate::commands::failure::CommandFailure;
use crate::commands::record::{Chosen, Lookup, RecordStage, Recording, law_record_is_written_last, record, resolve_in, resolve_release, said_by_feed};
use crate::config::EnvMeta;
use crate::error::PristError;
use crate::git_ops::{EnsureBare, GitFailure, ensure_bare, git_in, law_bare_is_ready_with_gc_off};
use crate::paths::{LocationView, PristHome, env_of, law_home_is_laid_out};
use crate::releases::{Platform, known};
use crate::text::copied;
use crate::work::{Action, ArgView, Outcome};

verus! {

/// Why an environment could not be upgraded.
#[derive(Debug)]
pub enum UpgradeFailure {
    /// The release feed could not be had.
    Feed(String),
    /// The reference stands for nothing.
    Reference(PristError),
    Git(GitFailure),
    /// The checkout of this reference could not be started.
    NoCheckout(String, String),
    /// The checkout of this reference ended badly.
    Checkout(String),
    Command(CommandFailure),
}

impl UpgradeFailure {
    /// It is reported as the error `r`.
    pub open spec fn told_as(self, r: PristError) -> bool {
        match self {
            UpgradeFailure::Feed(e) => r == PristError::ReleaseFeed(e),
            UpgradeFailure::Reference(e) => r == e,
            UpgradeFailure::Git(f) => f.told_as(r),
            UpgradeFailure::NoCheckout(reference, e) => r matches PristError::Other(m) && m@
                == "failed to checkout "@ + reference@ + ": "@ + e@,
            UpgradeFailure::Checkout(reference) => r matches PristError::Other(m) && m@
                == "git checkout "@ + reference@ + " failed"@,
            UpgradeFailure::Command(f) => f.told_as(r),
        }
    }

    /// The error that is reported.
    pub fn error(self) -> (r: PristError)
        ensures
            self.told_as(r),
    {
        match self {
            UpgradeFailure::Feed(e) => PristError::ReleaseFeed(e),
            UpgradeFailure::Reference(e) => e,
            UpgradeFailure::Git(f) => f.error(),
            UpgradeFailure::NoCheckout(reference, e) => PristError::msg(
                "failed to checkout ".to_string().concat(reference.as_str()).concat(": ").concat(
                    e.as_str(),
                ),
            ),
            UpgradeFailure::Checkout(reference) => PristError::msg(
                "git checkout ".to_string().concat(reference.as_str()).concat(" failed"),
            ),
            UpgradeFailure::Command(f) => f.error(),
        }
    }
}

/// The environment in question, and when it was created, if that is known.
#[derive(Debug)]
pub struct Subject {
    pub name: String,
    pub created_at: Option<String>,
}

/// How far an upgrade has come.
#[derive(Debug)]
pub enum UpgradeStage {
    /// Which environment is active here?
    FindActive,
    /// The user has to choose.
    Choose,
    /// Is there such an environment?
    Look(String),
    /// Its record is to be read.
    LoadMeta(String),
    /// What does the reference stand for?
    Resolve(Subject, String),
    /// The shared repository is being made ready.
    Bare(Subject, Chosen, EnsureBare),
    /// The release is to be checked out.
    Checkout(Subject, Chosen),
    /// It is being recorded what the environment was made from.
    Record(Recording),
    /// The environment is at the release.
    Done(String, Chosen),
    Failed(UpgradeFailure),
}

/// An upgrade under way.
#[derive(Debug)]
pub struct Upgrade {
    /// The reference that was given, if any.
    pub reference: Option<String>,
    pub stage: UpgradeStage,
}

/// Move the environment `env` to `reference`. Where no environment is named, it is the
/// one that is active here, or one that the user chooses. Where no reference is given,
/// it is the one that the environment was made from, or its channel, or `stable`.
pub fn upgrade(env: Option<String>, reference: Option<String>) -> (r: Upgrade)
    ensures
        r == (Upgrade {
            reference,
            stage: match env {
                Some(name) => UpgradeStage::Look(name),
                None => UpgradeStage::FindActive,
            },
        }),
{
    let stage = match env {
        Some(name) => UpgradeStage::Look(name),
        None => UpgradeStage::FindActive,
    };
    Upgrade { reference, stage }
}

/// The reference to which an environment is upgraded.
pub open spec fn upgrade_target(reference: Option<String>, meta: Option<EnvMeta>) -> Seq<char> {
    match (reference, meta) {
        (Some(r), _) => r@,
        (None, None) => "stable"@,
        (None, Some(m)) => match (m.reference, m.channel) {
            (Some(r), _) => r@,
            (None, Some(c)) => c@,
            (None, None) => "stable"@,
        },
    }
}

/// The reference to which an environment is upgraded.
fn target_of(reference: &Option<String>, meta: &Option<EnvMeta>) -> (r: String)
    ensures
        r@ == upgrade_target(*reference, *meta),
{
    if let Some(r) = reference {
        return r.clone();
    }
    if let Some(m) = meta {
        if let Some(r) = &m.reference {
            return r.clone();
        }
        if let Some(c) = &m.channel {
            return c.clone();
        }
    }
    "stable".to_string()
}

/// What is checked out: the commit of the release, or where it has none the reference
/// itself.
pub open spec fn checkout_ref(chosen: Chosen) -> String {
    match chosen.release.hash {
        Some(c) => c,
        None => chosen.target,
    }
}

/// `stage` sets out for the reference `target`: what it stands for is known, and the
/// shared repository is made ready for it, or the feed is to be asked.
pub open spec fn sets_out(stage: UpgradeStage, subject: Subject, target: Seq<char>) -> bool {
    match stage {
        UpgradeStage::Bare(s, chosen, bare) => s == subject && chosen.target@ == target && known(
            target,
        ) == Some(chosen.release@) && bare == EnsureBare::Parent(chosen.release.hash),
        UpgradeStage::Resolve(s, t) => s == subject && t@ == target && known(target) is None,
        _ => false,
    }
}

impl Upgrade {
    /// Nothing is pending.
    pub open spec fn ended(self) -> bool {
        self.stage is Done || self.stage is Failed
    }

    /// What is under way is not over.
    pub open spec fn wf(self) -> bool {
        match self.stage {
            UpgradeStage::Bare(_, _, bare) => !bare.ended(),
            UpgradeStage::Record(recording) => recording.wf() && !recording.ended(),
            _ => true,
        }
    }

    /// `f` happened.
    pub open spec fn failed(f: CommandFailure) -> UpgradeStage {
        UpgradeStage::Failed(UpgradeFailure::Command(f))
    }

    /// `r` is what comes after the outcome `o` of the pending action.
    pub open spec fn steps(self, o: Outcome, r: Self) -> bool {
        &&& r.reference == self.reference
        &&& match self.stage {
            UpgradeStage::FindActive => match o {
                Outcome::Active(Some(name)) => r.stage == UpgradeStage::Look(name),
                Outcome::Failed(e) => r.stage == Self::failed(CommandFailure::System(e)),
                _ => r.stage is Choose,
            },
            UpgradeStage::Choose => match o {
                Outcome::Text(name) => r.stage == UpgradeStage::Look(name),
                Outcome::Failed(e) => r.stage == Self::failed(CommandFailure::System(e)),
                _ => r.stage == Self::failed(CommandFailure::Unanswered),
            },
            UpgradeStage::Look(name) => if o is Yes {
                r.stage == UpgradeStage::LoadMeta(name)
            } else {
                r.stage == Self::failed(CommandFailure::NotFound(name))
            },
            UpgradeStage::LoadMeta(name) => match o {
                Outcome::Meta(meta) => sets_out(
                    r.stage,
                    Subject { name, created_at: meta.created_at },
                    upgrade_target(self.reference, Some(meta)),
                ),
                _ => sets_out(
                    r.stage,
                    Subject { name, created_at: None },
                    upgrade_target(self.reference, None),
                ),
            },
            UpgradeStage::Resolve(subject, target) => match (o, r.stage) {
                (Outcome::Feed(feed), UpgradeStage::Bare(s, chosen, bare)) => s == subject
                    && said_by_feed(feed@, target, Ok(chosen)) && bare == EnsureBare::Parent(
                    chosen.release.hash,
                ),
                (Outcome::Feed(feed), UpgradeStage::Failed(UpgradeFailure::Reference(e))) =>
                    said_by_feed(feed@, target, Err(e)),
                (Outcome::Feed(_), _) => false,
                (Outcome::Failed(e), stage) => stage == UpgradeStage::Failed(
                    UpgradeFailure::Feed(e),
                ),
                (_, stage) => stage == Self::failed(CommandFailure::Unanswered),
            },
            UpgradeStage::Bare(subject, chosen, bare) => match bare.after(o) {
                EnsureBare::Done => r.stage == UpgradeStage::Checkout(subject, chosen),
                EnsureBare::Failed(f) => r.stage == UpgradeStage::Failed(UpgradeFailure::Git(f)),
                next => r.stage == UpgradeStage::Bare(subject, chosen, next),
            },
            UpgradeStage::Checkout(subject, chosen) => match o {
                Outcome::Failed(e) => r.stage == UpgradeStage::Failed(
                    UpgradeFailure::NoCheckout(checkout_ref(chosen), e),
                ),
                _ => if o.ended_well() {
                    r.stage == UpgradeStage::Record(
                        Recording {
                            name: subject.name,
                            chosen,
                            download: true,
                            created_at: subject.created_at,
                            stage: RecordStage::EngineVersion,
                        },
                    )
                } else {
                    r.stage == UpgradeStage::Failed(UpgradeFailure::Checkout(checkout_ref(chosen)))
                },
            },
            UpgradeStage::Record(recording) => match recording.after(o).stage {
                RecordStage::Done => r.stage == UpgradeStage::Done(
                    recording.name,
                    recording.chosen,
                ),
                RecordStage::Failed(f) => r.stage == Self::failed(f),
                _ => r.stage == UpgradeStage::Record(recording.after(o)),
            },
            UpgradeStage::Done(_, _) | UpgradeStage::Failed(_) => r.stage == self.stage,
        }
    }

    /// Take in the outcome of the pending action.
    pub fn next(self, o: Outcome) -> (r: Self)
        ensures
            self.steps(o, r),
            self.wf() ==> r.wf(),
    {
        let reference = self.reference;
        let well = o.well();
        let stage = match self.stage {
            UpgradeStage::FindActive => match o {
                Outcome::Active(Some(name)) => UpgradeStage::Look(name),
                Outcome::Failed(e) => UpgradeStage::Failed(
                    UpgradeFailure::Command(CommandFailure::System(e)),
                ),
                _ => UpgradeStage::Choose,
            },
            UpgradeStage::Choose => match o {
                Outcome::Text(name) => UpgradeStage::Look(name),
                Outcome::Failed(e) => UpgradeStage::Failed(
                    UpgradeFailure::Command(CommandFailure::System(e)),
                ),
                _ => UpgradeStage::Failed(UpgradeFailure::Command(CommandFailure::Unanswered)),
            },
            UpgradeStage::Look(name) => match o {
                Outcome::Yes => UpgradeStage::LoadMeta(name),
                _ => UpgradeStage::Failed(UpgradeFailure::Command(CommandFailure::NotFound(name))),
            },
            UpgradeStage::LoadMeta(name) => {
                let meta = match o {
                    Outcome::Meta(meta) => Some(meta),
                    _ => None,
                };
                let target = target_of(&reference, &meta);
                let created_at = match meta {
                    Some(m) => m.created_at,
                    None => None,
                };
                let subject = Subject { name, created_at };
                match resolve_release(target) {
                    Lookup::Known(chosen) => {
                        let bare = ensure_bare(copied(&chosen.release.hash));
                        UpgradeStage::Bare(subject, chosen, bare)
                    },
                    Lookup::AskFeed(target) => UpgradeStage::Resolve(subject, target),
                }
            },
            UpgradeStage::Resolve(subject, target) => match o {
                Outcome::Feed(feed) => match resolve_in(&feed, target) {
                    Ok(chosen) => {
                        let bare = ensure_bare(copied(&chosen.release.hash));
                        UpgradeStage::Bare(subject, chosen, bare)
                    },
                    Err(e) => UpgradeStage::Failed(UpgradeFailure::Reference(e)),
                },
                Outcome::Failed(e) => UpgradeStage::Failed(UpgradeFailure::Feed(e)),
                _ => UpgradeStage::Failed(UpgradeFailure::Command(CommandFailure::Unanswered)),
            },
            UpgradeStage::Bare(subject, chosen, bare) => match bare.next(o) {
                EnsureBare::Done => UpgradeStage::Checkout(subject, chosen),
                EnsureBare::Failed(f) => UpgradeStage::Failed(UpgradeFailure::Git(f)),
                bare => UpgradeStage::Bare(subject, chosen, bare),
            },
            UpgradeStage::Checkout(subject, chosen) => if well {
                UpgradeStage::Record(record(subject.name, chosen, true, subject.created_at))
            } else {
                let wanted = match chosen.release.hash {
                    Some(c) => c,
                    None => chosen.target,
                };
                match o {
                    Outcome::Failed(e) => UpgradeStage::Failed(
                        UpgradeFailure::NoCheckout(wanted, e),
                    ),
                    _ => UpgradeStage::Failed(UpgradeFailure::Checkout(wanted)),
                }
            },
            UpgradeStage::Record(recording) => {
                let recording = recording.next(o);
                match recording.stage {
                    RecordStage::Done => UpgradeStage::Done(recording.name, recording.chosen),
                    RecordStage::Failed(f) => UpgradeStage::Failed(UpgradeFailure::Command(f)),
                    stage => UpgradeStage::Record(
                        Recording {
                            name: recording.name,
                            chosen: recording.chosen,
                            download: recording.download,
                            created_at: recording.created_at,
                            stage,
                        },
                    ),
                }
            },
            UpgradeStage::Done(name, chosen) => UpgradeStage::Done(name, chosen),
            UpgradeStage::Failed(f) => UpgradeStage::Failed(f),
        };
        Upgrade { reference, stage }
    }

    /// `r` is the pending action, for a home at `root`.
    pub open spec fn asks(self, root: LocationView, platform: Platform, r: Option<Action>) -> bool {
        match (self.stage, r) {
            (UpgradeStage::FindActive, Some(Action::FindActive)) => true,
            (UpgradeStage::Choose, Some(Action::ChooseEnv { prompt })) => prompt@
                == "? Select environment to upgrade:"@,
            (UpgradeStage::Look(name), Some(Action::IsDirectory(l))) => l@ == env_of(root, name@),
            (UpgradeStage::LoadMeta(name), Some(Action::LoadMeta(l))) => l@ == env_of(root, name@),
            (UpgradeStage::Resolve(_, _), Some(Action::FetchFeed)) => true,
            (UpgradeStage::Bare(_, _, bare), _) => bare.asks(root, r),
            (UpgradeStage::Checkout(subject, chosen), Some(Action::Git { args, shown })) => shown
                && args@ =~= seq![
                ArgView::Word("-C"@),
                ArgView::Place(env_of(root, subject.name@)),
                ArgView::Word("checkout"@),
                ArgView::Word("-f"@),
                ArgView::Word(checkout_ref(chosen)@),
            ],
            (UpgradeStage::Record(recording), _) => recording.asks(root, platform, r),
            (UpgradeStage::Done(_, _), None) => true,
            (UpgradeStage::Failed(_), None) => true,
            _ => false,
        }
    }

    /// The pending action, if there is one.
    pub fn action(&self, home: &PristHome, platform: Platform) -> (r: Option<Action>)
        ensures
            self.wf() ==> (r is Some <==> !self.ended()),
            self.asks(home.root@, platform, r),
    {
        match &self.stage {
            UpgradeStage::FindActive => Some(Action::FindActive),
            UpgradeStage::Choose => Some(
                Action::ChooseEnv { prompt: "? Select environment to upgrade:" },
            ),
            UpgradeStage::Look(name) => Some(Action::IsDirectory(home.env(name.as_str()))),
            UpgradeStage::LoadMeta(name) => Some(Action::LoadMeta(home.env(name.as_str()))),
            UpgradeStage::Resolve(_, _) => Some(Action::FetchFeed),
            UpgradeStage::Bare(_, _, bare) => bare.action(home),
            UpgradeStage::Checkout(subject, chosen) => {
                let wanted: &str = match &chosen.release.hash {
                    Some(c) => c.as_str(),
                    None => chosen.target.as_str(),
                };
                Some(
                    Action::Git {
                        args: git_in(home.env(subject.name.as_str())).word("checkout").word(
                            "-f",
                        ).word(wanted),
                        shown: true,
                    },
                )
            },
            UpgradeStage::Record(recording) => recording.action(home, platform),
            UpgradeStage::Done(_, _) => None,
            UpgradeStage::Failed(_) => None,
        }
    }

    /// How many outcomes are awaited at most.
    pub open spec fn steps_left(self) -> nat {
        match self.stage {
            UpgradeStage::FindActive => 38,
            UpgradeStage::Choose => 37,
            UpgradeStage::Look(_) => 36,
            UpgradeStage::LoadMeta(_) => 35,
            UpgradeStage::Resolve(_, _) => 34,
            UpgradeStage::Bare(_, _, bare) => 23 + bare.steps_left(),
            UpgradeStage::Checkout(_, _) => 22,
            UpgradeStage::Record(recording) => 1 + recording.steps_left(),
            UpgradeStage::Done(_, _) => 0,
            UpgradeStage::Failed(_) => 0,
        }
    }

    /// The name of the environment in question, once it is known.
    pub open spec fn target(self) -> Option<String> {
        match self.stage {
            UpgradeStage::FindActive => None,
            UpgradeStage::Choose => None,
            UpgradeStage::Look(name) => Some(name),
            UpgradeStage::LoadMeta(name) => Some(name),
            UpgradeStage::Resolve(subject, _) => Some(subject.name),
            UpgradeStage::Bare(subject, _, _) => Some(subject.name),
            UpgradeStage::Checkout(subject, _) => Some(subject.name),
            UpgradeStage::Record(recording) => Some(recording.name),
            UpgradeStage::Done(name, _) => Some(name),
            UpgradeStage::Failed(_) => None,
        }
    }
}

/// An upgrade keeps the name of the environment and the time of its creation. The
/// record is touched only after the release was checked out. Each outcome brings the
/// upgrade closer to the end.
pub proof fn law_upgrade_keeps_the_name(before: Upgrade, o: Outcome, after: Upgrade)
    requires
        before.wf(),
        !before.ended(),
        before.steps(o, after),
    ensures
        after.wf(),
        after.steps_left() < before.steps_left(),
        match (before.target(), after.target()) {
            (Some(a), Some(b)) => a == b,
            (Some(_), None) => after.stage is Failed,
            (None, _) => true,
        },
        after.stage matches UpgradeStage::Record(recording) ==> match before.stage {
            UpgradeStage::Checkout(subject, chosen) => o.ended_well() && recording.chosen == chosen
                && recording.created_at == subject.created_at,
            UpgradeStage::Record(recording_before) => recording.chosen == recording_before.chosen
                && recording.created_at == recording_before.created_at,
            _ => false,
        },
        after.stage is Done ==> (before.stage matches UpgradeStage::Record(recording)
            && recording.stage is Save && !(o is Failed)),
{
    match before.stage {
        UpgradeStage::Bare(_, _, bare) => {
            law_bare_is_ready_with_gc_off(bare, o);
        },
        UpgradeStage::Record(recording) => {
            law_record_is_written_last(recording, o);
        },
        _ => {},
    }
}

/// An upgrade goes to the reference that was given; else to the one that the environment was
/// made from; else to its channel; else to `stable`.
pub proof fn law_upgrade_goes_where_it_is_told(reference: Option<String>, meta: Option<EnvMeta>)
    ensures
        reference matches Some(r) ==> upgrade_target(reference, meta) == r@,
        reference is None ==> (meta matches Some(m) ==> (m.reference matches Some(r)
            ==> upgrade_target(reference, meta) == r@)),
        reference is None ==> (meta matches Some(m) ==> m.reference is None ==> (
        m.channel matches Some(c) ==> upgrade_target(reference, meta) == c@)),
        reference is None && (meta is None || (meta->0.reference is None && meta->0.channel is None))
            ==> upgrade_target(reference, meta) == "stable"@,
{
}

/// What is checked out is the commit of the release, or where it has none the reference
/// itself, by force and in the environment's own directory.
pub proof fn law_upgrade_checks_out_the_release(
    upgrade: Upgrade,
    root: LocationView,
    platform: Platform,
    r: Option<Action>,
)
    requires
        upgrade.asks(root, platform, r),
    ensures
        upgrade.stage matches UpgradeStage::Checkout(subject, chosen) ==> (r matches Some(
            Action::Git { args, shown },
        ) && args@.len() == 5 && args@[1] == ArgView::Place(
            LocationView {
                base: root.base,
                parts: root.parts + seq!["envs"@, subject.name@],
            },
        ) && args@[2] == ArgView::Word("checkout"@) && args@[3] == ArgView::Word("-f"@) && args@[4]
            == ArgView::Word(
            match chosen.release.hash {
                Some(h) => h@,
                None => chosen.target@,
            },
        )),
{
    if let UpgradeStage::Checkout(subject, _) = upgrade.stage {
        law_home_is_laid_out(root, subject.name@);
    }
}

/// An upgrade moves the environment to what the feed gives for its reference, and keeps when
/// it was created.
pub proof fn law_upgrade_follows_the_feed(before: Upgrade, o: Outcome, after: Upgrade)
    requires
        before.steps(o, after),
    ensures
        before.stage matches UpgradeStage::Resolve(subject, target) ==> (o matches Outcome::Feed(
            feed,
        ) ==> match feed@.resolution(target@) {
            Ok(e) => after.stage matches UpgradeStage::Bare(s, chosen, bare) && s == subject
                && chosen.release@ == e && chosen.target@ == target@ && bare == EnsureBare::Parent(
                chosen.release.hash,
            ),
            Err(_) => after.stage is Failed,
        }),
        before.stage matches UpgradeStage::LoadMeta(name) ==> (o matches Outcome::Meta(m) ==> match after.stage {
            UpgradeStage::Resolve(s, _) => s.name == name && s.created_at == m.created_at,
            UpgradeStage::Bare(s, _, _) => s.name == name && s.created_at == m.created_at,
            _ => false,
        }),
        before.stage matches UpgradeStage::Checkout(subject, chosen) ==> o.ended_well() ==> (
        after.stage matches UpgradeStage::Record(recording) && recording.name == subject.name
            && recording.chosen == chosen && recording.download && recording.created_at
            == subject.created_at),
{
}

/// Which environment is upgraded: the one that is named; else the active one; else the one
/// that the user chooses. It has to be there.
pub proof fn law_upgrade_finds_its_environment(
    before: Upgrade,
    name: String,
    o: Outcome,
    after: Upgrade,
)
    requires
        before.steps(o, after),
    ensures
        before.stage is FindActive && o == Outcome::Active(Some(name)) ==> after.stage
            == UpgradeStage::Look(name),
        before.stage is FindActive && o == Outcome::Active(None) ==> after.stage is Choose,
        before.stage is Choose && o == Outcome::Text(name) ==> after.stage == UpgradeStage::Look(
            name,
        ),
        before.stage == UpgradeStage::Look(name) && o is Yes ==> after.stage
            == UpgradeStage::LoadMeta(name),
        before.stage == UpgradeStage::Look(name) && !(o is Yes) ==> after.stage
            == UpgradeStage::Failed(UpgradeFailure::Command(CommandFailure::NotFound(name))),
        (before.stage is FindActive || before.stage is Choose) && o is Failed ==> after.stage
            == UpgradeStage::Failed(UpgradeFailure::Command(CommandFailure::System(o->Failed_0))),
        before.stage matches UpgradeStage::Checkout(subject, chosen) ==> !o.ended_well() && !(
        o is Failed) ==> (after.stage matches UpgradeStage::Failed(UpgradeFailure::Checkout(c)) && c@
            == match chosen.release.hash {
            Some(h) => h@,
            None => chosen.target@,
        }),
{
}

/// An upgrade looks at the environment in its own directory, and at no other; where none is
/// named or active, it says what the choice is for.
pub proof fn law_upgrade_looks_at_its_environment(
    upgrade: Upgrade,
    root: LocationView,
    platform: Platform,
    r: Option<Action>,
)
    requires
        upgrade.asks(root, platform, r),
    ensures
        upgrade.stage matches UpgradeStage::Look(name) ==> (r matches Some(Action::IsDirectory(l))
            && l@ == (LocationView {
            base: root.base,
            parts: root.parts + seq!["envs"@, name@],
        })),
        upgrade.stage matches UpgradeStage::LoadMeta(name) ==> (r matches Some(Action::LoadMeta(l))
            && l@ == (LocationView {
            base: root.base,
            parts: root.parts + seq!["envs"@, name@],
        })),
        upgrade.stage is Choose ==> (r matches Some(Action::ChooseEnv { prompt }) && prompt@
            == "? Select environment to upgrade:"@),
        upgrade.stage is FindActive ==> r == Some(Action::FindActive),
        upgrade.stage is Resolve ==> r == Some(Action::FetchFeed),
{
    if let UpgradeStage::Look(name) = upgrade.stage {
        law_home_is_laid_out(root, name@);
    }
    if let UpgradeStage::LoadMeta(name) = upgrade.stage {
        law_home_is_laid_out(root, name@);
    }
}

} // verus!
