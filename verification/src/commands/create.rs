//! `prist create`: make an environment at a version, channel or commit.

use vstd::prelude::*;

use crate::commands::activate::{Activation, UseStage, law_activation_names_one_env, use_env};
use crate::commands::failure::CommandFailure;
use crate::commands::names::{describe_release, env_name, release_label, validate_env_name};
use crate::commands::record::{Chosen, Lookup, RecordStage, Recording, law_record_is_written_last, record, resolve_in, resolve_release, said_by_feed};
use crate::error::PristError;
use crate::git_ops::{CloneStage, EnsureBare, EnvClone, GitFailure, create_env_from_bare, ensure_bare, law_bare_is_ready_with_gc_off, law_clone_is_ready_when_linked};
use crate::paths::{LocationView, PristHome, env_of};
use crate::releases::{Platform, known};
use crate::text::{borrowed, copied, opt_text};
use crate::work::{Action, Outcome};

verus! {

/// Why an environment could not be created.
#[derive(Debug)]
pub enum CreateFailure {
    /// It may not be called so.
    Name(PristError),
    /// There is an environment of this name.
    Exists(String),
    /// The release feed could not be had.
    Feed(String),
    /// The reference stands for nothing.
    Reference(PristError),
    Git(GitFailure),
    Command(CommandFailure),
}

impl CreateFailure {
    /// It is reported as the error `r`.
    pub open spec fn told_as(self, r: PristError) -> bool {
        match self {
            CreateFailure::Name(e) => r == e,
            CreateFailure::Exists(name) => r == PristError::EnvAlreadyExists(name),
            CreateFailure::Feed(e) => r == PristError::ReleaseFeed(e),
            CreateFailure::Reference(e) => r == e,
            CreateFailure::Git(f) => f.told_as(r),
            CreateFailure::Command(f) => f.told_as(r),
        }
    }

    /// The error that is reported.
    pub fn error(self) -> (r: PristError)
        ensures
            self.told_as(r),
    {
        match self {
            CreateFailure::Name(e) => e,
            CreateFailure::Exists(name) => PristError::EnvAlreadyExists(name),
            CreateFailure::Feed(e) => PristError::ReleaseFeed(e),
            CreateFailure::Reference(e) => e,
            CreateFailure::Git(f) => f.error(),
            CreateFailure::Command(f) => f.error(),
        }
    }
}

/// How far the creation of an environment has come.
#[derive(Debug)]
pub enum CreateStage {
    /// Is there an environment of this name? The reference may be given.
    Look(Option<String>),
    /// What does the reference stand for?
    Resolve(String),
    /// The shared repository is being made ready.
    Bare(Chosen, EnsureBare),
    /// The environment is being cloned from it.
    Clone(Chosen, EnvClone),
    /// It is being recorded what the environment was made from.
    Record(Recording),
    /// Is there a global default?
    LoadGlobal(Chosen),
    /// The environment is being made the global default.
    Activate(Chosen, Activation),
    /// What was made of the environment is to be removed, for this happened.
    CleanUp(CreateFailure),
    /// The environment is there.
    Done(Chosen),
    Failed(CreateFailure),
}

/// An environment that is being created.
#[derive(Debug)]
pub struct Creation {
    pub name: String,
    /// Whether its engine is to be downloaded at once.
    pub precache: bool,
    pub stage: CreateStage,
}

/// Create the environment `name` at `reference`, or where none is given at `stable`.
pub fn create(name: String, reference: Option<String>, precache: bool) -> (r: Creation)
    ensures
        r.name == name,
        r.precache == precache,
        match r.stage {
            CreateStage::Look(reference_) => env_name(name@) && reference_ == reference,
            CreateStage::Failed(CreateFailure::Name(e)) => !env_name(name@) && e.told()
                == "invalid env name: must be non-empty, not 'default', and contain no path separators"@,
            _ => false,
        },
{
    let stage = match validate_env_name(name.as_str()) {
        Ok(_) => CreateStage::Look(reference),
        Err(e) => CreateStage::Failed(CreateFailure::Name(e)),
    };
    Creation { name, precache, stage }
}

/// `stage` sets out for the reference `target`: what it stands for is known, and the
/// shared repository is made ready for it, or the feed is to be asked.
pub open spec fn sets_out(stage: CreateStage, target: Seq<char>) -> bool {
    match stage {
        CreateStage::Bare(chosen, bare) => chosen.target@ == target && known(target) == Some(
            chosen.release@,
        ) && bare == EnsureBare::Parent(chosen.release.hash),
        CreateStage::Resolve(t) => t@ == target && known(target) is None,
        _ => false,
    }
}

/// Set out for the reference `target`.
fn set_out(target: String) -> (r: CreateStage)
    ensures
        sets_out(r, target@),
{
    match resolve_release(target) {
        Lookup::Known(chosen) => {
            let bare = ensure_bare(copied(&chosen.release.hash));
            CreateStage::Bare(chosen, bare)
        },
        Lookup::AskFeed(target) => CreateStage::Resolve(target),
    }
}

impl Creation {
    /// Nothing is pending.
    pub open spec fn ended(self) -> bool {
        self.stage is Done || self.stage is Failed
    }

    /// What is under way is not over, and is about the environment that is created.
    pub open spec fn wf(self) -> bool {
        match self.stage {
            CreateStage::Bare(_, bare) => !bare.ended(),
            CreateStage::Clone(_, clone) => !clone.ended() && clone.name == self.name,
            CreateStage::Record(recording) => recording.wf() && !recording.ended()
                && recording.name == self.name,
            CreateStage::Activate(_, activation) => activation.wf() && !activation.ended()
                && activation.global && activation.stage.target() == Some(self.name),
            _ => true,
        }
    }

    /// `r` is what comes after the outcome `o` of the pending action.
    pub open spec fn steps(self, o: Outcome, r: Self) -> bool {
        &&& r.name == self.name
        &&& r.precache == self.precache
        &&& match self.stage {
            CreateStage::Look(reference) => if o is Yes {
                r.stage == CreateStage::Failed(CreateFailure::Exists(self.name))
            } else {
                match reference {
                    Some(target) => sets_out(r.stage, target@),
                    None => sets_out(r.stage, "stable"@),
                }
            },
            CreateStage::Resolve(target) => match (o, r.stage) {
                (Outcome::Feed(feed), CreateStage::Bare(chosen, bare)) => said_by_feed(
                    feed@,
                    target,
                    Ok(chosen),
                ) && bare == EnsureBare::Parent(chosen.release.hash),
                (Outcome::Feed(feed), CreateStage::Failed(CreateFailure::Reference(e))) =>
                    said_by_feed(feed@, target, Err(e)),
                (Outcome::Feed(_), _) => false,
                (Outcome::Failed(e), stage) => stage == CreateStage::Failed(CreateFailure::Feed(e)),
                (_, stage) => stage == CreateStage::Failed(
                    CreateFailure::Command(CommandFailure::Unanswered),
                ),
            },
            CreateStage::Bare(chosen, bare) => match bare.after(o) {
                EnsureBare::Done => r.stage == CreateStage::Clone(
                    chosen,
                    EnvClone {
                        name: self.name,
                        commit: chosen.release.hash,
                        stage: CloneStage::Parent,
                    },
                ),
                EnsureBare::Failed(f) => r.stage == CreateStage::Failed(CreateFailure::Git(f)),
                next => r.stage == CreateStage::Bare(chosen, next),
            },
            CreateStage::Clone(chosen, clone) => match clone.after(o).stage {
                CloneStage::Done => r.stage == CreateStage::Record(
                    Recording {
                        name: self.name,
                        chosen,
                        download: self.precache,
                        created_at: None,
                        stage: RecordStage::EngineVersion,
                    },
                ),
                CloneStage::Failed(f) => r.stage == CreateStage::CleanUp(CreateFailure::Git(f)),
                _ => r.stage == CreateStage::Clone(chosen, clone.after(o)),
            },
            CreateStage::Record(recording) => match recording.after(o).stage {
                RecordStage::Done => r.stage == CreateStage::LoadGlobal(recording.chosen),
                RecordStage::Failed(f) => r.stage == CreateStage::CleanUp(
                    CreateFailure::Command(f),
                ),
                _ => r.stage == CreateStage::Record(recording.after(o)),
            },
            CreateStage::LoadGlobal(chosen) => match o {
                Outcome::Global(config) if config.default_env is Some => r.stage
                    == CreateStage::Done(chosen),
                _ => r.stage == CreateStage::Activate(
                    chosen,
                    Activation { global: true, stage: UseStage::Look(self.name) },
                ),
            },
            CreateStage::Activate(chosen, activation) => if activation.after(o).ended() {
                r.stage == CreateStage::Done(chosen)
            } else {
                r.stage == CreateStage::Activate(chosen, activation.after(o))
            },
            CreateStage::CleanUp(f) => r.stage == CreateStage::Failed(f),
            CreateStage::Done(_) | CreateStage::Failed(_) => r.stage == self.stage,
        }
    }

    /// Take in the outcome of the pending action.
    pub fn next(self, o: Outcome) -> (r: Self)
        ensures
            self.steps(o, r),
            self.wf() ==> r.wf(),
    {
        let name = self.name;
        let precache = self.precache;
        let stage = match self.stage {
            CreateStage::Look(reference) => match o {
                Outcome::Yes => CreateStage::Failed(CreateFailure::Exists(name.clone())),
                _ => match reference {
                    Some(target) => set_out(target),
                    None => set_out("stable".to_string()),
                },
            },
            CreateStage::Resolve(target) => match o {
                Outcome::Feed(feed) => match resolve_in(&feed, target) {
                    Ok(chosen) => {
                        let bare = ensure_bare(copied(&chosen.release.hash));
                        CreateStage::Bare(chosen, bare)
                    },
                    Err(e) => CreateStage::Failed(CreateFailure::Reference(e)),
                },
                Outcome::Failed(e) => CreateStage::Failed(CreateFailure::Feed(e)),
                _ => CreateStage::Failed(CreateFailure::Command(CommandFailure::Unanswered)),
            },
            CreateStage::Bare(chosen, bare) => match bare.next(o) {
                EnsureBare::Done => {
                    let clone = create_env_from_bare(name.clone(), copied(&chosen.release.hash));
                    CreateStage::Clone(chosen, clone)
                },
                EnsureBare::Failed(f) => CreateStage::Failed(CreateFailure::Git(f)),
                bare => CreateStage::Bare(chosen, bare),
            },
            CreateStage::Clone(chosen, clone) => {
                let clone = clone.next(o);
                match clone.stage {
                    CloneStage::Done => CreateStage::Record(
                        record(name.clone(), chosen, precache, None),
                    ),
                    CloneStage::Failed(f) => CreateStage::CleanUp(CreateFailure::Git(f)),
                    stage => CreateStage::Clone(
                        chosen,
                        EnvClone { name: clone.name, commit: clone.commit, stage },
                    ),
                }
            },
            CreateStage::Record(recording) => {
                let recording = recording.next(o);
                match recording.stage {
                    RecordStage::Done => CreateStage::LoadGlobal(recording.chosen),
                    RecordStage::Failed(f) => CreateStage::CleanUp(CreateFailure::Command(f)),
                    stage => CreateStage::Record(
                        Recording {
                            name: recording.name,
                            chosen: recording.chosen,
                            download: recording.download,
                            created_at: recording.created_at,
                            stage,
                        },
                    ),
                }
            },
            CreateStage::LoadGlobal(chosen) => match o {
                Outcome::Global(config) => if config.default_env.is_some() {
                    CreateStage::Done(chosen)
                } else {
                    CreateStage::Activate(chosen, use_env(Some(name.clone()), true))
                },
                _ => CreateStage::Activate(chosen, use_env(Some(name.clone()), true)),
            },
            CreateStage::Activate(chosen, activation) => {
                proof {
                    if activation.wf() && !activation.ended() {
                        law_activation_names_one_env(activation, o);
                    }
                }
                let activation = activation.next(o);
                if activation.is_ended() {
                    CreateStage::Done(chosen)
                } else {
                    CreateStage::Activate(chosen, activation)
                }
            },
            CreateStage::CleanUp(f) => CreateStage::Failed(f),
            CreateStage::Done(chosen) => CreateStage::Done(chosen),
            CreateStage::Failed(f) => CreateStage::Failed(f),
        };
        Creation { name, precache, stage }
    }

    /// `r` is the pending action, for a home at `root`.
    pub open spec fn asks(self, root: LocationView, platform: Platform, r: Option<Action>) -> bool {
        match (self.stage, r) {
            (CreateStage::Look(_), Some(Action::Exists(l))) => l@ == env_of(root, self.name@),
            (CreateStage::Resolve(_), Some(Action::FetchFeed)) => true,
            (CreateStage::Bare(_, bare), _) => bare.asks(root, r),
            (CreateStage::Clone(_, clone), _) => clone.asks(root, r),
            (CreateStage::Record(recording), _) => recording.asks(root, platform, r),
            (CreateStage::LoadGlobal(_), Some(Action::LoadGlobal)) => true,
            (CreateStage::Activate(_, activation), _) => activation.asks(root, platform, r),
            (CreateStage::CleanUp(_), Some(Action::RemoveTree(l))) => l@ == env_of(root, self.name@),
            (CreateStage::Done(_), None) => true,
            (CreateStage::Failed(_), None) => true,
            _ => false,
        }
    }

    /// The pending action, if there is one.
    pub fn action(&self, home: &PristHome, platform: Platform) -> (r: Option<Action>)
        ensures
            self.wf() ==> (r is Some <==> !self.ended()),
            self.asks(home.root@, platform, r),
    {
        match &self.stage {
            CreateStage::Look(_) => Some(Action::Exists(home.env(self.name.as_str()))),
            CreateStage::Resolve(_) => Some(Action::FetchFeed),
            CreateStage::Bare(_, bare) => bare.action(home),
            CreateStage::Clone(_, clone) => clone.action(home),
            CreateStage::Record(recording) => recording.action(home, platform),
            CreateStage::LoadGlobal(_) => Some(Action::LoadGlobal),
            CreateStage::Activate(_, activation) => activation.action(home, platform),
            CreateStage::CleanUp(_) => Some(Action::RemoveTree(home.env(self.name.as_str()))),
            CreateStage::Done(_) => None,
            CreateStage::Failed(_) => None,
        }
    }

    /// How many outcomes are awaited at most.
    pub open spec fn steps_left(self) -> nat {
        match self.stage {
            CreateStage::Look(_) => 102,
            CreateStage::Resolve(_) => 101,
            CreateStage::Bare(_, bare) => 91 + bare.steps_left(),
            CreateStage::Clone(_, clone) => 84 + clone.steps_left(),
            CreateStage::Record(recording) => 63 + recording.steps_left(),
            CreateStage::LoadGlobal(_) => 62,
            CreateStage::Activate(_, activation) => 31 + activation.steps_left(),
            CreateStage::CleanUp(_) => 1,
            CreateStage::Done(_) => 0,
            CreateStage::Failed(_) => 0,
        }
    }
}

/// How a release that was chosen is described.
pub fn version_label(chosen: &Chosen) -> (r: String)
    ensures
        r@ == release_label(chosen.release@, opt_text(chosen.release.hash)),
{
    describe_release(&chosen.release, borrowed(&chosen.release.hash))
}

/// Nothing is made of an environment whose name is taken, and what was made is removed
/// before a creation fails. An environment is cloned at
/// the commit of the release that was chosen, once the shared repository is ready. It
/// becomes the global default only where none is known, and only after it was
/// recorded what it was made from. Each outcome brings the creation closer to the
/// end.
pub proof fn law_creation_keeps_its_order(before: Creation, o: Outcome, after: Creation)
    requires
        before.wf(),
        !before.ended(),
        before.steps(o, after),
    ensures
        after.wf(),
        after.steps_left() < before.steps_left(),
        before.stage is Look && o is Yes ==> after.stage == CreateStage::Failed(
            CreateFailure::Exists(before.name),
        ),
        after.stage matches CreateStage::Clone(chosen, clone) ==> match before.stage {
            CreateStage::Clone(chosen_before, _) => chosen == chosen_before,
            CreateStage::Bare(chosen_before, bare) => chosen == chosen_before && bare.after(
                o,
            ) is Done && clone.name == before.name && clone.commit == chosen.release.hash,
            _ => false,
        },
        after.stage matches CreateStage::LoadGlobal(chosen) ==> before.stage matches
            CreateStage::Record(recording) && recording.stage is Save && !(o is Failed)
            && recording.chosen == chosen,
        after.stage is Activate && !(before.stage is Activate) ==> before.stage is LoadGlobal && !(
        o matches Outcome::Global(config) && config.default_env is Some),
        after.stage is Done ==> before.stage is LoadGlobal || before.stage is Activate,
        after.stage is Failed ==> before.stage is Look || before.stage is Resolve
            || before.stage is Bare || before.stage is CleanUp,
{
    match before.stage {
        CreateStage::Bare(_, bare) => {
            law_bare_is_ready_with_gc_off(bare, o);
        },
        CreateStage::Clone(_, clone) => {
            law_clone_is_ready_when_linked(clone, o);
        },
        CreateStage::Record(recording) => {
            law_record_is_written_last(recording, o);
        },
        CreateStage::Activate(_, activation) => {
            law_activation_names_one_env(activation, o);
        },
        _ => {},
    }
}

/// Each state comes after the one before it, by the outcome that stands between them.
pub open spec fn is_run(states: Seq<Creation>, outcomes: Seq<Outcome>) -> bool {
    &&& states.len() == outcomes.len() + 1
    &&& forall|i: int|
        0 <= i < outcomes.len() ==> states[i].steps(outcomes[i], #[trigger] states[i + 1])
}

/// By the outcome of number `i` the shared repository was ready.
pub open spec fn bare_ready_at(states: Seq<Creation>, outcomes: Seq<Outcome>, i: int) -> bool {
    states[i].stage matches CreateStage::Bare(_, bare) && bare.after(outcomes[i]) is Done
}

/// By the outcome of number `i` the environment called `name` drew on the shared
/// objects.
pub open spec fn linked_at(
    states: Seq<Creation>,
    outcomes: Seq<Outcome>,
    i: int,
    name: String,
) -> bool {
    states[i].stage matches CreateStage::Clone(_, clone) && clone.name == name
        && clone.stage is Link && !(outcomes[i] is Failed)
}

/// By the outcome of number `i` it was recorded what the environment called `name` was
/// made from.
pub open spec fn recorded_at(
    states: Seq<Creation>,
    outcomes: Seq<Outcome>,
    i: int,
    name: String,
) -> bool {
    states[i].stage matches CreateStage::Record(recording) && recording.name == name
        && recording.stage is Save && !(outcomes[i] is Failed)
}

/// How far a run has come after its first `k` outcomes.
proof fn lemma_run(states: Seq<Creation>, outcomes: Seq<Outcome>, k: int)
    requires
        is_run(states, outcomes),
        states[0].stage is Look,
        0 <= k < states.len(),
    ensures
        states[k].wf(),
        states[k].name == states[0].name,
        !states[k].ended() ==> states[k].steps_left() + k <= states[0].steps_left(),
        states[k].stage is Clone || states[k].stage is Record || states[k].stage is LoadGlobal
            || states[k].stage is Activate || states[k].stage is Done ==> exists|i: int|
            0 <= i < k && #[trigger] bare_ready_at(states, outcomes, i),
        states[k].stage is Record || states[k].stage is LoadGlobal || states[k].stage is Activate
            || states[k].stage is Done ==> exists|i: int|
            0 <= i < k && #[trigger] linked_at(states, outcomes, i, states[0].name),
        states[k].stage is LoadGlobal || states[k].stage is Activate || states[k].stage is Done
            ==> exists|i: int|
            0 <= i < k && #[trigger] recorded_at(states, outcomes, i, states[0].name),
    decreases k,
{
    if k > 0 {
        let j = k - 1;
        lemma_run(states, outcomes, j);
        let before = states[j];
        let o = outcomes[j];
        assert(before.steps(o, states[j + 1]));
        if !before.ended() {
            law_creation_keeps_its_order(before, o, states[k]);
        }
        match before.stage {
            CreateStage::Bare(_, bare) => {
                if bare.after(o) is Done {
                    assert(bare_ready_at(states, outcomes, j));
                }
            },
            CreateStage::Clone(_, clone) => {
                law_clone_is_ready_when_linked(clone, o);
                if clone.after(o).stage is Done {
                    assert(linked_at(states, outcomes, j, states[0].name));
                }
            },
            CreateStage::Record(recording) => {
                law_record_is_written_last(recording, o);
                if recording.after(o).stage is Done {
                    assert(recorded_at(states, outcomes, j, states[0].name));
                }
            },
            _ => {},
        }
    }
}

/// Every creation ends, and one that ends well made the shared repository ready, made
/// the environment draw on it and recorded what the environment was made from.
pub proof fn law_creation_is_complete(states: Seq<Creation>, outcomes: Seq<Outcome>)
    requires
        is_run(states, outcomes),
        states[0].stage is Look,
    ensures
        outcomes.len() >= states[0].steps_left() ==> states.last().ended(),
        states.last().stage is Done ==> {
            &&& exists|i: int|
                0 <= i < outcomes.len() && #[trigger] bare_ready_at(states, outcomes, i)
            &&& exists|i: int|
                0 <= i < outcomes.len() && #[trigger] linked_at(
                    states,
                    outcomes,
                    i,
                    states[0].name,
                )
            &&& exists|i: int|
                0 <= i < outcomes.len() && #[trigger] recorded_at(
                    states,
                    outcomes,
                    i,
                    states[0].name,
                )
        },
{
    lemma_run(states, outcomes, outcomes.len() as int);
}

/// The environment is being cloned, or was, as far as the state tells.
pub open spec fn cloning(c: Creation) -> bool {
    c.stage is Clone || c.stage is Record || c.stage is LoadGlobal || c.stage is Activate
        || c.stage is CleanUp || c.stage is Done
}

/// Once the clone was begun, a run stays with the environment until it is there or was
/// to be removed.
proof fn lemma_clean_up(states: Seq<Creation>, outcomes: Seq<Outcome>, from: int, k: int)
    requires
        is_run(states, outcomes),
        states[0].stage is Look,
        0 <= from <= k < states.len(),
        cloning(states[from]),
    ensures
        states[k].name == states[0].name,
        cloning(states[k]) || exists|j: int|
            from <= j < k && (#[trigger] states[j]).stage is CleanUp,
    decreases k - from,
{
    lemma_run(states, outcomes, k);
    if from < k {
        lemma_clean_up(states, outcomes, from, k - 1);
        lemma_run(states, outcomes, k - 1);
        let before = states[k - 1];
        assert(before.steps(outcomes[k - 1], states[k - 1 + 1]));
        if cloning(before) && before.stage is CleanUp {
            assert(states[k - 1].stage is CleanUp);
        }
    }
}

/// A creation that begins to clone and fails asks first for the removal of what was
/// made, so that it can be tried again: no half-made environment stays.
pub proof fn law_failed_creation_is_cleaned_up(
    states: Seq<Creation>,
    outcomes: Seq<Outcome>,
    root: LocationView,
    platform: Platform,
    from: int,
)
    requires
        is_run(states, outcomes),
        states[0].stage is Look,
        0 <= from < states.len(),
        states[from].stage is Clone,
        states.last().stage is Failed,
    ensures
        exists|j: int|
            from <= j < outcomes.len() && (#[trigger] states[j]).stage is CleanUp && forall|
                r: Option<Action>,
            |
                #[trigger] states[j].asks(root, platform, r) ==> (r matches Some(
                    Action::RemoveTree(l),
                ) && l@ == env_of(root, states[0].name@)),
{
    lemma_clean_up(states, outcomes, from, states.len() - 1);
    let j = choose|j: int| from <= j < states.len() - 1 && (#[trigger] states[j]).stage is CleanUp;
    lemma_clean_up(states, outcomes, from, j);
    assert(states[j].stage is CleanUp);
}

/// A creation sets out for the reference that was given, or where none was for `stable`, and
/// what it clones is the commit that the feed gives for it.
pub proof fn law_creation_follows_the_reference(before: Creation, o: Outcome, after: Creation)
    requires
        before.steps(o, after),
    ensures
        before.stage == CreateStage::Look(None) && !(o is Yes) ==> (after.stage matches
            CreateStage::Resolve(t) && t@ == "stable"@),
        before.stage matches CreateStage::Look(Some(target)) ==> !(o is Yes) ==> match after.stage {
            CreateStage::Resolve(t) => t@ == target@,
            CreateStage::Bare(chosen, bare) => chosen.target@ == target@ && (target@ == "master"@ || (
            target@.len() == 40 && opt_text(chosen.release.hash) == Some(target@))),
            _ => false,
        },
        before.stage matches CreateStage::Resolve(target) ==> (o matches Outcome::Feed(feed)
            ==> match feed@.resolution(target@) {
            Ok(e) => after.stage matches CreateStage::Bare(chosen, bare) && chosen.release@ == e
                && chosen.target@ == target@ && bare == EnsureBare::Parent(chosen.release.hash),
            Err(_) => after.stage is Failed,
        }),
        before.stage matches CreateStage::Clone(chosen, clone) ==> (after.stage matches
            CreateStage::Record(recording) ==> recording.chosen == chosen && recording.download
            == before.precache && recording.created_at is None),
{
    reveal_strlit("stable");
    reveal_strlit("master");
    assert("stable"@.len() == 6 && "stable"@[0] != "master"@[0]);
}

} // verus!
